//! One character position of the display, and the two bytes that stand for
//! it in video memory.

use vstd::prelude::*;
use crate::color::ColorCode;

verus! {

/// The line-feed byte.
pub const LINE_FEED: u8 = 0x0a;

/// The glyph shown in place of a byte that has no printable form.
pub const UNKNOWN_GLYPH: u8 = 0xfe;

/// A character together with the colors it is shown in.
#[derive(Debug, Clone, Copy, PartialEq, Eq, Structural)]
pub struct ScreenChar {
    pub ascii_char: u8,
    pub color: ColorCode,
}

impl ScreenChar {
    /// The cell of a cleared position: character 0, attribute 0.
    pub open spec fn spec_blank() -> ScreenChar {
        ScreenChar { ascii_char: 0, color: ColorCode(0) }
    }

    /// The bytes of this cell in video memory: the character first, the
    /// attribute second.
    pub open spec fn spec_to_bytes(self) -> Seq<u8> {
        seq![self.ascii_char, self.color@]
    }

    /// The cell that the two bytes `bytes` stand for.
    pub open spec fn spec_from_bytes(bytes: Seq<u8>) -> ScreenChar {
        ScreenChar { ascii_char: bytes[0], color: ColorCode(bytes[1]) }
    }

    /// The cell of a cleared position.
    #[verifier::when_used_as_spec(spec_blank)]
    pub fn blank() -> (cell: ScreenChar)
        ensures
            cell == ScreenChar::spec_blank(),
    {
        ScreenChar { ascii_char: 0, color: ColorCode(0) }
    }

    /// The two bytes written to video memory for this cell.
    pub fn to_bytes(self) -> (bytes: [u8; 2])
        ensures
            bytes@ == self.spec_to_bytes(),
            ScreenChar::spec_from_bytes(bytes@) == self,
    {
        let bytes: [u8; 2] = [self.ascii_char, self.color.0];
        assert(bytes@ =~= self.spec_to_bytes());
        bytes
    }

    /// The cell that two bytes of video memory stand for.
    pub fn from_bytes(bytes: [u8; 2]) -> (cell: ScreenChar)
        ensures
            cell == ScreenChar::spec_from_bytes(bytes@),
            cell.spec_to_bytes() == bytes@,
    {
        let cell = ScreenChar { ascii_char: bytes[0], color: ColorCode(bytes[1]) };
        assert(cell.spec_to_bytes() =~= bytes@);
        cell
    }
}

/// Whether `byte` is a printable ASCII character, `0x20..=0x7e`.
pub open spec fn is_printable(byte: u8) -> bool {
    0x20 <= byte <= 0x7e
}

/// The byte emitted for `byte`: printable characters and the line feed as
/// they are, every other byte as the unknown glyph.
pub open spec fn spec_glyph(byte: u8) -> u8 {
    if is_printable(byte) || byte == LINE_FEED {
        byte
    } else {
        UNKNOWN_GLYPH
    }
}

/// The byte emitted for `byte`. No multi-byte encoding is interpreted: each
/// byte of the input is judged alone.
#[verifier::when_used_as_spec(spec_glyph)]
pub fn glyph(byte: u8) -> (out: u8)
    ensures
        out == spec_glyph(byte),
{
    match byte {
        0x20..=0x7e | LINE_FEED => byte,
        _ => UNKNOWN_GLYPH,
    }
}

} // verus!
