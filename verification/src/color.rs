//! The sixteen colors of the text mode and the attribute byte that packs two
//! of them.

use vstd::prelude::*;

verus! {

/// One of the sixteen colors that a text-mode display controller knows.
#[derive(Debug, Clone, Copy, PartialEq, Eq, Structural)]
pub enum Color {
    Black,
    Blue,
    Green,
    Cyan,
    Red,
    Magenta,
    Brown,
    LightGray,
    DarkGray,
    LightBlue,
    LightGreen,
    LightCyan,
    LightRed,
    Pink,
    Yellow,
    White,
}

impl Color {
    /// The four-bit code that the hardware assigns to this color.
    pub open spec fn spec_code(self) -> u8 {
        match self {
            Color::Black => 0,
            Color::Blue => 1,
            Color::Green => 2,
            Color::Cyan => 3,
            Color::Red => 4,
            Color::Magenta => 5,
            Color::Brown => 6,
            Color::LightGray => 7,
            Color::DarkGray => 8,
            Color::LightBlue => 9,
            Color::LightGreen => 10,
            Color::LightCyan => 11,
            Color::LightRed => 12,
            Color::Pink => 13,
            Color::Yellow => 14,
            Color::White => 15,
        }
    }

    /// The color that carries the code `code % 16`.
    pub open spec fn spec_from_nibble(code: u8) -> Color {
        match code % 16 {
            0 => Color::Black,
            1 => Color::Blue,
            2 => Color::Green,
            3 => Color::Cyan,
            4 => Color::Red,
            5 => Color::Magenta,
            6 => Color::Brown,
            7 => Color::LightGray,
            8 => Color::DarkGray,
            9 => Color::LightBlue,
            10 => Color::LightGreen,
            11 => Color::LightCyan,
            12 => Color::LightRed,
            13 => Color::Pink,
            14 => Color::Yellow,
            _ => Color::White,
        }
    }

    /// The four-bit code of this color, `0..=15`.
    #[verifier::when_used_as_spec(spec_code)]
    pub fn code(self) -> (code: u8)
        ensures
            code == self.spec_code(),
            code < 16,
    {
        match self {
            Color::Black => 0,
            Color::Blue => 1,
            Color::Green => 2,
            Color::Cyan => 3,
            Color::Red => 4,
            Color::Magenta => 5,
            Color::Brown => 6,
            Color::LightGray => 7,
            Color::DarkGray => 8,
            Color::LightBlue => 9,
            Color::LightGreen => 10,
            Color::LightCyan => 11,
            Color::LightRed => 12,
            Color::Pink => 13,
            Color::Yellow => 14,
            Color::White => 15,
        }
    }

    /// The color whose code is the low four bits of `code`.
    #[verifier::when_used_as_spec(spec_from_nibble)]
    pub fn from_nibble(code: u8) -> (color: Color)
        ensures
            color == Color::spec_from_nibble(code),
            color.code() == code % 16,
    {
        match code % 16 {
            0 => Color::Black,
            1 => Color::Blue,
            2 => Color::Green,
            3 => Color::Cyan,
            4 => Color::Red,
            5 => Color::Magenta,
            6 => Color::Brown,
            7 => Color::LightGray,
            8 => Color::DarkGray,
            9 => Color::LightBlue,
            10 => Color::LightGreen,
            11 => Color::LightCyan,
            12 => Color::LightRed,
            13 => Color::Pink,
            14 => Color::Yellow,
            _ => Color::White,
        }
    }

    /// Every color is found again from its code.
    pub proof fn lemma_code_round_trip(self)
        ensures
            self.code() < 16,
            Color::from_nibble(self.code()) == self,
    {
    }
}

/// A foreground and a background color in one attribute byte: the background
/// in the high four bits, the foreground in the low four. Every byte is the
/// attribute of exactly one pair of colors.
#[derive(Debug, Clone, Copy, PartialEq, Eq, Structural)]
pub struct ColorCode(pub u8);

impl View for ColorCode {
    type V = u8;

    open spec fn view(&self) -> u8 {
        self.0
    }
}

impl ColorCode {
    /// The attribute byte of `foreground` on `background`.
    pub open spec fn pack(foreground: Color, background: Color) -> u8 {
        (background.code() << 4) | foreground.code()
    }

    /// The color in the low four bits.
    pub open spec fn spec_foreground(self) -> Color {
        Color::from_nibble(self.0 & 0x0f)
    }

    /// The color in the high four bits.
    pub open spec fn spec_background(self) -> Color {
        Color::from_nibble(self.0 >> 4)
    }

    /// Unpacking the attribute byte of a pair gives the two colors back.
    pub proof fn lemma_pack_round_trip(foreground: Color, background: Color)
        ensures
            ColorCode(ColorCode::pack(foreground, background)).foreground() == foreground,
            ColorCode(ColorCode::pack(foreground, background)).background() == background,
    {
        let f: u8 = foreground.code();
        let b: u8 = background.code();
        assert(((b << 4) | f) & 0x0f == f && ((b << 4) | f) >> 4 == b) by (bit_vector)
            requires
                f < 16,
                b < 16,
        ;
        foreground.lemma_code_round_trip();
        background.lemma_code_round_trip();
    }

    /// Every byte is the attribute byte of the pair of colors that it
    /// unpacks to.
    pub proof fn lemma_unpack_round_trip(bits: u8)
        ensures
            ColorCode::pack(ColorCode(bits).foreground(), ColorCode(bits).background()) == bits,
    {
        let f: u8 = bits & 0x0f;
        let b: u8 = bits >> 4;
        assert(f % 16 == f && b % 16 == b && ((b % 16) << 4) | (f % 16) == bits) by (bit_vector)
            requires
                f == bits & 0x0f,
                b == bits >> 4,
        ;
        assert(Color::from_nibble(f).code() == f % 16);
        assert(Color::from_nibble(b).code() == b % 16);
    }

    /// Packs `foreground` and `background` into one attribute byte. Unpacking
    /// the byte gives the two colors back.
    pub fn new(foreground: Color, background: Color) -> (packed: ColorCode)
        ensures
            packed@ == ColorCode::pack(foreground, background),
            packed.foreground() == foreground,
            packed.background() == background,
    {
        proof {
            ColorCode::lemma_pack_round_trip(foreground, background);
        }
        ColorCode((background.code() << 4) | foreground.code())
    }

    /// The foreground color of the pair.
    #[verifier::when_used_as_spec(spec_foreground)]
    pub fn foreground(self) -> (color: Color)
        ensures
            color == self.spec_foreground(),
    {
        Color::from_nibble(self.0 & 0x0f)
    }

    /// The background color of the pair.
    #[verifier::when_used_as_spec(spec_background)]
    pub fn background(self) -> (color: Color)
        ensures
            color == self.spec_background(),
    {
        Color::from_nibble(self.0 >> 4)
    }
}

} // verus!
