//! The console writer: it holds the grid, the colors in use and the column of
//! the next character, and writes bytes and strings to the bottom row.

use core::fmt::Write;
use vstd::prelude::*;
use vstd::string::StringSliceAdditionalSpecFns;
use vstd::utf8::is_ascii_chars_encode_utf8;
use crate::buffer::{grid_of, read_cell, shown, write_cell, Buffer, BUFFER_HEIGHT, BUFFER_WIDTH};
use crate::cell::{glyph, spec_glyph, ScreenChar, LINE_FEED};
use crate::color::{Color, ColorCode};
use crate::screen::{lemma_write_string_on_row, row_with, scrolled, Screen};

verus! {

/// A console on a borrowed grid. The writer is the only one to touch the grid
/// for as long as it lives. Its view is the `Screen` that it shows.
pub struct Writer<'a> {
    column_position: usize,
    color_code: ColorCode,
    buffer: &'a mut Buffer,
}

impl<'a> View for Writer<'a> {
    type V = Screen;

    closed spec fn view(&self) -> Screen {
        Screen {
            column: self.column_position as nat,
            color: self.color_code,
            rows: grid_of(*self.buffer),
        }
    }
}

impl<'a> Writer<'a> {
    /// The column never lies further right than just behind the end of the
    /// row.
    #[verifier::type_invariant]
    closed spec fn column_on_row(&self) -> bool {
        self.column_position <= BUFFER_WIDTH
    }

    /// The borrow of the grid that the writer holds. What the grid shows once
    /// the writer is gone is `grid_of(*final(w.borrowed()))`; no operation of
    /// the writer exchanges the borrow for another.
    pub closed spec fn borrowed(&self) -> &'a mut Buffer {
        self.buffer
    }

    /// Once nothing writes through the writer any more, the grid is left with
    /// what the writer shows.
    pub proof fn lemma_resolved(self)
        ensures
            has_resolved(self) ==> grid_of(*final(self.borrowed())) == self@.rows,
    {
    }

    /// A writer on `buffer` that starts at the first column of the bottom row
    /// and writes in the colors `color_code`. The grid is left as it is.
    pub fn new(color_code: ColorCode, buffer: &'a mut Buffer) -> (writer: Writer<'a>)
        ensures
            writer@ == (Screen { column: 0, color: color_code, rows: grid_of(*old(buffer)) }),
            writer@.wf(),
            *final(writer.borrowed()) == *final(buffer),
    {
        Writer { column_position: 0, color_code, buffer }
    }

    /// The column at which the next character goes, `0..=80`.
    pub fn column_position(&self) -> (column: usize)
        ensures
            column == self@.column,
            column <= BUFFER_WIDTH,
    {
        proof {
            use_type_invariant(self);
        }
        self.column_position
    }

    /// The colors in which the writer writes.
    pub fn color_code(&self) -> (color: ColorCode)
        ensures
            color == self@.color,
    {
        self.color_code
    }

    /// Emits one byte. A line feed scrolls the grid and moves the column back
    /// to the start. Any other byte is written as it is to the bottom row at
    /// the column, in the writer's colors, and the column moves on by one; if
    /// the row is full, the grid is scrolled first.
    pub fn write_byte(&mut self, byte: u8)
        ensures
            final(self)@ == old(self)@.write_byte(byte),
            final(self)@.wf(),
            *final(final(self).borrowed()) == *final(old(self).borrowed()),
    {
        match byte {
            LINE_FEED => self.new_line(),
            _ => {
                if self.column_position >= BUFFER_WIDTH {
                    self.new_line();
                }
                let row: usize = BUFFER_HEIGHT - 1;
                let col: usize = self.column_position;
                let cell = ScreenChar { ascii_char: byte, color: self.color_code };
                let ghost before = self@;
                write_cell(&mut self.buffer[row][col], cell.to_bytes());
                self.column_position += 1;
                assert(self@.rows =~~= before.put(byte).rows);
            },
        }
    }

    /// Writes a string, byte by byte: a printable ASCII character or a line
    /// feed is emitted as it is, any other byte as the unknown glyph.
    pub fn write_string(&mut self, s: &str)
        ensures
            final(self)@ == old(self)@.write_string(s.spec_bytes()),
            final(self)@.wf(),
            final(self)@.color == old(self)@.color,
            *final(final(self).borrowed()) == *final(old(self).borrowed()),
    {
        proof {
            use_type_invariant(&*self);
        }
        let bytes = s.as_bytes();
        assert(bytes@.take(0) =~= Seq::<u8>::empty());
        for i in 0..bytes.len()
            invariant
                bytes@ == s.spec_bytes(),
                self@ == old(self)@.write_string(bytes@.take(i as int)),
                self@.wf(),
                self@.color == old(self)@.color,
                *final(self.buffer) == *final(old(self).buffer),
        {
            proof {
                let done = bytes@.take(i as int).map_values(|byte: u8| spec_glyph(byte));
                let next = bytes@.take(i + 1).map_values(|byte: u8| spec_glyph(byte));
                assert(next.drop_last() =~= done);
                assert(next.last() == spec_glyph(bytes@[i as int]));
            }
            self.write_byte(glyph(bytes[i]));
        }
        assert(bytes@.take(bytes@.len() as int) =~= bytes@);
    }

    /// Scrolls the grid by one row and moves the column back to the start.
    /// Rows are copied from the top down, cell by cell, each cell by one
    /// volatile load and one volatile store; then the bottom row is cleared.
    fn new_line(&mut self)
        ensures
            final(self)@ == old(self)@.new_line(),
            final(self)@.wf(),
            *final(final(self).borrowed()) == *final(old(self).borrowed()),
    {
        proof {
            use_type_invariant(&*self);
        }
        let ghost start: Buffer = *self.buffer;
        for row in 0..BUFFER_HEIGHT - 1
            invariant
                self.column_position <= BUFFER_WIDTH,
                self.color_code == old(self).color_code,
                *final(self.buffer) == *final(old(self).buffer),
                forall|r: int, c: int|
                    0 <= r < row && 0 <= c < BUFFER_WIDTH ==> shown(*self.buffer, r, c)
                        == shown(start, r + 1, c),
                forall|r: int, c: int|
                    row <= r < BUFFER_HEIGHT && 0 <= c < BUFFER_WIDTH ==> shown(
                        *self.buffer,
                        r,
                        c,
                    ) == shown(start, r, c),
        {
            for col in 0..BUFFER_WIDTH
                invariant
                    row < BUFFER_HEIGHT - 1,
                    self.column_position <= BUFFER_WIDTH,
                    self.color_code == old(self).color_code,
                    *final(self.buffer) == *final(old(self).buffer),
                    forall|r: int, c: int|
                        0 <= r < row && 0 <= c < BUFFER_WIDTH ==> shown(
                            *self.buffer,
                            r,
                            c,
                        ) == shown(start, r + 1, c),
                    forall|c: int|
                        0 <= c < col ==> shown(*self.buffer, row as int, c) == shown(
                            start,
                            row + 1,
                            c,
                        ),
                    forall|c: int|
                        col <= c < BUFFER_WIDTH ==> shown(*self.buffer, row as int, c)
                            == shown(start, row as int, c),
                    forall|r: int, c: int|
                        row < r < BUFFER_HEIGHT && 0 <= c < BUFFER_WIDTH ==> shown(
                            *self.buffer,
                            r,
                            c,
                        ) == shown(start, r, c),
            {
                let bytes = read_cell(&self.buffer[row + 1][col]);
                write_cell(&mut self.buffer[row][col], bytes);
            }
        }
        let bottom: usize = BUFFER_HEIGHT - 1;
        let blank = ScreenChar::blank().to_bytes();
        for col in 0..BUFFER_WIDTH
            invariant
                self.column_position <= BUFFER_WIDTH,
                self.color_code == old(self).color_code,
                *final(self.buffer) == *final(old(self).buffer),
                bottom == BUFFER_HEIGHT - 1,
                ScreenChar::spec_from_bytes(blank@) == ScreenChar::blank(),
                forall|r: int, c: int|
                    0 <= r < bottom && 0 <= c < BUFFER_WIDTH ==> shown(*self.buffer, r, c)
                        == shown(start, r + 1, c),
                forall|c: int|
                    0 <= c < col ==> shown(*self.buffer, bottom as int, c) == ScreenChar::blank(),
        {
            write_cell(&mut self.buffer[bottom][col], blank);
        }
        self.column_position = 0;
        assert(self@.rows =~~= scrolled(old(self)@.rows));
    }
}

/// `core::fmt::Error`, the error of the formatting traits. The writer never
/// makes one.
#[verifier::external_type_specification]
#[verifier::external_body]
pub struct ExFmtError(core::fmt::Error);

impl<'a> Write for Writer<'a> {
    /// Writes `s` as `write_string` does. It always succeeds.
    fn write_str(&mut self, s: &str) -> (done: core::fmt::Result)
        ensures
            done is Ok,
            final(self)@ == old(self)@.write_string(s.spec_bytes()),
            final(self)@.wf(),
            final(self)@.color == old(self)@.color,
            *final(final(self).borrowed()) == *final(old(self).borrowed()),
    {
        self.write_string(s);
        Ok(())
    }
}

/// The bytes of the text that `print_something` writes: four spaces and a
/// short greeting.
pub open spec fn greeting() -> Seq<u8> {
    seq![
        0x20u8, 0x20u8, 0x20u8, 0x20u8, 0x4fu8, 0x6cu8, 0x61u8, 0x2cu8, 0x20u8, 0x4du8, 0x75u8,
        0x6eu8, 0x64u8, 0x6fu8,
    ]
}

/// Writes the greeting to `buffer`, green on black, with a writer that starts
/// at the first column: the text then stands at the start of the bottom row,
/// and every other cell is left as it was.
pub fn print_something(buffer: &mut Buffer)
    ensures
        grid_of(*final(buffer)) == grid_of(*old(buffer)).update(
            BUFFER_HEIGHT - 1,
            row_with(grid_of(*old(buffer))[BUFFER_HEIGHT - 1], 0, greeting(), ColorCode(0x02)),
        ),
{
    let mut writer = Writer::new(ColorCode::new(Color::Green, Color::Black), buffer);
    proof {
        let text = "    Ola, Mundo";
        reveal_strlit("    Ola, Mundo");
        is_ascii_chars_encode_utf8(text@);
        assert(text.spec_bytes() =~= greeting());
        assert(greeting().map_values(|byte: u8| spec_glyph(byte)) =~= greeting());
        assert((0u8 << 4) | 2u8 == 0x02u8) by (bit_vector);
        lemma_write_string_on_row(writer@, greeting());
    }
    writer.write_str("    Ola, Mundo").unwrap();
}

} // verus!
