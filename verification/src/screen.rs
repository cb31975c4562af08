//! The mathematical model of the console: what the grid shows and where the
//! next character goes, and what each operation makes of them.

use vstd::prelude::*;
use crate::buffer::{BUFFER_HEIGHT, BUFFER_WIDTH};
use crate::cell::{is_printable, spec_glyph, ScreenChar, LINE_FEED, UNKNOWN_GLYPH};
use crate::color::ColorCode;

verus! {

/// The state of a console: the column of the next character, the colors in
/// use, and the cells of the grid from the top row to the bottom row. New
/// text always goes to the bottom row.
pub struct Screen {
    pub column: nat,
    pub color: ColorCode,
    pub rows: Seq<Seq<ScreenChar>>,
}

/// A row of cleared cells.
pub open spec fn blank_row() -> Seq<ScreenChar> {
    Seq::new(BUFFER_WIDTH as nat, |col: int| ScreenChar::blank())
}

/// Whether `rows` has the shape of the grid.
pub open spec fn is_grid(rows: Seq<Seq<ScreenChar>>) -> bool {
    &&& rows.len() == BUFFER_HEIGHT
    &&& forall|row: int| 0 <= row < BUFFER_HEIGHT ==> (#[trigger] rows[row]).len() == BUFFER_WIDTH
}

/// The grid after one scroll: every row but the top one moves up by one, and
/// a blank row comes in at the bottom.
pub open spec fn scrolled(rows: Seq<Seq<ScreenChar>>) -> Seq<Seq<ScreenChar>> {
    rows.subrange(1, BUFFER_HEIGHT as int).push(blank_row())
}

impl Screen {
    /// The grid has its shape and the column lies on the row or just behind
    /// its end.
    pub open spec fn wf(self) -> bool {
        &&& self.column <= BUFFER_WIDTH
        &&& is_grid(self.rows)
    }

    /// The bottom row.
    pub open spec fn bottom(self) -> Seq<ScreenChar> {
        self.rows[BUFFER_HEIGHT - 1]
    }

    /// The state after a scroll: the column goes back to the start.
    pub open spec fn new_line(self) -> Screen {
        Screen { column: 0, color: self.color, rows: scrolled(self.rows) }
    }

    /// The state after `byte` is put at the column in the bottom row, in the
    /// colors in use, and the column moves on by one.
    pub open spec fn put(self, byte: u8) -> Screen {
        Screen {
            column: self.column + 1,
            color: self.color,
            rows: self.rows.update(
                BUFFER_HEIGHT - 1,
                self.bottom().update(
                    self.column as int,
                    ScreenChar { ascii_char: byte, color: self.color },
                ),
            ),
        }
    }

    /// The state after `byte` is emitted: a line feed scrolls; any other byte
    /// is put in the bottom row, after a scroll where the row is full.
    pub open spec fn write_byte(self, byte: u8) -> Screen {
        if byte == LINE_FEED {
            self.new_line()
        } else if self.column >= BUFFER_WIDTH {
            self.new_line().put(byte)
        } else {
            self.put(byte)
        }
    }

    /// The state after the bytes of `bytes` are emitted one after the other.
    pub open spec fn write_bytes(self, bytes: Seq<u8>) -> Screen
        decreases bytes.len(),
    {
        if bytes.len() == 0 {
            self
        } else {
            self.write_bytes(bytes.drop_last()).write_byte(bytes.last())
        }
    }

    /// The state after a string with the bytes `bytes` is written: each byte
    /// is emitted as its glyph.
    pub open spec fn write_string(self, bytes: Seq<u8>) -> Screen {
        self.write_bytes(bytes.map_values(|byte: u8| spec_glyph(byte)))
    }
}

/// A scroll keeps the shape of the grid, moves every row but the top one up
/// by one, unchanged, and leaves the bottom row blank at every column.
pub proof fn lemma_scrolled_rows(rows: Seq<Seq<ScreenChar>>)
    requires
        is_grid(rows),
    ensures
        is_grid(scrolled(rows)),
        forall|row: int|
            0 <= row < BUFFER_HEIGHT - 1 ==> #[trigger] scrolled(rows)[row] == rows[row + 1],
        forall|col: int|
            0 <= col < BUFFER_WIDTH ==> #[trigger] scrolled(rows)[BUFFER_HEIGHT - 1][col]
                == ScreenChar::blank(),
{
}

/// A line feed, at whatever column it comes, moves the column back to the
/// start, shifts the rows up by one and leaves the bottom row blank.
pub proof fn lemma_line_feed(screen: Screen)
    requires
        screen.wf(),
    ensures
        screen.write_byte(LINE_FEED).wf(),
        screen.write_byte(LINE_FEED).column == 0,
        screen.write_byte(LINE_FEED).color == screen.color,
        forall|row: int|
            0 <= row < BUFFER_HEIGHT - 1 ==> #[trigger] screen.write_byte(LINE_FEED).rows[row]
                == screen.rows[row + 1],
        forall|col: int|
            0 <= col < BUFFER_WIDTH ==> #[trigger] screen.write_byte(LINE_FEED).bottom()[col]
                == ScreenChar::blank(),
{
    lemma_scrolled_rows(screen.rows);
}

/// Emitting a byte keeps the shape of the grid, the column on the row and
/// the colors in use.
pub proof fn lemma_write_byte_wf(screen: Screen, byte: u8)
    requires
        screen.wf(),
    ensures
        screen.write_byte(byte).wf(),
        screen.write_byte(byte).color == screen.color,
{
    lemma_scrolled_rows(screen.rows);
}

/// Writing a string keeps the shape of the grid, the column on the row and
/// the colors in use.
pub proof fn lemma_write_string_wf(screen: Screen, bytes: Seq<u8>)
    requires
        screen.wf(),
    ensures
        screen.write_string(bytes).wf(),
        screen.write_string(bytes).color == screen.color,
    decreases bytes.len(),
{
    let glyphs = bytes.map_values(|byte: u8| spec_glyph(byte));
    if bytes.len() > 0 {
        assert(glyphs.drop_last() =~= bytes.drop_last().map_values(|byte: u8| spec_glyph(byte)));
        lemma_write_string_wf(screen, bytes.drop_last());
        lemma_write_byte_wf(screen.write_string(bytes.drop_last()), glyphs.last());
    }
}

/// A string of one byte that is no line feed shows in the bottom row, in the
/// colors in use: a printable character as it is, any other byte as the
/// unknown glyph. It stands at the column, or at the start of the row where
/// the row was full and the grid has scrolled.
pub proof fn lemma_write_string_renders(screen: Screen, byte: u8)
    requires
        screen.wf(),
        byte != LINE_FEED,
    ensures
        ({
            let after = screen.write_string(seq![byte]);
            let col: int = if screen.column == BUFFER_WIDTH { 0 } else { screen.column as int };
            &&& after.column == col + 1
            &&& after.bottom()[col].color == screen.color
            &&& is_printable(byte) ==> after.bottom()[col].ascii_char == byte
            &&& !is_printable(byte) ==> after.bottom()[col].ascii_char == UNKNOWN_GLYPH
        }),
{
    let glyphs = seq![byte].map_values(|byte: u8| spec_glyph(byte));
    assert(glyphs.drop_last() =~= Seq::<u8>::empty());
    assert(glyphs.last() == spec_glyph(byte));
    assert(screen.write_bytes(glyphs) == screen.write_bytes(glyphs.drop_last()).write_byte(
        glyphs.last(),
    ));
    lemma_scrolled_rows(screen.rows);
}

/// The bottom row after `glyphs` has been put into it from the column
/// `start` on.
pub open spec fn row_with(
    row: Seq<ScreenChar>,
    start: int,
    glyphs: Seq<u8>,
    color: ColorCode,
) -> Seq<ScreenChar> {
    Seq::new(
        row.len(),
        |col: int|
            if start <= col < start + glyphs.len() {
                ScreenChar { ascii_char: glyphs[col - start], color }
            } else {
                row[col]
            },
    )
}

/// A string without a line feed that fits on what is left of the bottom row
/// goes there, glyph by glyph, from the column on: the column moves on by its
/// length and nothing else changes.
pub proof fn lemma_write_string_on_row(screen: Screen, bytes: Seq<u8>)
    requires
        screen.wf(),
        screen.column + bytes.len() <= BUFFER_WIDTH,
        forall|i: int| 0 <= i < bytes.len() ==> bytes[i] != LINE_FEED,
    ensures
        screen.write_string(bytes) == (Screen {
            column: screen.column + bytes.len(),
            color: screen.color,
            rows: screen.rows.update(
                BUFFER_HEIGHT - 1,
                row_with(
                    screen.bottom(),
                    screen.column as int,
                    bytes.map_values(|byte: u8| spec_glyph(byte)),
                    screen.color,
                ),
            ),
        }),
    decreases bytes.len(),
{
    let glyphs = bytes.map_values(|byte: u8| spec_glyph(byte));
    let filled = row_with(screen.bottom(), screen.column as int, glyphs, screen.color);
    if bytes.len() == 0 {
        assert(filled =~= screen.bottom());
        assert(screen.rows.update(BUFFER_HEIGHT - 1, filled) =~= screen.rows);
    } else {
        let front = bytes.drop_last();
        let front_glyphs = front.map_values(|byte: u8| spec_glyph(byte));
        assert(glyphs.drop_last() =~= front_glyphs);
        lemma_write_string_on_row(screen, front);
        let mid = screen.write_string(front);
        let mid_row = row_with(screen.bottom(), screen.column as int, front_glyphs, screen.color);
        assert(mid.bottom() == mid_row);
        assert(bytes.last() != LINE_FEED);
        assert(mid.write_byte(glyphs.last()) == mid.put(glyphs.last()));
        assert(mid_row.update(
            mid.column as int,
            ScreenChar { ascii_char: glyphs.last(), color: screen.color },
        ) =~= filled);
        assert(mid.put(glyphs.last()).rows =~= screen.rows.update(BUFFER_HEIGHT - 1, filled));
    }
}

/// Eighty printable characters written from the start of the row fill the
/// bottom row, each character at its place and unchanged, and leave the
/// column just behind the end of the row. The rows above stay as they are.
pub proof fn lemma_full_row(screen: Screen, bytes: Seq<u8>)
    requires
        screen.wf(),
        screen.column == 0,
        bytes.len() == BUFFER_WIDTH,
        forall|i: int| 0 <= i < bytes.len() ==> is_printable(#[trigger] bytes[i]),
    ensures
        screen.write_string(bytes).column == BUFFER_WIDTH,
        screen.write_string(bytes).bottom() == Seq::new(
            BUFFER_WIDTH as nat,
            |col: int| ScreenChar { ascii_char: bytes[col], color: screen.color },
        ),
        forall|row: int|
            0 <= row < BUFFER_HEIGHT - 1 ==> #[trigger] screen.write_string(bytes).rows[row]
                == screen.rows[row],
{
    lemma_write_string_on_row(screen, bytes);
    assert(screen.write_string(bytes).bottom() =~= Seq::new(
        BUFFER_WIDTH as nat,
        |col: int| ScreenChar { ascii_char: bytes[col], color: screen.color },
    ));
}

/// A character written to a full row wraps: the grid scrolls, so that the
/// full row stands one row higher, and the character goes to the start of the
/// new bottom row, which is blank behind it; the column is 1.
pub proof fn lemma_wrap(screen: Screen, byte: u8)
    requires
        screen.wf(),
        screen.column == BUFFER_WIDTH,
        byte != LINE_FEED,
    ensures
        screen.write_byte(byte).column == 1,
        screen.write_byte(byte).rows[BUFFER_HEIGHT - 2] == screen.bottom(),
        forall|row: int|
            0 <= row < BUFFER_HEIGHT - 1 ==> #[trigger] screen.write_byte(byte).rows[row]
                == screen.rows[row + 1],
        screen.write_byte(byte).bottom()[0] == (ScreenChar {
            ascii_char: byte,
            color: screen.color,
        }),
        forall|col: int|
            1 <= col < BUFFER_WIDTH ==> #[trigger] screen.write_byte(byte).bottom()[col]
                == ScreenChar::blank(),
{
    lemma_scrolled_rows(screen.rows);
}

} // verus!
