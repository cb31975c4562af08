//! The character grid in video memory and the volatile accesses to it.

use vstd::prelude::*;
use volatile::Volatile;
use crate::cell::ScreenChar;

verus! {

/// The number of rows of the grid.
pub const BUFFER_HEIGHT: usize = 25;

/// The number of cells in a row.
pub const BUFFER_WIDTH: usize = 80;

/// `volatile::Volatile`, a value that is read and written by volatile
/// accesses only. Nothing is known of what is inside but through `cell_bytes`.
#[verifier::external_type_specification]
#[verifier::external_body]
#[verifier::reject_recursive_types(T)]
pub struct ExVolatile<T: Copy>(Volatile<T>);

/// The grid as the hardware lays it out: rows from top to bottom, cells from
/// left to right, two bytes per cell and no gaps.
pub type Buffer = [[Volatile<[u8; 2]>; BUFFER_WIDTH]; BUFFER_HEIGHT];

/// The two bytes that a volatile cell holds. Nothing is assumed of them but
/// what `read_cell` and `write_cell` say.
pub uninterp spec fn cell_bytes(cell: Volatile<[u8; 2]>) -> Seq<u8>;

/// `Volatile::read`: one volatile load of the cell. The contract claims that
/// the load returns the bytes that the cell holds.
#[verifier::external_body]
pub(crate) fn read_cell(cell: &Volatile<[u8; 2]>) -> (bytes: [u8; 2])
    ensures
        bytes@ == cell_bytes(*cell),
{
    cell.read()
}

/// `Volatile::write`: one volatile store to the cell. The contract claims
/// that the cell holds `bytes` afterwards, and that the store never panics.
#[verifier::external_body]
pub(crate) fn write_cell(cell: &mut Volatile<[u8; 2]>, bytes: [u8; 2])
    ensures
        cell_bytes(*final(cell)) == bytes@,
    no_unwind
{
    cell.write(bytes)
}

/// The cell that the grid shows in row `row` at column `col`.
#[verifier::inline]
pub open spec fn shown(buffer: Buffer, row: int, col: int) -> ScreenChar {
    ScreenChar::spec_from_bytes(cell_bytes(buffer[row][col]))
}

/// The cells that the grid shows, row by row from the top, each row from the
/// left.
pub open spec fn grid_of(buffer: Buffer) -> Seq<Seq<ScreenChar>> {
    Seq::new(
        BUFFER_HEIGHT as nat,
        |row: int| Seq::new(BUFFER_WIDTH as nat, |col: int| shown(buffer, row, col)),
    )
}

} // verus!
