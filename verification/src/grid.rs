//! The vertex lattice: a fixed grid of 11 rows by 19 columns, stored row by row.
//!
//! The lattice is one cell wider than the viewport on every side, so that the
//! jittered border never shows a gap. Only the layout lives here; where a
//! vertex ends up in space is the caller's business.

use vstd::prelude::*;

verus! {

/// Number of vertex columns in the lattice.
pub const COLUMNS: usize = 19;

/// Number of vertex rows in the lattice.
pub const ROWS: usize = 11;

/// Number of vertices in the lattice.
pub const VERTEX_COUNT: usize = 209;

/// A lattice position: `row` counts down from the top, `col` from the left.
#[derive(Clone, Copy, Debug, PartialEq, Eq, Structural)]
pub struct Cell {
    pub row: usize,
    pub col: usize,
}

/// Position of the vertex at `(row, col)` in row-major order.
pub open spec fn index_of(row: int, col: int) -> int {
    row * 19 + col
}

/// The lattice position stored at `index` of a row-major vertex list.
pub open spec fn cell_at(index: int) -> Cell {
    Cell { row: (index / 19) as usize, col: (index % 19) as usize }
}

/// Whether `cell` lies on the lattice.
pub open spec fn on_lattice(cell: Cell) -> bool {
    cell.row < 11 && cell.col < 19
}

/// The whole lattice in storage order.
pub open spec fn lattice() -> Seq<Cell> {
    Seq::new(209, |index: int| cell_at(index))
}

/// Position of the vertex at `(row, col)` in a row-major vertex list.
pub fn vertex_index(row: usize, col: usize) -> (index: usize)
    requires
        row < ROWS,
        col < COLUMNS,
    ensures
        index == index_of(row as int, col as int),
        index < VERTEX_COUNT,
{
    row * COLUMNS + col
}

/// The lattice position that a row-major vertex list keeps at `index`.
pub fn vertex_cell(index: usize) -> (cell: Cell)
    requires
        index < VERTEX_COUNT,
    ensures
        cell == cell_at(index as int),
        on_lattice(cell),
{
    Cell { row: index / COLUMNS, col: index % COLUMNS }
}

/// Every lattice position, in the order in which vertices are generated and
/// stored: row by row, each row from left to right.
pub fn grid_cells() -> (cells: Vec<Cell>)
    ensures
        cells@ == lattice(),
        cells@.len() == VERTEX_COUNT,
{
    let mut cells: Vec<Cell> = Vec::new();
    let mut row: usize = 0;
    while row < ROWS
        invariant
            row <= ROWS,
            cells@.len() == row * 19,
            forall|index: int| 0 <= index < cells@.len() ==> cells@[index] == cell_at(index),
        decreases ROWS - row,
    {
        let mut col: usize = 0;
        while col < COLUMNS
            invariant
                row < ROWS,
                col <= COLUMNS,
                cells@.len() == row * 19 + col,
                forall|index: int| 0 <= index < cells@.len() ==> cells@[index] == cell_at(index),
            decreases COLUMNS - col,
        {
            cells.push(Cell { row, col });
            col += 1;
        }
        row += 1;
    }
    assert(cells@ =~= lattice());
    cells
}

/// A position on the lattice and its place in storage determine each other:
/// the cell stored at `index_of(row, col)` is `(row, col)`.
pub proof fn cell_of_index_roundtrip(row: int, col: int)
    requires
        0 <= row < 11,
        0 <= col < 19,
    ensures
        0 <= index_of(row, col) < 209,
        cell_at(index_of(row, col)) == (Cell { row: row as usize, col: col as usize }),
{
}

/// Every stored place belongs to exactly the lattice position that maps back
/// to it.
pub proof fn index_of_cell_roundtrip(index: int)
    requires
        0 <= index < 209,
    ensures
        on_lattice(cell_at(index)),
        index_of(cell_at(index).row as int, cell_at(index).col as int) == index,
{
}

/// Distinct lattice positions are stored at distinct places.
pub proof fn index_is_injective(row_a: int, col_a: int, row_b: int, col_b: int)
    requires
        0 <= row_a < 11,
        0 <= col_a < 19,
        0 <= row_b < 11,
        0 <= col_b < 19,
        index_of(row_a, col_a) == index_of(row_b, col_b),
    ensures
        row_a == row_b,
        col_a == col_b,
{
}

} // verus!
