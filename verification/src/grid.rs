//! The hex grid of a byte buffer: rows of `COL_COUNT` cells, each the text of
//! one byte, or absent behind the last byte.

use crate::hex::{
    byte_to_hex, hex_pair, is_upper_hex, lemma_hex_pair_injective, lemma_hex_round_trip,
};
use vstd::prelude::*;

verus! {

/// Number of cells in every row of a hex grid.
pub const COL_COUNT: usize = 16;

/// One row of a grid. A cell is the two-character text of a byte, or `None`
/// where the buffer has ended.
pub type HexRow = [Option<String>; COL_COUNT];

/// What a cell holds, as plain text.
pub open spec fn cell_text(cell: Option<String>) -> Option<Seq<char>> {
    match cell {
        Some(s) => Some(s@),
        None => None,
    }
}

/// What the cell in row `i`, column `j` of `grid` holds.
pub open spec fn grid_cell(grid: Seq<HexRow>, i: int, j: int) -> Option<Seq<char>> {
    cell_text(grid[i]@[j])
}

/// Number of rows that `len` bytes fill: `len / COL_COUNT`, rounded up.
pub open spec fn row_count(len: nat) -> nat {
    if len % (COL_COUNT as nat) == 0 {
        len / (COL_COUNT as nat)
    } else {
        len / (COL_COUNT as nat) + 1
    }
}

/// The row count is the least number of rows that hold `len` bytes.
pub proof fn lemma_row_count_is_ceiling(len: nat)
    ensures
        row_count(len) == (len + COL_COUNT - 1) / (COL_COUNT as int),
        row_count(len) * COL_COUNT >= len,
        len > 0 ==> (row_count(len) - 1) * COL_COUNT < len,
        len == 0 ==> row_count(len) == 0,
{
}

/// What the grid of `data` holds in row `i`, column `j`: the text of byte
/// `i * COL_COUNT + j`, or nothing behind the last byte.
pub open spec fn encoded_cell(data: Seq<u8>, i: int, j: int) -> Option<Seq<char>> {
    let k = i * COL_COUNT + j;
    if 0 <= k < data.len() {
        Some(hex_pair(data[k]))
    } else {
        None
    }
}

/// `grid` is the hex grid of `data`.
pub open spec fn encodes(grid: Seq<HexRow>, data: Seq<u8>) -> bool {
    &&& grid.len() == row_count(data.len())
    &&& forall|i: int, j: int|
        0 <= i < grid.len() && 0 <= j < COL_COUNT ==> #[trigger] grid_cell(grid, i, j)
            == encoded_cell(data, i, j)
}

/// Whether every cell of row `i` holds a byte.
pub open spec fn row_is_full(grid: Seq<HexRow>, i: int) -> bool {
    forall|j: int| 0 <= j < COL_COUNT ==> #[trigger] grid_cell(grid, i, j) is Some
}

/// A grid has as many rows as its bytes need, and every row before the last
/// is full. In the last row the cells that hold a byte are the leading ones.
pub proof fn lemma_encoded_shape(grid: Seq<HexRow>, data: Seq<u8>)
    requires
        encodes(grid, data),
    ensures
        grid.len() == row_count(data.len()),
        (grid.len() == 0) <==> (data.len() == 0),
        forall|i: int| 0 <= i < grid.len() - 1 ==> row_is_full(grid, i),
        forall|j: int|
            grid.len() > 0 && 0 <= j < COL_COUNT ==> (#[trigger] grid_cell(
                grid,
                grid.len() - 1,
                j,
            ) is Some <==> (grid.len() - 1) * COL_COUNT + j < data.len()),
{
    let n = data.len();
    assert forall|i: int| 0 <= i < grid.len() - 1 implies row_is_full(grid, i) by {
        assert forall|j: int| 0 <= j < COL_COUNT implies #[trigger] grid_cell(grid, i, j)
            is Some by {
            assert(grid_cell(grid, i, j) == encoded_cell(data, i, j));
            assert(i * COL_COUNT + j < n);
        }
    }
    assert forall|j: int| grid.len() > 0 && 0 <= j < COL_COUNT implies (#[trigger] grid_cell(
        grid,
        grid.len() - 1,
        j,
    ) is Some <==> (grid.len() - 1) * COL_COUNT + j < data.len()) by {
        assert(grid_cell(grid, grid.len() - 1, j) == encoded_cell(data, grid.len() - 1, j));
    }
}

/// Whether `text` is two uppercase hexadecimal digits.
pub open spec fn is_hex_text(text: Seq<char>) -> bool {
    text.len() == 2 && is_upper_hex(text[0]) && is_upper_hex(text[1])
}

/// What holds of the grid of every buffer, whatever its bytes: every cell
/// that holds something holds the text of a byte, every row before the last
/// is full, and the last row begins with a byte and has no byte behind an
/// absent cell.
pub open spec fn well_formed(grid: Seq<HexRow>) -> bool {
    &&& forall|i: int, j: int|
        0 <= i < grid.len() && 0 <= j < COL_COUNT ==> match #[trigger] grid_cell(grid, i, j) {
            Some(text) => is_hex_text(text),
            None => true,
        }
    &&& forall|i: int| 0 <= i < grid.len() - 1 ==> row_is_full(grid, i)
    &&& grid.len() > 0 ==> grid_cell(grid, grid.len() - 1, 0) is Some
    &&& forall|j: int, later: int|
        grid.len() > 0 && 0 <= j <= later < COL_COUNT && #[trigger] grid_cell(
            grid,
            grid.len() - 1,
            later,
        ) is Some ==> #[trigger] grid_cell(grid, grid.len() - 1, j) is Some
}

/// The grid of a buffer is well formed.
pub proof fn lemma_encoded_well_formed(grid: Seq<HexRow>, data: Seq<u8>)
    requires
        encodes(grid, data),
    ensures
        well_formed(grid),
{
    lemma_encoded_shape(grid, data);
    assert forall|i: int, j: int| 0 <= i < grid.len() && 0 <= j < COL_COUNT implies match #[trigger] grid_cell(
        grid,
        i,
        j,
    ) {
        Some(text) => is_hex_text(text),
        None => true,
    } by {
        assert(grid_cell(grid, i, j) == encoded_cell(data, i, j));
        let k = i * COL_COUNT + j;
        if 0 <= k < data.len() {
            lemma_hex_round_trip(data[k]);
        }
    }
    if grid.len() > 0 {
        let last = grid.len() - 1;
        assert(grid_cell(grid, last, 0) is Some);
        assert forall|j: int, later: int|
            0 <= j <= later < COL_COUNT && #[trigger] grid_cell(grid, last, later)
                is Some implies #[trigger] grid_cell(grid, last, j) is Some by {
            assert(grid_cell(grid, last, later) is Some <==> last * COL_COUNT + later
                < data.len());
            assert(grid_cell(grid, last, j) is Some <==> last * COL_COUNT + j < data.len());
        }
    }
}

/// A row with no byte in it.
fn empty_row() -> (row: HexRow)
    ensures
        forall|j: int| 0 <= j < COL_COUNT ==> row@[j] is None,
{
    [
        None,
        None,
        None,
        None,
        None,
        None,
        None,
        None,
        None,
        None,
        None,
        None,
        None,
        None,
        None,
        None,
    ]
}

/// Lays the bytes of a file out as a hex grid: `COL_COUNT` cells to a row, in
/// reading order, each byte as two uppercase hexadecimal digits. A last row
/// that the bytes do not fill ends in absent cells.
pub fn load_data_file_hex(data: &[u8]) -> (grid: Vec<HexRow>)
    ensures
        encodes(grid@, data@),
        grid@.len() == row_count(data@.len()),
        forall|i: int| 0 <= i < grid@.len() - 1 ==> row_is_full(grid@, i),
        well_formed(grid@),
{
    let mut chunks: Vec<HexRow> = Vec::with_capacity(data.len() / COL_COUNT + 1);
    let mut row: HexRow = empty_row();
    let mut col: usize = 0;
    let mut k: usize = 0;
    while k < data.len()
        invariant
            k <= data@.len(),
            col < COL_COUNT,
            col == k % COL_COUNT,
            chunks@.len() == k / COL_COUNT,
            forall|i: int, j: int|
                0 <= i < chunks@.len() && 0 <= j < COL_COUNT ==> #[trigger] grid_cell(
                    chunks@,
                    i,
                    j,
                ) == encoded_cell(data@, i, j),
            forall|j: int|
                0 <= j < col ==> cell_text(#[trigger] row@[j]) == encoded_cell(
                    data@,
                    chunks@.len() as int,
                    j,
                ),
            forall|j: int| col <= j < COL_COUNT ==> #[trigger] row@[j] is None,
        decreases data@.len() - k,
    {
        let ghost before = row;
        let ghost done = chunks@;
        row[col] = Some(byte_to_hex(data[k]));
        assert(cell_text(row@[col as int]) == encoded_cell(data@, chunks@.len() as int, col as int));
        assert forall|j: int| 0 <= j < col + 1 implies cell_text(#[trigger] row@[j])
            == encoded_cell(data@, chunks@.len() as int, j) by {
            if j < col {
                assert(row@[j] == before@[j]);
            }
        }
        col += 1;
        k += 1;
        if col == COL_COUNT {
            chunks.push(row);
            row = empty_row();
            col = 0;
            assert forall|i: int, j: int|
                0 <= i < chunks@.len() && 0 <= j < COL_COUNT implies #[trigger] grid_cell(
                chunks@,
                i,
                j,
            ) == encoded_cell(data@, i, j) by {
                if i < done.len() {
                    assert(grid_cell(chunks@, i, j) == grid_cell(done, i, j));
                }
            }
        }
    }
    if col > 0 {
        let ghost done = chunks@;
        chunks.push(row);
        assert forall|i: int, j: int|
            0 <= i < chunks@.len() && 0 <= j < COL_COUNT implies #[trigger] grid_cell(
            chunks@,
            i,
            j,
        ) == encoded_cell(data@, i, j) by {
            if i < done.len() {
                assert(grid_cell(chunks@, i, j) == grid_cell(done, i, j));
            }
        }
    }
    proof {
        lemma_encoded_shape(chunks@, data@);
        lemma_encoded_well_formed(chunks@, data@);
    }
    chunks
}

/// Where two buffers both have a byte, their grids agree in that cell exactly
/// when the bytes are equal; a cell that only one grid fills differs.
pub proof fn lemma_encoded_cells_compare(a: Seq<u8>, b: Seq<u8>, i: int, j: int)
    requires
        0 <= i,
        0 <= j < COL_COUNT,
    ensures
        (encoded_cell(a, i, j) == encoded_cell(b, i, j)) <==> ({
            let k = i * COL_COUNT + j;
            if k < a.len() && k < b.len() {
                a[k] == b[k]
            } else {
                k >= a.len() && k >= b.len()
            }
        }),
{
    let k = i * COL_COUNT + j;
    if k < a.len() && k < b.len() {
        lemma_hex_pair_injective(a[k], b[k]);
    }
}

} // verus!
