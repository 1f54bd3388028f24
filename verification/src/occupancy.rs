//! How many distinct cells a grid can hold: a list of distinct cells is
//! never longer than the grid has cells, and it covers the grid exactly when
//! it has that length.

use crate::grid::{Grid, Position};
use vstd::arithmetic::div_mod::{
    lemma_div_pos_is_pos, lemma_fundamental_div_mod, lemma_mod_bound, lemma_multiply_divide_lt,
};
use vstd::prelude::*;
use vstd::seq_lib::seq_to_set_is_finite;
use vstd::set_lib::{lemma_int_range, lemma_len_subset, lemma_subset_equality, set_int_range};

verus! {

/// Every cell of the list lies in the grid, and no cell occurs twice.
pub open spec fn distinct_cells(grid: Grid, cells: Seq<Position>) -> bool {
    &&& forall|i: int| 0 <= i < cells.len() ==> grid.contains(#[trigger] cells[i])
    &&& cells.no_duplicates()
}

/// The number of a cell when the grid is counted row by row.
pub open spec fn cell_index(grid: Grid, p: Position) -> int {
    p.row * grid.cols + p.col
}

/// The cell that has the number `k` when the grid is counted row by row.
pub open spec fn cell_at(grid: Grid, k: int) -> Position {
    Position { row: (k / (grid.cols as int)) as u16, col: (k % (grid.cols as int)) as u16 }
}

/// Counting row by row gives every cell of the grid a number below
/// `rows * cols`, and different cells different numbers.
pub proof fn lemma_cell_index(grid: Grid, p: Position, q: Position)
    requires
        grid.contains(p),
        grid.contains(q),
    ensures
        0 <= cell_index(grid, p) < grid.cells(),
        cell_index(grid, p) == cell_index(grid, q) ==> p == q,
{
    let cols: int = grid.cols as int;
    let rows: int = grid.rows as int;
    let (pr, pc): (int, int) = (p.row as int, p.col as int);
    let (qr, qc): (int, int) = (q.row as int, q.col as int);
    assert(0 <= pr * cols && pr * cols + cols <= rows * cols) by (nonlinear_arith)
        requires
            0 <= pr < rows,
            0 < cols,
    ;
    assert(pr * cols + pc == qr * cols + qc ==> pr == qr) by (nonlinear_arith)
        requires
            0 <= pc < cols,
            0 <= qc < cols,
    ;
}

/// Every number below `rows * cols` is the number of a cell of the grid.
pub proof fn lemma_cell_at(grid: Grid, k: int)
    requires
        0 <= k < grid.cells(),
    ensures
        grid.contains(cell_at(grid, k)),
        cell_index(grid, cell_at(grid, k)) == k,
{
    let cols: int = grid.cols as int;
    let rows: int = grid.rows as int;
    assert(cols > 0 && rows > 0) by (nonlinear_arith)
        requires
            0 <= k < rows * cols,
            0 <= cols,
            0 <= rows,
    ;
    lemma_fundamental_div_mod(k, cols);
    lemma_mod_bound(k, cols);
    lemma_div_pos_is_pos(k, cols);
    assert(k < cols * rows) by (nonlinear_arith)
        requires
            k < rows * cols,
    ;
    lemma_multiply_divide_lt(k, cols, rows);
    assert((k / cols) * cols == cols * (k / cols)) by (nonlinear_arith);
}

/// A list of distinct cells of a grid has at most `rows * cols` entries.
/// With exactly that many it holds every cell of the grid; with fewer, some
/// cell of the grid is missing from it.
pub proof fn lemma_distinct_cells_fit(grid: Grid, cells: Seq<Position>)
    requires
        distinct_cells(grid, cells),
    ensures
        cells.len() <= grid.cells(),
        cells.len() == grid.cells() ==> forall|p: Position|
            grid.contains(p) ==> cells.contains(p),
        cells.len() < grid.cells() ==> exists|p: Position|
            grid.contains(p) && !cells.contains(p),
{
    let total: int = grid.cells() as int;
    let numbers: Seq<int> = cells.map_values(|p: Position| cell_index(grid, p));
    let all: Set<int> = set_int_range(0, total);

    assert forall|i: int, j: int|
        0 <= i < numbers.len() && 0 <= j < numbers.len() && i != j implies numbers[i]
        != numbers[j] by {
        lemma_cell_index(grid, cells[i], cells[j]);
    }
    numbers.unique_seq_to_set();
    seq_to_set_is_finite(numbers);
    lemma_int_range(0, total);

    assert forall|k: int| numbers.to_set().contains(k) implies all.contains(k) by {
        let i: int = choose|i: int| 0 <= i < numbers.len() && numbers[i] == k;
        lemma_cell_index(grid, cells[i], cells[i]);
    }
    lemma_len_subset(numbers.to_set(), all);

    if cells.len() == total {
        lemma_subset_equality(numbers.to_set(), all);
        assert forall|p: Position| grid.contains(p) implies cells.contains(p) by {
            lemma_cell_index(grid, p, p);
            assert(all.contains(cell_index(grid, p)));
            assert(numbers.contains(cell_index(grid, p)));
            let i: int = choose|i: int|
                0 <= i < numbers.len() && numbers[i] == cell_index(grid, p);
            lemma_cell_index(grid, cells[i], p);
            assert(cells[i] == p);
        }
    }
    if cells.len() < total {
        if forall|p: Position| grid.contains(p) ==> cells.contains(p) {
            assert forall|k: int| all.contains(k) implies numbers.to_set().contains(k) by {
                lemma_cell_at(grid, k);
                let p: Position = cell_at(grid, k);
                assert(cells.contains(p));
                let i: int = choose|i: int| 0 <= i < cells.len() && cells[i] == p;
                assert(numbers[i] == k);
            }
            lemma_len_subset(all, numbers.to_set());
            assert(false);
        }
    }
}

} // verus!
