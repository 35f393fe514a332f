//! Counting the cells of the grid: which cells a sequence of cells leaves free, and how
//! many cells a sequence without repetition can hold.

use crate::coords::{all_in_grid, Coords, GRID_SIZE};
use vstd::prelude::*;
use vstd::seq_lib::seq_to_set_is_finite;
use vstd::set_lib::{lemma_int_range, lemma_len_subset, set_int_range};

verus! {

/// Number of cells of the grid.
pub const GRID_CELLS: usize = 1600;

/// Position of a cell when the grid is read row by row, starting at `(0, 0)`.
pub open spec fn cell_index(c: Coords) -> int {
    c.y * GRID_SIZE + c.x
}

/// The cell at position `i` when the grid is read row by row.
pub open spec fn grid_cell(i: int) -> Coords {
    Coords { x: (i % (GRID_SIZE as int)) as i16, y: (i / (GRID_SIZE as int)) as i16 }
}

/// All cells of the grid, row by row.
pub open spec fn grid_cells() -> Seq<Coords> {
    Seq::new(GRID_CELLS as nat, |i: int| grid_cell(i))
}

/// The test that a cell is none of `occupied`.
pub open spec fn is_free(occupied: Seq<Coords>) -> spec_fn(Coords) -> bool {
    |c: Coords| !occupied.contains(c)
}

/// The cells of the grid that `occupied` leaves free, row by row.
pub open spec fn free_cells_of(occupied: Seq<Coords>) -> Seq<Coords> {
    grid_cells().filter(is_free(occupied))
}

/// Whether every cell of the grid occurs in `occupied`.
pub open spec fn covers_grid(occupied: Seq<Coords>) -> bool {
    forall|c: Coords| c.in_grid() ==> occupied.contains(c)
}

/// Reading the grid row by row numbers its cells from 0 to `GRID_CELLS - 1`, each once.
pub proof fn lemma_cell_index_bijective()
    ensures
        GRID_CELLS == GRID_SIZE * GRID_SIZE,
        forall|c: Coords|
            #![trigger cell_index(c)]
            c.in_grid() ==> 0 <= cell_index(c) < GRID_CELLS && grid_cell(cell_index(c)) == c,
        forall|i: int|
            #![trigger grid_cell(i)]
            0 <= i < GRID_CELLS ==> grid_cell(i).in_grid() && cell_index(grid_cell(i)) == i,
{
}

/// A cell is among the free cells exactly when it lies in the grid and is not occupied.
pub proof fn lemma_free_cells_of(occupied: Seq<Coords>, c: Coords)
    ensures
        free_cells_of(occupied).contains(c) <==> c.in_grid() && !occupied.contains(c),
{
    broadcast use vstd::seq_lib::group_filter_ensures;

    lemma_cell_index_bijective();
    let all = grid_cells();
    let free = free_cells_of(occupied);
    if free.contains(c) {
        all.lemma_filter_contains_rev(is_free(occupied), c);
        let i: int = choose|i: int| 0 <= i < free.len() && free[i] == c;
        assert(is_free(occupied)(free[i]));
    }
    if c.in_grid() && !occupied.contains(c) {
        let i: int = cell_index(c);
        assert(all[i] == c);
        assert(is_free(occupied)(all[i]));
    }
}

/// No cell is free exactly when the occupied cells cover the grid.
pub proof fn lemma_no_free_cell(occupied: Seq<Coords>)
    ensures
        free_cells_of(occupied).len() == 0 <==> covers_grid(occupied),
        free_cells_of(occupied).len() <= GRID_CELLS,
{
    let free = free_cells_of(occupied);
    grid_cells().lemma_filter_len(is_free(occupied));
    if free.len() == 0 {
        assert forall|c: Coords| c.in_grid() implies occupied.contains(c) by {
            lemma_free_cells_of(occupied, c);
        }
    } else {
        lemma_free_cells_of(occupied, free[0]);
        assert(free.contains(free[0]));
    }
}

/// No more cells than the grid has can differ pairwise.
pub proof fn lemma_distinct_cells_fit_grid(cells: Seq<Coords>)
    requires
        all_in_grid(cells),
        cells.no_duplicates(),
    ensures
        cells.len() <= GRID_CELLS,
{
    lemma_cell_index_bijective();
    let idx = Seq::new(cells.len(), |i: int| cell_index(cells[i]));
    let range = set_int_range(0, GRID_CELLS as int);
    assert forall|i: int, j: int| 0 <= i < idx.len() && 0 <= j < idx.len() && i != j implies idx[i]
        != idx[j] by {
        assert(grid_cell(cell_index(cells[i])) == cells[i]);
        assert(grid_cell(cell_index(cells[j])) == cells[j]);
    }
    idx.unique_seq_to_set();
    assert forall|k: int| idx.to_set().contains(k) implies range.contains(k) by {
        let i: int = choose|i: int| 0 <= i < idx.len() && idx[i] == k;
        assert(cells[i].in_grid());
    }
    lemma_int_range(0, GRID_CELLS as int);
    lemma_len_subset(idx.to_set(), range);
}

/// Cells that cover the whole grid are at least as many as the grid has.
pub proof fn lemma_cover_needs_every_cell(cells: Seq<Coords>)
    requires
        covers_grid(cells),
    ensures
        cells.len() >= GRID_CELLS,
{
    lemma_cell_index_bijective();
    let idx = Seq::new(cells.len(), |i: int| cell_index(cells[i]));
    let range = set_int_range(0, GRID_CELLS as int);
    assert forall|k: int| range.contains(k) implies idx.to_set().contains(k) by {
        let c = grid_cell(k);
        assert(cells.contains(c));
        let i: int = choose|i: int| 0 <= i < cells.len() && cells[i] == c;
        assert(idx[i] == k);
    }
    seq_to_set_is_finite(idx);
    lemma_int_range(0, GRID_CELLS as int);
    lemma_len_subset(range, idx.to_set());
    idx.lemma_cardinality_of_set();
}

} // verus!
