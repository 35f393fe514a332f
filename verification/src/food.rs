//! Placing food on a cell that the snake does not cover.

use crate::body::Body;
use crate::coords::{Coords, GRID_SIZE};
use crate::occupancy::{
    covers_grid, free_cells_of, grid_cell, grid_cells, is_free, lemma_free_cells_of,
    lemma_no_free_cell,
};
use crate::rng::gen_range_i16;
use rand::StdRng;
use vstd::prelude::*;

verus! {

/// The cells of the grid that `occupied` does not cover, row by row.
pub fn free_cells(occupied: &Body) -> (free: Vec<Coords>)
    ensures
        free@ == free_cells_of(occupied@),
{
    let mut free: Vec<Coords> = Vec::new();
    let ghost all = grid_cells();
    let ghost pred = is_free(occupied@);
    let mut y: i16 = 0;
    assert(all.take(0).filter(pred) =~= Seq::<Coords>::empty()) by {
        reveal(Seq::filter);
    }
    while y < GRID_SIZE
        invariant
            0 <= y <= GRID_SIZE,
            all == grid_cells(),
            pred == is_free(occupied@),
            free@ == all.take(y * GRID_SIZE).filter(pred),
        decreases GRID_SIZE - y,
    {
        let mut x: i16 = 0;
        while x < GRID_SIZE
            invariant
                0 <= y < GRID_SIZE,
                0 <= x <= GRID_SIZE,
                all == grid_cells(),
                pred == is_free(occupied@),
                free@ == all.take(y * GRID_SIZE + x).filter(pred),
            decreases GRID_SIZE - x,
        {
            let c = Coords { x, y };
            let ghost k: int = y * GRID_SIZE + x;
            proof {
                assert(all[k] == grid_cell(k));
                assert(grid_cell(k) == c);
                assert(all.take(k + 1) =~= all.take(k).push(c));
                all.take(k).lemma_filter_push(c, pred);
            }
            if !occupied.contains(c) {
                free.push(c);
            }
            x = x + 1;
        }
        y = y + 1;
    }
    assert(all.take(GRID_SIZE * GRID_SIZE) =~= all);
    free
}

/// A cell for the next piece of food, drawn at random among the cells of the grid that
/// `occupied` leaves free. There is none when `occupied` covers the whole grid.
pub fn spawn(occupied: &Body, rng: &mut StdRng) -> (food: Option<Coords>)
    ensures
        food is None <==> covers_grid(occupied@),
        food matches Some(c) ==> c.in_grid() && !occupied@.contains(c),
{
    let free = free_cells(occupied);
    proof {
        lemma_no_free_cell(occupied@);
    }
    if free.len() == 0 {
        None
    } else {
        let k: i16 = gen_range_i16(rng, 0, free.len() as i16);
        let c = free[k as usize];
        proof {
            assert(free@.contains(c));
            lemma_free_cells_of(occupied@, c);
        }
        Some(c)
    }
}

} // verus!
