//! The snake's body: a sequence of cells with the head in front.

use crate::coords::{all_in_grid, Coords, Direction};
use std::collections::VecDeque;
use vstd::prelude::*;

verus! {

/// Fewest cells a body can have, and the number that a fresh game starts with.
pub const MIN_LENGTH: usize = 3;

/// Why a sequence of cells cannot serve as a body.
#[derive(Copy, Clone, Debug, PartialEq, Eq, Structural)]
pub enum BodyError {
    /// Fewer than `MIN_LENGTH` cells.
    TooShort,
    /// Some cell lies outside the grid.
    OutOfGrid,
}

/// The cells the snake covers, from the head (in front) to the tail (at the back).
pub struct Body {
    cells: VecDeque<Coords>,
}

impl View for Body {
    type V = Seq<Coords>;

    closed spec fn view(&self) -> Seq<Coords> {
        self.cells@
    }
}

/// Three cells in a straight line that ends at `tail` and points in direction `d`.
pub open spec fn seed_cells(tail: Coords, d: Direction) -> Seq<Coords> {
    seq![tail.stepped(d).stepped(d), tail.stepped(d), tail]
}

impl Body {
    /// What holds of every body: it has at least `MIN_LENGTH` cells, all of them in the grid.
    pub open spec fn wf(&self) -> bool {
        &&& self@.len() >= MIN_LENGTH
        &&& all_in_grid(self@)
    }

    /// The body made of `cells`, head first.
    pub fn from_cells(cells: Vec<Coords>) -> (r: Result<Body, BodyError>)
        ensures
            match r {
                Ok(b) => b@ == cells@ && b.wf(),
                Err(BodyError::TooShort) => cells@.len() < MIN_LENGTH,
                Err(BodyError::OutOfGrid) => cells@.len() >= MIN_LENGTH && !all_in_grid(cells@),
            },
    {
        if cells.len() < MIN_LENGTH {
            return Err(BodyError::TooShort);
        }
        let mut deque: VecDeque<Coords> = VecDeque::new();
        let mut i: usize = 0;
        while i < cells.len()
            invariant
                MIN_LENGTH <= cells.len(),
                i <= cells.len(),
                deque@ == cells@.take(i as int),
                all_in_grid(deque@),
            decreases cells.len() - i,
        {
            let c = cells[i];
            if !c.is_in_grid() {
                assert(!cells@[i as int].in_grid());
                return Err(BodyError::OutOfGrid);
            }
            deque.push_back(c);
            assert(deque@ =~= cells@.take(i + 1));
            i = i + 1;
        }
        assert(cells@.take(cells.len() as int) =~= cells@);
        Ok(Body { cells: deque })
    }

    /// The body of `MIN_LENGTH` cells in a straight line that ends at `tail` and points in
    /// direction `d`.
    pub fn seed(tail: Coords, d: Direction) -> (b: Body)
        requires
            tail.in_grid(),
        ensures
            b@ == seed_cells(tail, d),
            b.wf(),
            b@.no_duplicates(),
    {
        let neck = tail.add(d);
        let head = neck.add(d);
        let mut cells: VecDeque<Coords> = VecDeque::new();
        cells.push_front(tail);
        cells.push_front(neck);
        cells.push_front(head);
        assert(cells@ =~= seq![head, neck, tail]);
        Body { cells }
    }

    /// Number of cells.
    pub fn length(&self) -> (n: usize)
        ensures
            n == self@.len(),
    {
        self.cells.len()
    }

    /// The cell in front.
    pub fn head(&self) -> (c: Coords)
        requires
            self.wf(),
        ensures
            c == self@[0],
    {
        self.cells[0]
    }

    /// The cell at place `i`, counted from the head.
    pub fn cell(&self, i: usize) -> (c: Coords)
        requires
            i < self@.len(),
        ensures
            c == self@[i as int],
    {
        self.cells[i]
    }

    /// The cells from head to tail.
    pub fn cells(&self) -> (v: Vec<Coords>)
        ensures
            v@ == self@,
    {
        let mut v: Vec<Coords> = Vec::new();
        let mut i: usize = 0;
        while i < self.cells.len()
            invariant
                i <= self.cells.len(),
                v@ == self@.take(i as int),
            decreases self.cells.len() - i,
        {
            v.push(self.cells[i]);
            assert(v@ =~= self@.take(i + 1));
            i = i + 1;
        }
        assert(self@.take(self@.len() as int) =~= self@);
        v
    }

    /// Whether some cell occurs twice in the body.
    pub fn overlaps(&self) -> (twice: bool)
        ensures
            twice == !self@.no_duplicates(),
    {
        let n: usize = self.cells.len();
        let mut i: usize = 0;
        while i < n
            invariant
                n == self@.len(),
                i <= n,
                forall|a: int, b: int| 0 <= a < i && a < b < n ==> self@[a] != self@[b],
            decreases n - i,
        {
            let mut j: usize = i + 1;
            while j < n
                invariant
                    n == self@.len(),
                    i < j <= n,
                    forall|b: int| i < b < j ==> self@[i as int] != self@[b],
                decreases n - j,
            {
                if self.cells[i] == self.cells[j] {
                    return true;
                }
                j = j + 1;
            }
            i = i + 1;
        }
        assert forall|a: int, b: int| 0 <= a < n && 0 <= b < n && a != b implies self@[a]
            != self@[b] by {
            if a < b {
            } else {
                assert(self@[b] != self@[a]);
            }
        }
        false
    }

    /// Whether some cell of the body equals `c`.
    pub fn contains(&self, c: Coords) -> (found: bool)
        ensures
            found == self@.contains(c),
    {
        let mut i: usize = 0;
        while i < self.cells.len()
            invariant
                i <= self.cells.len(),
                forall|j: int| 0 <= j < i ==> self@[j] != c,
            decreases self.cells.len() - i,
        {
            if self.cells[i] == c {
                return true;
            }
            i = i + 1;
        }
        false
    }

    /// Moves the head one step in direction `head_delta`. The tail stays where it is when
    /// `grow` is set, and leaves its cell otherwise.
    pub fn advance(&mut self, head_delta: Direction, grow: bool)
        requires
            old(self).wf(),
        ensures
            final(self).wf(),
            final(self)@ == (if grow {
                seq![old(self)@[0].stepped(head_delta)] + old(self)@
            } else {
                seq![old(self)@[0].stepped(head_delta)] + old(self)@.drop_last()
            }),
            final(self)@[0] == old(self)@[0].stepped(head_delta),
            !grow ==> final(self)@.len() == old(self)@.len(),
            grow ==> final(self)@.len() == old(self)@.len() + 1,
            grow ==> final(self)@.last() == old(self)@.last(),
    {
        let new_head = self.cells[0].add(head_delta);
        self.cells.push_front(new_head);
        if !grow {
            self.cells.pop_back();
            assert(self.cells@ =~= seq![new_head] + old(self)@.drop_last());
        }
    }
}

} // verus!
