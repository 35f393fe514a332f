//! Cells of the wrapping grid, the four directions of travel, and the arithmetic between them.

use vstd::prelude::*;
use vstd::std_specs::cmp::PartialEqSpecImpl;

verus! {

/// Number of cells along each side of the square grid.
pub const GRID_SIZE: i16 = 40;

/// Side of one grid cell on screen, in pixels.
pub const TILE_SIZE: i16 = 15;

/// Side of the window that shows the whole grid, in pixels.
pub const WINDOW_SIZE: i16 = GRID_SIZE * TILE_SIZE;

/// One axis value after at most one grid length is added to it or taken from it:
/// values below zero move up by `GRID_SIZE`, values from `GRID_SIZE` on move down by it.
pub open spec fn wrap_once(v: int) -> int {
    if v < 0 {
        v + GRID_SIZE
    } else if v >= GRID_SIZE {
        v - GRID_SIZE
    } else {
        v
    }
}

/// Whether `v` lies at most one grid length outside `[0, GRID_SIZE)`.
pub open spec fn within_one_wrap(v: int) -> bool {
    -GRID_SIZE <= v < 2 * GRID_SIZE
}

/// Wrapping once is reduction modulo `GRID_SIZE` for every value that lies at most one
/// grid length outside the grid.
pub proof fn lemma_wrap_once_is_modulo(v: int)
    requires
        within_one_wrap(v),
    ensures
        wrap_once(v) == v % (GRID_SIZE as int),
        0 <= wrap_once(v) < GRID_SIZE,
{
}

/// A point of the grid, or a displacement between two points.
///
/// A value is a cell of the grid when `in_grid` holds of it.
#[derive(Copy, Clone, Debug)]
pub struct Coords {
    pub x: i16,
    pub y: i16,
}

impl PartialEq for Coords {
    fn eq(&self, other: &Coords) -> (r: bool) {
        self.x == other.x && self.y == other.y
    }
}

impl PartialEqSpecImpl for Coords {
    open spec fn obeys_eq_spec() -> bool {
        true
    }

    open spec fn eq_spec(&self, other: &Coords) -> bool {
        self.x == other.x && self.y == other.y
    }
}

/// The four ways the head can travel. `Right` and `Up` increase `x` and `y`.
#[derive(Copy, Clone, Debug, PartialEq, Eq, Structural)]
pub enum Direction {
    Up,
    Down,
    Left,
    Right,
}

impl Direction {
    /// Change of `x` over one step.
    pub open spec fn dx(self) -> int {
        match self {
            Direction::Left => -1,
            Direction::Right => 1,
            _ => 0,
        }
    }

    /// Change of `y` over one step.
    pub open spec fn dy(self) -> int {
        match self {
            Direction::Down => -1,
            Direction::Up => 1,
            _ => 0,
        }
    }

    /// The unit vector of this direction.
    pub fn delta(self) -> (v: Coords)
        ensures
            v.x == self.dx(),
            v.y == self.dy(),
    {
        match self {
            Direction::Up => Coords { x: 0, y: 1 },
            Direction::Down => Coords { x: 0, y: -1 },
            Direction::Left => Coords { x: -1, y: 0 },
            Direction::Right => Coords { x: 1, y: 0 },
        }
    }
}

/// A rectangle of pixels: its top left corner, width and height.
#[derive(Copy, Clone, Debug, PartialEq, Eq, Structural)]
pub struct Rect {
    pub x: i16,
    pub y: i16,
    pub w: u16,
    pub h: u16,
}

impl Coords {
    /// Whether both components lie in `[0, GRID_SIZE)`.
    pub open spec fn in_grid(self) -> bool {
        0 <= self.x < GRID_SIZE && 0 <= self.y < GRID_SIZE
    }

    /// Tests `in_grid`.
    pub fn is_in_grid(&self) -> (r: bool)
        ensures
            r == self.in_grid(),
    {
        0 <= self.x && self.x < GRID_SIZE && 0 <= self.y && self.y < GRID_SIZE
    }

    /// The cell reached from `self` by one step in direction `d`, leaving the grid on one
    /// side and entering it on the opposite one.
    pub open spec fn stepped(self, d: Direction) -> Coords {
        Coords {
            x: ((self.x + d.dx()) % (GRID_SIZE as int)) as i16,
            y: ((self.y + d.dy()) % (GRID_SIZE as int)) as i16,
        }
    }

    /// Wraps each component of `c` once and hands `c` back. A point whose components lie
    /// at most one grid length outside the grid ends up on a cell of the grid.
    pub fn clamp(c: &mut Coords) -> (r: &Coords)
        ensures
            final(c).x == wrap_once(old(c).x as int),
            final(c).y == wrap_once(old(c).y as int),
            within_one_wrap(old(c).x as int) && within_one_wrap(old(c).y as int)
                ==> final(c).in_grid(),
            *r == *final(c),
    {
        if c.x < 0 {
            c.x = GRID_SIZE + c.x;
        }
        if c.x >= GRID_SIZE {
            c.x = c.x - GRID_SIZE;
        }
        if c.y < 0 {
            c.y = GRID_SIZE + c.y;
        }
        if c.y >= GRID_SIZE {
            c.y = c.y - GRID_SIZE;
        }
        c
    }

    /// One step from a cell of the grid in direction `d`, wrapping at the edges.
    pub fn add(self, d: Direction) -> (r: Coords)
        requires
            self.in_grid(),
        ensures
            r == self.stepped(d),
            r.in_grid(),
    {
        let v = d.delta();
        let mut out = Coords { x: self.x + v.x, y: self.y + v.y };
        Coords::clamp(&mut out);
        out
    }

    /// The square of `TILE_SIZE` pixels that shows this cell in the window, whose columns
    /// and rows are counted from its top left corner. The pixel positions have to fit in
    /// `i16`, as they do for every cell of the grid.
    pub fn as_sdl_rect(&self) -> (r: Rect)
        requires
            i16::MIN <= self.x * TILE_SIZE <= i16::MAX,
            i16::MIN <= self.y * TILE_SIZE <= i16::MAX,
        ensures
            r.x == self.x * TILE_SIZE,
            r.y == self.y * TILE_SIZE,
            r.w == TILE_SIZE,
            r.h == TILE_SIZE,
    {
        Rect {
            x: self.x * TILE_SIZE,
            y: self.y * TILE_SIZE,
            h: TILE_SIZE as u16,
            w: TILE_SIZE as u16,
        }
    }
}

/// Whether every element of `s` is a cell of the grid.
pub open spec fn all_in_grid(s: Seq<Coords>) -> bool {
    forall|i: int| 0 <= i < s.len() ==> (#[trigger] s[i]).in_grid()
}

} // verus!
