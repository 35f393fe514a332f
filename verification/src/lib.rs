//! The simulation core of a snake game played on a square grid whose edges wrap around.

pub mod body;
pub mod clock;
pub mod coords;
pub mod food;
pub mod game;
pub mod occupancy;
pub mod rng;

pub use body::{Body, BodyError, MIN_LENGTH};
pub use clock::{due, TICK_INTERVAL_MS};
pub use coords::{Coords, Direction, Rect, GRID_SIZE, TILE_SIZE, WINDOW_SIZE};
pub use food::{free_cells, spawn};
pub use game::{Input, Session, SetupError, State, INITIAL_DIRECTION};
pub use occupancy::GRID_CELLS;
