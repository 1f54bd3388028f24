//! The simulation core of a grid-based snake game: a board, a snake that
//! moves one cell per tick, food that never appears on the snake, and the
//! rules that end a session. Every function here is verified against its
//! contract; drawing and input polling live with the caller.

pub mod clock;
pub mod grid;
pub mod model;
pub mod occupancy;
pub mod rng;
pub mod theorems;
pub mod wellformed;
pub mod world;

pub use clock::{Clock, Ticks, FOOD_INTERVAL_NANOS, MOVE_INTERVAL_NANOS};
pub use grid::{Direction, Grid, Position};
pub use model::{EndReason, KeysDown, Status};
pub use world::World;
