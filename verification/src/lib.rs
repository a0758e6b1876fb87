//! Control core of a Launchpad Pro application: the wraparound grid
//! coordinates, the Game of Life engine that runs on the grid, and the
//! application state machine that serializes timer ticks and pad presses.

pub mod application;
pub mod hal;
pub mod life;
pub mod shared;
