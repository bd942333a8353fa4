//! Conway's Game of Life on a fixed 50x50 edge-bounded grid.
//!
//! `grid` holds the cell matrix, `game` the generation-update rule and the
//! text renderer, `driver` the decisions of the bounded-rounds control loop.

pub mod driver;
pub mod game;
pub mod grid;
