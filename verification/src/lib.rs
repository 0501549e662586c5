//! A deterministic, tick-driven simulation engine for a classic snake game:
//! a self-extending body moving on a bounded grid, consuming randomly placed
//! food, and terminating on self-collision or boundary collision.

pub mod engine;
pub mod geometry;
pub mod pit;
pub mod snake;
