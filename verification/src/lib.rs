//! A finite, non-toroidal Game of Life engine: a rectangular grid of
//! binary cells, a pattern library, a compositor that places a pattern
//! into a grid, and a transition rule that advances the grid by one
//! generation.

pub mod compose;
pub mod engine;
pub mod grid;
pub mod laws;
pub mod pattern;
pub mod random;

pub use grid::Grid;
