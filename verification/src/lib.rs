//! A verified simulation core for Conway's Game of Life generalized to three
//! dimensions over a fixed cuboid lattice, using the survival/birth thresholds
//! of Carter Bays's 5766 rule.
//!
//! The lattice stores one binary cell per integer coordinate inside an
//! axis-aligned box; the transition engine advances every cell by one
//! generation at a time, counting live cells among the 26 neighbors of each
//! coordinate against the state the lattice had when the generation began.

pub mod engine;
pub mod lattice;
pub mod rng;

pub use engine::GameOfLife;

pub use lattice::Cell;
pub use lattice::CellState;
pub use lattice::Grid;
pub use lattice::LatticeError;
pub use lattice::Position;
