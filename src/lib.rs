//! Cell state, picking and visual bookkeeping for a three-dimensional
//! mine-sweeping grid.
pub mod block;
pub mod board;
pub mod grid;
pub mod pick;
pub mod visual;
