//! Conway's Game of Life on a fixed-size rectangular grid with clamped edges.
//!
//! A population is an `H`×`W` array of booleans; its mathematical model is a
//! sequence of rows, each a sequence of cells. Two engines advance a
//! population by one generation per call: [`ConwayBoard`] computes into a
//! scratch copy, [`ConwayBoardDoubleBuf`] alternates between two buffers.
pub mod population;
pub mod engine;
pub mod board;
pub mod render;
pub mod pattern;
pub mod laws;

pub use board::{ConwayBoard, ConwayBoardDoubleBuf};
