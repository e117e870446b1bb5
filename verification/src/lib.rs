//! Decision logic of Live Insertion and the strict command-line rules of Handy.

pub mod cli;
pub mod laws;
pub mod live_insertion;
pub mod text;
