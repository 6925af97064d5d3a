pub mod board_utils;
pub mod grid;
pub mod laws;
pub mod pieces;
pub mod session;
