//! One module for each board.

pub mod status;
pub mod welcome;
