//! The state behind what the switchboard shows.

pub mod boards;
pub mod topbar;
