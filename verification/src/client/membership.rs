//! Joining and leaving rooms.

pub mod join;
pub mod leave;
