//! Reading and setting the state of rooms.

pub mod create;
pub mod get_many;
