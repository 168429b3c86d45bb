//! The room directory.

pub mod room;
