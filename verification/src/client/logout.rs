//! Logging out.

pub mod root;
