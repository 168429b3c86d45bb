//! Registration tokens.

pub mod validity;
