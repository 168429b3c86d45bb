//! Registration tokens.

pub mod new;
