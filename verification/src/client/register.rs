//! Registering accounts.

pub mod available;
pub mod root;
pub mod token;
