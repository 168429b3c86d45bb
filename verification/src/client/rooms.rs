//! Room state.

pub mod state;
