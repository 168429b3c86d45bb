//! Resources of the Synapse admin API.

pub mod room;
pub mod token;
pub mod user;
