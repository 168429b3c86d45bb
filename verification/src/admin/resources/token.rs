//! Tokens and secrets of the Synapse admin API.

pub mod shared_secret;
