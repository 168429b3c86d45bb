//! Client-side building blocks for talking to a Matrix homeserver and its
//! Synapse admin API: error codes, request bodies, endpoint paths and the
//! shared-secret registration MAC.

pub mod admin;
pub mod client;
pub mod endpoint;
pub mod error;
pub mod event_filter;
pub mod filter;
pub mod http;
pub mod json;
pub mod text;
