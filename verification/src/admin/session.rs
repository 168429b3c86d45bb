//! Shared-secret registration endpoints.

pub mod get_nonce;
pub mod register;
