//! Display names of users.

pub mod get;
pub mod update;
