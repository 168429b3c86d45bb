//! Sessions.

pub mod get_flows;
pub mod register;
pub mod username_available;
pub mod whoami;
