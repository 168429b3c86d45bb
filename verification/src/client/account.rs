//! Account management.

pub mod password;
pub mod whoami;
