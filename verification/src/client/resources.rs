//! Resources of the client-server API.

pub mod error;
pub mod events;
pub mod login;
pub mod mxc;
pub mod room;
pub mod session;
pub mod thirdparty;
