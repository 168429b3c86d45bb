//! The error object of the client-server API.

use vstd::prelude::*;

verus! {

/// An error object: a code and a message.
#[derive(Debug)]
pub struct MatrixError {
    /// Sent as `errcode`.
    pub error_code: String,
    /// Sent as `error`.
    pub error: String,
}

} // verus!
