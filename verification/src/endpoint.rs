//! What describes an endpoint: its HTTP method, whether the server limits
//! its rate, how a caller authenticates, and its path. Path arguments are
//! written `:name` or `{name}`.

use vstd::prelude::*;

verus! {

/// An HTTP method.
#[derive(Debug, Clone, Copy, PartialEq, Eq, Structural)]
pub enum Method {
    Get,
    Post,
    Put,
    Delete,
}

/// How a caller authenticates to an endpoint.
#[derive(Debug, Clone, Copy, PartialEq, Eq, Structural)]
pub enum AuthScheme {
    /// No authentication.
    Unauthenticated,
    /// An access token.
    AccessToken,
}

/// The description of an endpoint.
#[derive(Debug)]
pub struct Metadata {
    pub method: Method,
    pub rate_limited: bool,
    pub authentication: AuthScheme,
    pub path: String,
}

impl Metadata {
    /// This is the description of an endpoint with these method, rate
    /// limiting, authentication and path.
    pub open spec fn describes(
        self,
        method: Method,
        rate_limited: bool,
        authentication: AuthScheme,
        path: Seq<char>,
    ) -> bool {
        &&& self.method == method
        &&& self.rate_limited == rate_limited
        &&& self.authentication == authentication
        &&& self.path@ == path
    }

    /// The description of an endpoint with these method, rate limiting,
    /// authentication and path.
    pub fn new(method: Method, rate_limited: bool, authentication: AuthScheme, path: &str) -> (m: Self)
        ensures
            m.describes(method, rate_limited, authentication, path@),
    {
        Metadata { method, rate_limited, authentication, path: path.to_owned() }
    }
}

} // verus!
