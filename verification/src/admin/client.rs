//! The session state of an admin API client: the homeserver's base URL and
//! the admin access token.

use vstd::prelude::*;
use vstd::string::*;

use crate::http::{
    authorization_for, authorization_header, header_result_view, parse_url, url_for_path,
    url_for_path_and_query, url_parse, url_set_path, url_set_query, url_size_limit, ClientError,
};

verus! {

/// A client of the Synapse admin API.
#[derive(Debug)]
pub struct Client {
    base_url: String,
    token: Option<String>,
}

impl Client {
    /// The base URL is the text of a URL.
    #[verifier::type_invariant]
    closed spec fn base_url_parses(&self) -> bool {
        url_parse(self.base_url@) == Some(self.base_url@)
    }

    /// The homeserver's base URL.
    pub closed spec fn spec_base_url(&self) -> Seq<char> {
        self.base_url@
    }

    /// The access token in use, if any.
    pub closed spec fn spec_token(&self) -> Option<Seq<char>> {
        match self.token {
            Some(t) => Some(t@),
            None => None,
        }
    }

    /// A client of the homeserver at `url`, without an access token; fails
    /// when `url` does not parse.
    pub fn new(url: &str) -> (r: Result<Self, ClientError>)
        ensures
            r is Ok <==> url_parse(url@) is Some,
            r is Err ==> r == Err::<Self, ClientError>(ClientError::InvalidUrl),
            r matches Ok(c) ==> Some(c.spec_base_url()) == url_parse(url@) && c.spec_token() is None,
    {
        match parse_url(url) {
            Some(base_url) => Ok(Self { base_url, token: None }),
            None => Err(ClientError::InvalidUrl),
        }
    }

    /// The homeserver's base URL.
    pub fn base_url(&self) -> (r: &str)
        ensures
            r@ == self.spec_base_url(),
    {
        self.base_url.as_str()
    }

    /// Sets the access token that authenticates requests. An empty token is
    /// refused, and clears the token in use.
    pub fn set_token(&mut self, token: String) -> (r: Result<(), ClientError>)
        ensures
            token@.len() == 0 ==> r == Err::<(), ClientError>(ClientError::EmptyToken)
                && final(self).spec_token() is None,
            token@.len() != 0 ==> r is Ok && final(self).spec_token() == Some(token@),
            final(self).spec_base_url() == old(self).spec_base_url(),
    {
        proof {
            use_type_invariant(&*self);
        }
        if token.as_str().is_empty() {
            self.token = None;
            return Err(ClientError::EmptyToken);
        }
        self.token = Some(token);
        Ok(())
    }

    /// The `Authorization` header value for the token in use: none without
    /// a token, `Bearer ` and the token otherwise, or an error when that is
    /// not a valid header value.
    pub fn build_headers(&self) -> (r: Result<Option<String>, ClientError>)
        ensures
            header_result_view(r) == authorization_for(self.spec_token()),
    {
        authorization_header(&self.token)
    }

    /// The URL of `path` on the homeserver: the base URL with its path
    /// replaced.
    pub fn build_url(&self, path: &str) -> (r: String)
        requires
            self.spec_base_url().len() + path@.len() < url_size_limit(),
        ensures
            r@ == url_set_path(self.spec_base_url(), path@),
    {
        proof {
            use_type_invariant(self);
        }
        url_for_path(&self.base_url, path)
    }

    /// The URL of `path` on the homeserver with the encoded query `params`.
    pub fn build_url_with_params(&self, path: &str, params: &str) -> (r: String)
        requires
            self.spec_base_url().len() + 12 * path@.len() + params@.len() + 3 < url_size_limit(),
        ensures
            r@ == url_set_query(url_set_path(self.spec_base_url(), path@), params@),
    {
        proof {
            use_type_invariant(self);
        }
        url_for_path_and_query(&self.base_url, path, params)
    }
}

} // verus!
