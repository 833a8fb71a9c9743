//! The address under which a client reached the service.

use vstd::prelude::*;
use crate::request::Request;

verus! {

/// The site address of one request: the value of its `Host` header.
/// It is used to compose the link that an upload is answered with and is
/// never stored.
#[derive(Debug)]
pub struct SiteURL(pub String);

/// Why no site address could be had from a request.
#[derive(Debug, Clone, Copy, PartialEq, Eq, Structural)]
pub enum ApiTokenError {
    /// The request has no `Host` header.
    Missing,
}

impl View for SiteURL {
    type V = Seq<char>;

    open spec fn view(&self) -> Seq<char> {
        self.0@
    }
}

impl SiteURL {
    /// Takes the site address from the request's `Host` header, and fails
    /// exactly when the request has none.
    pub fn from_request(request: &Request) -> (outcome: Result<SiteURL, ApiTokenError>)
        ensures
            match request@.host {
                Some(host) => outcome matches Ok(site_url) && site_url@ == host,
                None => outcome == Err::<SiteURL, ApiTokenError>(ApiTokenError::Missing),
            },
    {
        match &request.host {
            Some(host) => Ok(SiteURL(host.clone())),
            None => Err(ApiTokenError::Missing),
        }
    }
}

} // verus!
