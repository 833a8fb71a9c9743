//! What a route reads from an incoming request.

use vstd::prelude::*;
use crate::credentials::Credentials;

verus! {

/// The parts of an HTTP request that the guards of this service look at.
#[derive(Debug)]
pub struct Request {
    /// The username and password that HTTP Basic authentication carried in
    /// the `Authorization` header; `None` where the header is absent,
    /// repeated or not a well-formed Basic credential.
    pub credentials: Option<Credentials>,
    /// The value of the `Host` header, where the request has one.
    pub host: Option<String>,
}

/// The mathematical content of a [`Request`].
pub struct RequestView {
    pub credentials: Option<(Seq<char>, Seq<char>)>,
    pub host: Option<Seq<char>>,
}

impl View for Request {
    type V = RequestView;

    open spec fn view(&self) -> RequestView {
        RequestView {
            credentials: match self.credentials {
                Some(supplied) => Some(supplied@),
                None => None,
            },
            host: match self.host {
                Some(host) => Some(host@),
                None => None,
            },
        }
    }
}

impl Request {
    pub fn new(credentials: Option<Credentials>, host: Option<String>) -> (request: Request)
        ensures
            request.credentials == credentials,
            request.host == host,
    {
        Request { credentials, host }
    }
}

} // verus!
