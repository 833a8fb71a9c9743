//! The authorization guard: every protected route runs it before anything else.

use vstd::prelude::*;
use crate::credentials::Credentials;
use crate::request::Request;

verus! {

/// Proof that a request carried the configured username and password.
///
/// Only [`Authenticated::from_request`] makes one, so a handler that takes an
/// `Authenticated` cannot run for a request that the guard turned away.
#[derive(Debug)]
pub struct Authenticated {
    granted: (),
}

/// Why the guard turned a request away.
#[derive(Debug, Clone, Copy, PartialEq, Eq, Structural)]
pub enum AuthError {
    /// The request carried no usable credentials, or not the configured ones.
    Failed,
}

impl AuthError {
    /// The text that explains the refusal to a client.
    pub fn message(&self) -> (text: &'static str)
        ensures
            text@ == "Auth check failed. Please perform HTTP basic auth with the correct password."@,
    {
        "Auth check failed. Please perform HTTP basic auth with the correct password."
    }
}

/// Whether the supplied credentials are exactly the configured ones: both the
/// username and the password must be equal, character for character.
/// A request without credentials is never authorized.
pub open spec fn authorized(
    supplied: Option<(Seq<char>, Seq<char>)>,
    secrets: (Seq<char>, Seq<char>),
) -> bool {
    supplied == Some(secrets)
}

impl Authenticated {
    /// Runs the guard on a request: success exactly when the request carries
    /// credentials and both parts equal the configured secrets.
    pub fn from_request(request: &Request, secrets: &Credentials) -> (outcome: Result<
        Authenticated,
        AuthError,
    >)
        ensures
            outcome is Ok <==> authorized(request@.credentials, secrets@),
            outcome is Err ==> outcome == Err::<Authenticated, AuthError>(AuthError::Failed),
    {
        match &request.credentials {
            Some(supplied) => {
                if secrets.matches(supplied) {
                    Ok(Authenticated { granted: () })
                } else {
                    Err(AuthError::Failed)
                }
            },
            None => Err(AuthError::Failed),
        }
    }
}

} // verus!
