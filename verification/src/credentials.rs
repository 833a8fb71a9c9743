//! The pair of secrets every protected route is guarded with.

use vstd::prelude::*;
use vstd::string::StringExecFns;

verus! {

/// The username used when the configuration supplies none.
pub const DEFAULT_USERNAME: &'static str = "hello";

/// The password used when the configuration supplies none.
pub const DEFAULT_PASSWORD: &'static str = "world";

/// A username and a password, as HTTP Basic authentication carries them.
#[derive(Debug)]
pub struct Credentials {
    pub username: String,
    pub password: String,
}

impl View for Credentials {
    type V = (Seq<char>, Seq<char>);

    open spec fn view(&self) -> (Seq<char>, Seq<char>) {
        (self.username@, self.password@)
    }
}

/// The value of a configuration variable, or the fallback where it is unset.
pub open spec fn value_or(configured: Option<String>, fallback: Seq<char>) -> Seq<char> {
    match configured {
        Some(value) => value@,
        None => fallback,
    }
}

impl Credentials {
    pub fn new(username: String, password: String) -> (credentials: Credentials)
        ensures
            credentials@ == (username@, password@),
    {
        Credentials { username, password }
    }

    /// Builds the configured secrets from the values of the two configuration
    /// variables, each replaced by its fixed default where it is unset.
    pub fn from_environment(username: Option<String>, password: Option<String>) -> (credentials:
        Credentials)
        ensures
            credentials.username@ == value_or(username, DEFAULT_USERNAME@),
            credentials.password@ == value_or(password, DEFAULT_PASSWORD@),
    {
        let username = match username {
            Some(value) => value,
            None => String::from_str(DEFAULT_USERNAME),
        };
        let password = match password {
            Some(value) => value,
            None => String::from_str(DEFAULT_PASSWORD),
        };
        Credentials { username, password }
    }

    /// Exact equality of both parts.
    pub fn matches(&self, supplied: &Credentials) -> (equal: bool)
        ensures
            equal == (self@ == supplied@),
    {
        let same_username = self.username == supplied.username;
        let same_password = self.password == supplied.password;
        same_username && same_password
    }
}

} // verus!
