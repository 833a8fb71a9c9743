//! What a request is answered with.

use vstd::prelude::*;
use vstd::string::StringExecFns;
use vstd::string::StrSliceExecFns;
use vstd::string::StringSliceAdditionalSpecFns;
use crate::classify::PLAIN;

verus! {

/// The status of an answer.
#[derive(Debug, Clone, Copy, PartialEq, Eq, Structural)]
pub enum Status {
    Success,
    BadRequest,
    Unauthorized,
    NotFound,
    PayloadTooLarge,
    InternalServerError,
}

impl Status {
    /// The HTTP status code.
    pub open spec fn spec_code(self) -> u16 {
        match self {
            Status::Success => 200,
            Status::BadRequest => 400,
            Status::Unauthorized => 401,
            Status::NotFound => 404,
            Status::PayloadTooLarge => 413,
            Status::InternalServerError => 500,
        }
    }

    #[verifier::when_used_as_spec(spec_code)]
    pub fn code(self) -> (code: u16)
        ensures
            code == self.spec_code(),
    {
        match self {
            Status::Success => 200,
            Status::BadRequest => 400,
            Status::Unauthorized => 401,
            Status::NotFound => 404,
            Status::PayloadTooLarge => 413,
            Status::InternalServerError => 500,
        }
    }
}

/// One header line of an answer.
#[derive(Debug)]
pub struct Header {
    pub name: String,
    pub value: String,
}

impl View for Header {
    type V = (Seq<char>, Seq<char>);

    open spec fn view(&self) -> (Seq<char>, Seq<char>) {
        (self.name@, self.value@)
    }
}

/// An answer: a status, header lines in the order they were added, and a body.
#[derive(Debug)]
pub struct Response {
    pub status: Status,
    pub headers: Vec<Header>,
    pub body: Vec<u8>,
}

/// The mathematical content of a [`Response`].
pub struct ResponseView {
    pub status: Status,
    pub headers: Seq<(Seq<char>, Seq<char>)>,
    pub body: Seq<u8>,
}

impl View for Response {
    type V = ResponseView;

    open spec fn view(&self) -> ResponseView {
        ResponseView {
            status: self.status,
            headers: Seq::new(self.headers@.len(), |i: int| self.headers@[i]@),
            body: self.body@,
        }
    }
}

/// The answer that carries a status and nothing else.
pub open spec fn bare(status: Status) -> ResponseView {
    ResponseView { status, headers: Seq::empty(), body: Seq::empty() }
}

/// The answer to a request that the authorization guard turned away: status 401
/// and the one header that makes a browser ask for a username and password.
pub open spec fn challenge() -> ResponseView {
    ResponseView {
        status: Status::Unauthorized,
        headers: seq![("WWW-Authenticate"@, "Basic"@)],
        body: Seq::empty(),
    }
}

/// The answer that carries `body` as plain text.
pub open spec fn text(status: Status, body: Seq<char>) -> ResponseView {
    ResponseView {
        status,
        headers: seq![("Content-Type"@, PLAIN@)],
        body: vstd::utf8::encode_utf8(body),
    }
}

/// The successful answer that carries `body`, declared to be of `content_type`.
pub open spec fn content(content_type: Seq<char>, body: Seq<u8>) -> ResponseView {
    ResponseView { status: Status::Success, headers: seq![("Content-Type"@, content_type)], body }
}

impl Response {
    /// An answer with the given status, no header and an empty body.
    pub fn from_status(status: Status) -> (response: Response)
        ensures
            response@ == bare(status),
    {
        let response = Response { status, headers: Vec::new(), body: Vec::new() };
        assert(response@.headers =~= Seq::empty());
        response
    }

    /// An answer with the given status and the given text as its body,
    /// declared to be plain text.
    pub fn from_text(status: Status, body: &str) -> (response: Response)
        ensures
            response@ == text(status, body@),
    {
        let mut headers: Vec<Header> = Vec::new();
        headers.push(
            Header { name: String::from_str("Content-Type"), value: String::from_str(PLAIN) },
        );
        let response = Response { status, headers, body: body.as_bytes_vec() };
        assert(response@.headers =~= seq![("Content-Type"@, PLAIN@)]);
        response
    }

    /// A successful answer with one `Content-Type` header and the given body.
    pub fn with_content(content_type: String, body: Vec<u8>) -> (response: Response)
        ensures
            response@ == content(content_type@, body@),
    {
        let mut headers: Vec<Header> = Vec::new();
        headers.push(Header { name: String::from_str("Content-Type"), value: content_type });
        let response = Response { status: Status::Success, headers, body };
        assert(response@.headers =~= seq![("Content-Type"@, content_type@)]);
        response
    }
}

/// Answers every request that was refused with status 401: the answer asks
/// the client to authenticate with HTTP Basic credentials.
pub fn unauthorized_catcher() -> (response: Response)
    ensures
        response@ == challenge(),
{
    let mut headers: Vec<Header> = Vec::new();
    headers.push(
        Header { name: String::from_str("WWW-Authenticate"), value: String::from_str("Basic") },
    );
    let response = Response { status: Status::Unauthorized, headers, body: Vec::new() };
    assert(response@.headers =~= seq![("WWW-Authenticate"@, "Basic"@)]);
    response
}

} // verus!
