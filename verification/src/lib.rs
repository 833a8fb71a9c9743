//! A small authenticated paste store: the rules that decide who may upload
//! and retrieve, how stored content is named, and what a request is answered
//! with.
//!
//! The library decides and never touches a file or a socket. A caller hands
//! it what a request carried ([`Request`]), gets back the next [`Step`],
//! performs the file operation that the step names, and reports the outcome
//! to [`stored`] or [`loaded`] for the final [`Response`].

pub mod auth;
pub mod classify;
pub mod credentials;
pub mod handlers;
pub mod paste_id;
pub mod request;
pub mod response;
pub mod service;
pub mod site_url;
pub mod store;

pub use auth::{AuthError, Authenticated};
pub use classify::{classify, classify_extension, classify_kind, FileKind, Strategy};
pub use credentials::Credentials;
pub use handlers::{
    extension_for, index, loaded, retrieve, store_as, stored, test_auth, upload, Step,
    StoreError, ID_LENGTH, MAX_UPLOAD_BYTES,
};
pub use paste_id::{check_extension, PasteId, ALPHABET, ALPHABET_SIZE, UPLOAD_ROOT};
pub use request::Request;
pub use response::{unauthorized_catcher, Header, Response, Status};
pub use service::{handle, Route};
pub use site_url::{ApiTokenError, SiteURL};
