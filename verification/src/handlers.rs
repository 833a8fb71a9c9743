//! The routes of the service: what each one does once the guards have let a
//! request through, and what it asks of the file store.

use vstd::prelude::*;
use vstd::string::StringExecFns;
use crate::auth::Authenticated;
use crate::classify::{
    classify, kind_view, media_type, signature_kind, sniff, FileKind, FileKindView, Strategy,
};
use crate::paste_id::{
    check_extension, is_extension, is_identifier, parse_name, public_name, storage_path, PasteId,
};
use crate::response::{bare, content, text, Response, ResponseView, Status};
use crate::site_url::SiteURL;

verus! {

/// The largest body that an upload may have, in bytes: 512 MiB.
pub const MAX_UPLOAD_BYTES: usize = 536_870_912;

/// The number of characters in the identifier of an upload.
pub const ID_LENGTH: usize = 16;

/// What is to happen next for a request. The file store is not touched by
/// this library: where a step names a file operation, the caller performs
/// it and reports the outcome to [`stored`] or [`loaded`].
#[derive(Debug)]
pub enum Step {
    /// Send this answer; nothing is read or written.
    Respond(Response),
    /// The request may upload: read its body, then call [`upload`].
    ReadBody { auth: Authenticated, site_url: SiteURL },
    /// Write `bytes` to the file at `path`, then call [`stored`] with `link`.
    Store { path: String, bytes: Vec<u8>, link: String },
    /// Read the file at `path`, then call [`loaded`] with `hint`.
    Load { path: String, hint: String },
}

/// Why a file operation failed, with the store's own description of it.
#[derive(Debug)]
pub enum StoreError {
    /// There is no file at the path.
    Missing(String),
    /// The store could not carry the operation out.
    Failed(String),
}

/// The mathematical content of a [`Step`].
pub enum StepView {
    Respond(ResponseView),
    ReadBody { site_url: Seq<char> },
    Store { path: Seq<char>, bytes: Seq<u8>, link: Seq<char> },
    Load { path: Seq<char>, hint: Seq<char> },
}

impl View for Step {
    type V = StepView;

    open spec fn view(&self) -> StepView {
        match *self {
            Step::Respond(response) => StepView::Respond(response@),
            Step::ReadBody { auth, site_url } => StepView::ReadBody { site_url: site_url@ },
            Step::Store { path, bytes, link } => StepView::Store {
                path: path@,
                bytes: bytes@,
                link: link@,
            },
            Step::Load { path, hint } => StepView::Load { path: path@, hint: hint@ },
        }
    }
}

/// The extension that the name of an upload gets: that of the kind found in
/// its content where it can stand in a name, none otherwise.
pub open spec fn extension_of_kind(kind: Option<FileKindView>) -> Seq<char> {
    match kind {
        Some(kind) => if is_extension(kind.extension) {
            kind.extension
        } else {
            Seq::empty()
        },
        None => Seq::empty(),
    }
}

/// The line that answers an upload: the site address, a slash, the public
/// name of the paste, and a line feed.
pub open spec fn link_line(site_url: Seq<char>, name: Seq<char>) -> Seq<char> {
    site_url + seq!['/'] + name + seq!['\n']
}

/// What storing `bytes` under the identifier `id` with `extension` asks of
/// the file store.
pub open spec fn store_plan(
    site_url: Seq<char>,
    id: Seq<char>,
    extension: Seq<char>,
    bytes: Seq<u8>,
) -> StepView {
    StepView::Store {
        path: storage_path(public_name(id, extension)),
        bytes,
        link: link_line(site_url, public_name(id, extension)),
    }
}

/// What an upload of `bytes` amounts to once `id` has been drawn for it: a
/// body over the limit is refused; any other is stored, whole, under the
/// identifier and the extension found for its content.
pub open spec fn upload_plan(site_url: Seq<char>, bytes: Seq<u8>, id: Seq<char>) -> StepView {
    if bytes.len() > MAX_UPLOAD_BYTES {
        StepView::Respond(bare(Status::PayloadTooLarge))
    } else {
        store_plan(site_url, id, extension_of_kind(signature_kind(bytes)), bytes)
    }
}

/// What the retrieval of `name` amounts to: a name that [`parse_name`]
/// accepts is looked up under the file of that name, with its extension as
/// the hint; any other name is not found, and nothing is read.
pub open spec fn retrieve_plan(name: Seq<char>) -> StepView {
    match parse_name(name) {
        Some(paste_id) => StepView::Load {
            path: storage_path(public_name(paste_id.id, paste_id.extension)),
            hint: paste_id.extension,
        },
        None => StepView::Respond(bare(Status::NotFound)),
    }
}

/// The answer to an upload whose file operation ended in `outcome`: the
/// link line where the file was written, a server error where it was not.
pub open spec fn stored_answer(link: Seq<char>, outcome: Result<(), StoreError>) -> ResponseView {
    match outcome {
        Ok(_) => text(Status::Success, link),
        Err(_) => bare(Status::InternalServerError),
    }
}

/// The answer that hands out the bytes of a paste, with their media type.
pub open spec fn found_answer(strategy: Strategy, hint: Seq<char>, bytes: Seq<u8>) -> ResponseView {
    content(media_type(strategy, bytes, hint), bytes)
}

/// The answer to a retrieval whose file operation ended in `outcome`: the
/// bytes read, with their media type; status 404 with the store's reason
/// where there is no such file; a server error where the read failed.
pub open spec fn loaded_answer(
    strategy: Strategy,
    hint: Seq<char>,
    outcome: Result<Vec<u8>, StoreError>,
) -> ResponseView {
    match outcome {
        Ok(bytes) => found_answer(strategy, hint, bytes@),
        Err(StoreError::Missing(reason)) => text(Status::NotFound, reason@),
        Err(StoreError::Failed(_)) => bare(Status::InternalServerError),
    }
}

/// The banner of the service; it needs no credentials.
pub fn index() -> (banner: &'static str)
    ensures
        banner@ == "litebin."@,
{
    "litebin."
}

/// The text that tells a client that its credentials were accepted.
pub fn test_auth(_auth: Authenticated) -> (banner: &'static str)
    ensures
        banner@ == "Test Authentication."@,
{
    "Test Authentication."
}

/// The extension for the name of an upload whose content is of `kind`.
pub fn extension_for(kind: &Option<FileKind>) -> (extension: String)
    ensures
        extension@ == extension_of_kind(kind_view(*kind)),
{
    match kind {
        Some(kind) => {
            if check_extension(kind.extension.as_str()) {
                kind.extension.clone()
            } else {
                String::new()
            }
        },
        None => String::new(),
    }
}

/// Stores `paste` under `paste_id`: the file is the one that the identifier
/// names, and the answer will be the link to it on `site_url`.
pub fn store_as(site_url: &SiteURL, paste_id: &PasteId, paste: Vec<u8>) -> (step: Step)
    ensures
        step@ == store_plan(site_url@, paste_id@.id, paste_id@.extension, paste@),
{
    let name = paste_id.get_paste_id();
    let path = paste_id.file_path();
    let mut link = site_url.0.clone();
    link.append("/");
    link.append(name.as_str());
    link.append("\n");
    proof {
        reveal_strlit("/");
        reveal_strlit("\n");
        assert(link@ =~= link_line(site_url@, name@));
    }
    Step::Store { path, bytes: paste, link }
}

/// Handles an upload that passed both guards. A body of more than
/// [`MAX_UPLOAD_BYTES`] is refused and nothing is stored. Any other body is
/// stored, whole, under a fresh identifier of [`ID_LENGTH`] characters.
pub fn upload(_auth: Authenticated, site_url: SiteURL, paste: Vec<u8>) -> (step: Step)
    ensures
        exists|id: Seq<char>|
            id.len() == ID_LENGTH && is_identifier(id) && step@ == #[trigger] upload_plan(
                site_url@,
                paste@,
                id,
            ),
{
    if paste.len() > MAX_UPLOAD_BYTES {
        let step = Step::Respond(Response::from_status(Status::PayloadTooLarge));
        proof {
            let id = Seq::new(ID_LENGTH as nat, |i: int| '0');
            assert(step@ == upload_plan(site_url@, paste@, id));
        }
        return step;
    }
    let kind = sniff(paste.as_slice());
    let paste_id = PasteId::new(ID_LENGTH, extension_for(&kind));
    let step = store_as(&site_url, &paste_id, paste);
    assert(step@ == upload_plan(site_url@, paste@, paste_id@.id));
    step
}

/// Handles a retrieval that passed the guard: see [`retrieve_plan`].
pub fn retrieve(id: &str, _auth: Authenticated) -> (step: Step)
    ensures
        step@ == retrieve_plan(id@),
{
    match PasteId::parse(id) {
        Some(paste_id) => {
            let path = paste_id.file_path();
            let hint = paste_id.extension();
            Step::Load { path, hint }
        },
        None => Step::Respond(Response::from_status(Status::NotFound)),
    }
}

/// Answers an upload after its file operation: see [`stored_answer`].
pub fn stored(link: String, outcome: Result<(), StoreError>) -> (response: Response)
    ensures
        response@ == stored_answer(link@, outcome),
{
    match outcome {
        Ok(_) => Response::from_text(Status::Success, link.as_str()),
        Err(_) => Response::from_status(Status::InternalServerError),
    }
}

/// Answers a retrieval after its file operation: see [`loaded_answer`].
pub fn loaded(strategy: Strategy, hint: &str, outcome: Result<Vec<u8>, StoreError>) -> (response:
    Response)
    ensures
        response@ == loaded_answer(strategy, hint@, outcome),
{
    match outcome {
        Ok(bytes) => {
            let mime = classify(strategy, bytes.as_slice(), hint);
            Response::with_content(mime, bytes)
        },
        Err(StoreError::Missing(reason)) => Response::from_text(Status::NotFound, reason.as_str()),
        Err(StoreError::Failed(_)) => Response::from_status(Status::InternalServerError),
    }
}

} // verus!
