//! The file store as the service relies on it, and what the service's steps
//! mean against it.
//!
//! The store itself is outside this library. Here it is a map from paths to
//! the bytes of the file at each path, and it is reliable: a write puts the
//! whole content at its path and changes no other file, and a read reports
//! what the last write to the path put there.

use vstd::prelude::*;
use crate::auth::authorized;
use crate::classify::{media_type_of_kind, signature_kind, Strategy};
use crate::handlers::{
    extension_of_kind, found_answer, link_line, retrieve_plan, upload_plan, StepView,
    MAX_UPLOAD_BYTES,
};
use crate::paste_id::{
    is_identifier, lemma_parse_public_name, public_name, storage_path,
};
use crate::request::RequestView;
use crate::response::{bare, challenge, content, text, ResponseView, Status};
use crate::service::{plan, RouteView};

verus! {

/// The files below the storage root after `step` has been performed on a
/// reliable store that held `files`.
pub open spec fn files_after(files: Map<Seq<char>, Seq<u8>>, step: StepView) -> Map<
    Seq<char>,
    Seq<u8>,
> {
    match step {
        StepView::Store { path, bytes, link } => files.insert(path, bytes),
        _ => files,
    }
}

/// Whether `step` asks for any file to be read or written, now or later.
pub open spec fn touches_files(step: StepView) -> bool {
    !(step is Respond)
}

/// What a retrieval of `name` is answered with by a reliable store that
/// holds `files` and reports a missing file with `reason`.
pub open spec fn retrieval_answer(
    strategy: Strategy,
    files: Map<Seq<char>, Seq<u8>>,
    name: Seq<char>,
    reason: Seq<char>,
) -> ResponseView {
    match retrieve_plan(name) {
        StepView::Load { path, hint } => if files.dom().contains(path) {
            found_answer(strategy, hint, files[path])
        } else {
            text(Status::NotFound, reason)
        },
        StepView::Respond(response) => response,
        _ => bare(Status::NotFound),
    }
}

/// The credentials check route answers a request that carries the
/// configured username and password with its banner, and every other
/// request with status 401 and the header `WWW-Authenticate: Basic`.
pub proof fn lemma_test_auth(request: RequestView, secrets: (Seq<char>, Seq<char>))
    ensures
        request.credentials == Some(secrets) ==> plan(RouteView::TestAuth, request, secrets)
            == StepView::Respond(text(Status::Success, "Test Authentication."@)),
        request.credentials != Some(secrets) ==> plan(RouteView::TestAuth, request, secrets)
            == StepView::Respond(challenge()),
        challenge().status.spec_code() == 401,
        challenge().headers == seq![("WWW-Authenticate"@, "Basic"@)],
{
}

/// A request without the configured credentials gets, on every protected
/// route, the challenge and nothing else: no file is read or written, and
/// the store stays as it was.
pub proof fn lemma_unauthenticated_is_challenged(
    route: RouteView,
    request: RequestView,
    secrets: (Seq<char>, Seq<char>),
    files: Map<Seq<char>, Seq<u8>>,
)
    requires
        route.is_protected(),
        !authorized(request.credentials, secrets),
    ensures
        plan(route, request, secrets) == StepView::Respond(challenge()),
        !touches_files(plan(route, request, secrets)),
        files_after(files, plan(route, request, secrets)) == files,
{
}

/// An upload with the configured credentials and without a `Host` header
/// is a bad request, and fails before any file is written.
pub proof fn lemma_upload_needs_host(
    request: RequestView,
    secrets: (Seq<char>, Seq<char>),
    files: Map<Seq<char>, Seq<u8>>,
)
    requires
        authorized(request.credentials, secrets),
        request.host is None,
    ensures
        plan(RouteView::Upload, request, secrets) == StepView::Respond(bare(Status::BadRequest)),
        !touches_files(plan(RouteView::Upload, request, secrets)),
        files_after(files, plan(RouteView::Upload, request, secrets)) == files,
{
}

/// An upload over the size limit is refused whatever identifier was drawn,
/// and no file is created for it.
pub proof fn lemma_oversize_is_refused(
    site_url: Seq<char>,
    bytes: Seq<u8>,
    id: Seq<char>,
    files: Map<Seq<char>, Seq<u8>>,
)
    requires
        bytes.len() > MAX_UPLOAD_BYTES,
    ensures
        upload_plan(site_url, bytes, id) == StepView::Respond(bare(Status::PayloadTooLarge)),
        !touches_files(upload_plan(site_url, bytes, id)),
        files_after(files, upload_plan(site_url, bytes, id)) == files,
{
}

/// What is uploaded can be retrieved: an upload within the size limit is
/// answered with the site address, a slash and the name of the paste, and
/// a retrieval of that name from the store as the upload left it hands
/// out exactly the uploaded bytes, with the media type of their signature.
pub proof fn lemma_round_trip(
    site_url: Seq<char>,
    bytes: Seq<u8>,
    id: Seq<char>,
    files: Map<Seq<char>, Seq<u8>>,
    reason: Seq<char>,
)
    requires
        bytes.len() <= MAX_UPLOAD_BYTES,
        id.len() > 0,
        is_identifier(id),
    ensures
        ({
            let name = public_name(id, extension_of_kind(signature_kind(bytes)));
            let upload = upload_plan(site_url, bytes, id);
            &&& upload matches StepView::Store { path, bytes: stored, link }
            &&& link == link_line(site_url, name)
            &&& retrieval_answer(Strategy::Signature, files_after(files, upload), name, reason)
                == content(media_type_of_kind(signature_kind(bytes)), bytes)
        }),
{
    let extension = extension_of_kind(signature_kind(bytes));
    lemma_parse_public_name(id, extension);
}

/// A retrieval changes no file, so a retrieval of the same name that
/// follows it is answered with the same bytes and the same media type.
pub proof fn lemma_retrieval_is_idempotent(
    strategy: Strategy,
    files: Map<Seq<char>, Seq<u8>>,
    name: Seq<char>,
    reason: Seq<char>,
)
    ensures
        files_after(files, retrieve_plan(name)) == files,
        retrieval_answer(strategy, files_after(files, retrieve_plan(name)), name, reason)
            == retrieval_answer(strategy, files, name, reason),
{
}

} // verus!
