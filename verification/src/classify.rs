//! Content classification: which media type a paste is served with.

use vstd::prelude::*;
use vstd::string::StringExecFns;

verus! {

/// The media type of content in which no signature is recognised: a paste is
/// then served as plain text.
pub const PLAIN: &'static str = "text/plain; charset=utf-8";

/// The media type that stands for any content at all.
pub const ANY: &'static str = "*/*";

pub const PNG: &'static str = "image/png";

pub const JPEG: &'static str = "image/jpeg";

/// What the signature at the start of some content says it is.
#[derive(Debug)]
pub struct FileKind {
    /// The media type, such as `image/png`.
    pub mime_type: String,
    /// The customary file extension, without a dot, such as `png`.
    pub extension: String,
}

/// The mathematical content of a [`FileKind`].
pub struct FileKindView {
    pub mime_type: Seq<char>,
    pub extension: Seq<char>,
}

impl View for FileKind {
    type V = FileKindView;

    open spec fn view(&self) -> FileKindView {
        FileKindView { mime_type: self.mime_type@, extension: self.extension@ }
    }
}

/// The view of a kind that may be absent.
pub open spec fn kind_view(kind: Option<FileKind>) -> Option<FileKindView> {
    match kind {
        Some(kind) => Some(kind@),
        None => None,
    }
}

/// The kind that signature sniffing finds in `bytes`, or `None` where no
/// known signature matches. It depends on the bytes alone.
pub uninterp spec fn signature_kind(bytes: Seq<u8>) -> Option<FileKindView>;

/// [`infer::get`], with the media type and the extension read off the type
/// it returns ([`infer::Type::mime_type`], [`infer::Type::extension`]).
/// The crate walks a fixed table of signature matchers over the buffer and
/// returns the first entry that matches; this contract gives that result
/// the name [`signature_kind`] and says nothing of which bytes match what.
#[verifier::external_body]
pub(crate) fn sniff(bytes: &[u8]) -> (kind: Option<FileKind>)
    ensures
        kind_view(kind) == signature_kind(bytes@),
{
    match infer::get(bytes) {
        Some(found) => Some(
            FileKind {
                mime_type: found.mime_type().to_string(),
                extension: found.extension().to_string(),
            },
        ),
        None => None,
    }
}

/// How the media type of a paste is determined.
#[derive(Debug, Clone, Copy, PartialEq, Eq, Structural)]
pub enum Strategy {
    /// From the signature in the content itself. The extension in the
    /// retrieval path is not trusted.
    Signature,
    /// From the extension in the retrieval path alone, without a look at
    /// the content.
    Extension,
}

impl Default for Strategy {
    /// Sniffing the content is the default.
    fn default() -> (strategy: Strategy)
        ensures
            strategy == Strategy::Signature,
    {
        Strategy::Signature
    }
}

/// The media type for a sniffed kind: the kind's own where a signature was
/// recognised, plain text otherwise.
pub open spec fn media_type_of_kind(kind: Option<FileKindView>) -> Seq<char> {
    match kind {
        Some(kind) => kind.mime_type,
        None => PLAIN@,
    }
}

/// The media type for an extension: `png` and `jpg` or `jpeg` are the two
/// image types; everything else, and no extension, is any type.
pub open spec fn media_type_of_extension(extension: Seq<char>) -> Seq<char> {
    if extension == "png"@ {
        PNG@
    } else if extension == "jpg"@ || extension == "jpeg"@ {
        JPEG@
    } else {
        ANY@
    }
}

/// The media type that content is served with.
pub open spec fn media_type(strategy: Strategy, bytes: Seq<u8>, hint: Seq<char>) -> Seq<char> {
    match strategy {
        Strategy::Signature => media_type_of_kind(signature_kind(bytes)),
        Strategy::Extension => media_type_of_extension(hint),
    }
}

/// Whether two texts are the same, character for character.
fn same_text(left: &str, right: &str) -> (same: bool)
    ensures
        same == (left@ == right@),
{
    String::from_str(left) == String::from_str(right)
}

/// The media type for the outcome of sniffing.
pub fn classify_kind(kind: &Option<FileKind>) -> (mime: String)
    ensures
        mime@ == media_type_of_kind(kind_view(*kind)),
{
    match kind {
        Some(kind) => kind.mime_type.clone(),
        None => String::from_str(PLAIN),
    }
}

/// The media type for the extension of a retrieval path.
pub fn classify_extension(extension: &str) -> (mime: String)
    ensures
        mime@ == media_type_of_extension(extension@),
{
    if same_text(extension, "png") {
        String::from_str(PNG)
    } else if same_text(extension, "jpg") || same_text(extension, "jpeg") {
        String::from_str(JPEG)
    } else {
        String::from_str(ANY)
    }
}

/// Determines the media type of `bytes` by the chosen strategy; `hint` is
/// the extension that the client supplied, empty where it gave none.
pub fn classify(strategy: Strategy, bytes: &[u8], hint: &str) -> (mime: String)
    ensures
        mime@ == media_type(strategy, bytes@, hint@),
{
    match strategy {
        Strategy::Signature => {
            let kind = sniff(bytes);
            classify_kind(&kind)
        },
        Strategy::Extension => classify_extension(hint),
    }
}

} // verus!
