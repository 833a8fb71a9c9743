//! Identifiers of stored pastes: how they are minted, how they name a stored
//! file, and how the name in a retrieval path is taken apart again.

use vstd::prelude::*;
use vstd::string::StringExecFns;
use vstd::string::StrSliceExecFns;

verus! {

/// The characters an identifier is drawn from, in the order of their index.
pub const ALPHABET: &'static str =
    "0123456789ABCDEFGHIJKLMNOPQRSTUVWXYZabcdefghijklmnopqrstuvwxyz";

/// The number of characters in [`ALPHABET`].
pub const ALPHABET_SIZE: usize = 62;

/// The directory, relative to the working directory, that holds every paste.
pub const UPLOAD_ROOT: &'static str = "upload/";

/// Whether `c` is a character of the alphabet: an ASCII digit or letter.
pub open spec fn is_alphabet_char(c: char) -> bool {
    ('0' <= c && c <= '9') || ('A' <= c && c <= 'Z') || ('a' <= c && c <= 'z')
}

/// Whether `id` is made of alphabet characters only.
pub open spec fn is_identifier(id: Seq<char>) -> bool {
    forall|i: int| 0 <= i < id.len() ==> is_alphabet_char(#[trigger] id[i])
}

/// Whether `extension` can follow an identifier in a retrieval path: it is
/// not empty and made of alphabet characters only.
pub open spec fn is_extension(extension: Seq<char>) -> bool {
    extension.len() > 0 && is_identifier(extension)
}

/// The character that a random draw selects.
pub open spec fn symbol_of(draw: usize) -> char {
    ALPHABET@[(draw % ALPHABET_SIZE) as int]
}

/// The public name of a paste: the identifier, followed by a dot and the
/// extension where there is one.
pub open spec fn public_name(id: Seq<char>, extension: Seq<char>) -> Seq<char> {
    if extension.len() == 0 {
        id
    } else {
        id + seq!['.'] + extension
    }
}

/// Where the paste of the given public name is stored.
pub open spec fn storage_path(name: Seq<char>) -> Seq<char> {
    UPLOAD_ROOT@ + name
}

/// Whether the first `n` characters of `name` are all that stand before its
/// first dot (or are the whole name, where it has no dot).
pub open spec fn is_stem_end(name: Seq<char>, n: int) -> bool {
    &&& 0 <= n <= name.len()
    &&& forall|j: int| 0 <= j < n ==> name[j] != '.'
    &&& n < name.len() ==> name[n] == '.'
}

/// The number of characters of `name` before its first dot.
pub open spec fn stem_len(name: Seq<char>) -> int {
    choose|n: int| is_stem_end(name, n)
}

/// What a name in a retrieval path stands for: the characters before the
/// first dot are the identifier, those after it the extension. A name is
/// accepted only if its identifier is not empty and made of alphabet
/// characters, and its extension, where a dot is present, is one too.
pub open spec fn parse_name(name: Seq<char>) -> Option<PasteIdView> {
    let n = stem_len(name);
    let id = name.take(n);
    if id.len() == 0 || !is_identifier(id) {
        None
    } else if n == name.len() {
        Some(PasteIdView { id, extension: Seq::empty() })
    } else if is_extension(name.skip(n + 1)) {
        Some(PasteIdView { id, extension: name.skip(n + 1) })
    } else {
        None
    }
}

/// A name has one stem end only.
pub proof fn lemma_stem_end_unique(name: Seq<char>, a: int, b: int)
    requires
        is_stem_end(name, a),
        is_stem_end(name, b),
    ensures
        a == b,
{
    if a < b {
        assert(name[a] != '.');
    }
    if b < a {
        assert(name[b] != '.');
    }
}

/// Every name has a stem end at or after a position that no dot precedes.
proof fn lemma_stem_end_from(name: Seq<char>, k: int) -> (n: int)
    requires
        0 <= k <= name.len(),
        forall|j: int| 0 <= j < k ==> name[j] != '.',
    ensures
        is_stem_end(name, n),
        k <= n,
    decreases name.len() - k,
{
    if k == name.len() || name[k] == '.' {
        k
    } else {
        lemma_stem_end_from(name, k + 1)
    }
}

/// `stem_len` is the stem end of every name.
pub proof fn lemma_stem_len(name: Seq<char>)
    ensures
        is_stem_end(name, stem_len(name)),
{
    let n = lemma_stem_end_from(name, 0);
}

/// A name with a character that is neither of the alphabet nor a dot stands
/// for nothing.
pub proof fn lemma_foreign_char_is_rejected(name: Seq<char>, k: int)
    requires
        0 <= k < name.len(),
        !is_alphabet_char(name[k]),
        name[k] != '.',
    ensures
        parse_name(name) is None,
{
    lemma_stem_len(name);
    let n = stem_len(name);
    if k < n {
        assert(name.take(n)[k] == name[k]);
    } else {
        assert(k > n);
        assert(name.skip(n + 1)[k - n - 1] == name[k]);
    }
}

/// The public name of a paste is read back as its identifier and its
/// extension: for every identifier that is not empty, with no extension or
/// with one that can stand in a name.
pub proof fn lemma_parse_public_name(id: Seq<char>, extension: Seq<char>)
    requires
        id.len() > 0,
        is_identifier(id),
        extension.len() == 0 || is_extension(extension),
    ensures
        parse_name(public_name(id, extension)) == Some(PasteIdView { id, extension }),
{
    let name = public_name(id, extension);
    assert(is_stem_end(name, id.len() as int)) by {
        assert forall|j: int| 0 <= j < id.len() implies name[j] != '.' by {
            assert(name[j] == id[j]);
            assert(is_alphabet_char(id[j]));
        }
    }
    lemma_stem_len(name);
    lemma_stem_end_unique(name, id.len() as int, stem_len(name));
    assert(name.take(id.len() as int) =~= id);
    if extension.len() > 0 {
        assert(name.skip(id.len() as int + 1) =~= extension);
    } else {
        assert(extension =~= Seq::empty());
    }
}

/// Whatever a name is read as is an identifier that is not empty, with no
/// extension or with one that can stand in a name, and the name is exactly
/// the public name of the two.
pub proof fn lemma_parse_is_sound(name: Seq<char>)
    ensures
        parse_name(name) matches Some(paste_id) ==> {
            &&& paste_id.id.len() > 0
            &&& is_identifier(paste_id.id)
            &&& paste_id.extension.len() == 0 || is_extension(paste_id.extension)
            &&& public_name(paste_id.id, paste_id.extension) == name
        },
{
    lemma_stem_len(name);
    let n = stem_len(name);
    if let Some(paste_id) = parse_name(name) {
        if n == name.len() {
            assert(name.take(n) =~= name);
        } else {
            assert(name.take(n) + seq!['.'] + name.skip(n + 1) =~= name);
        }
    }
}

/// Whether `c` may stand in the segment of a URL path as it is: a letter, a
/// digit, or one of `-`, `.`, `_` and `~`.
pub open spec fn is_unreserved(c: char) -> bool {
    is_alphabet_char(c) || c == '-' || c == '.' || c == '_' || c == '~'
}

/// A public name needs no escaping in a URL and names a file directly below
/// the root: each of its characters is unreserved, none is a path
/// separator, and it does not begin with a dot.
pub proof fn lemma_public_name_is_safe(id: Seq<char>, extension: Seq<char>)
    requires
        id.len() > 0,
        is_identifier(id),
        extension.len() == 0 || is_extension(extension),
    ensures
        public_name(id, extension).len() > 0,
        public_name(id, extension)[0] != '.',
        forall|i: int|
            0 <= i < public_name(id, extension).len() ==> {
                let c = #[trigger] public_name(id, extension)[i];
                is_unreserved(c) && c != '/' && c != '\\'
            },
{
    let name = public_name(id, extension);
    assert(name[0] == id[0]);
    assert forall|i: int| 0 <= i < name.len() implies {
        let c = #[trigger] name[i];
        is_unreserved(c) && c != '/' && c != '\\'
    } by {
        if i < id.len() {
            assert(name[i] == id[i]);
        } else if i > id.len() {
            assert(name[i] == extension[i - id.len() - 1]);
        }
    }
}

/// What the alphabet holds: 62 ASCII characters, each a digit or a letter.
pub proof fn lemma_alphabet()
    ensures
        ALPHABET@.len() == ALPHABET_SIZE,
        vstd::string::is_ascii(ALPHABET),
        forall|i: int| 0 <= i < ALPHABET_SIZE ==> is_alphabet_char(#[trigger] ALPHABET@[i]),
{
    reveal_strlit("0123456789ABCDEFGHIJKLMNOPQRSTUVWXYZabcdefghijklmnopqrstuvwxyz");
}

/// [`rand::random`] at type `usize`: one value from the thread-local
/// generator that the operating system seeds. Nothing is claimed of the
/// value drawn.
#[verifier::external_body]
fn random_draw() -> (draw: usize) {
    rand::random::<usize>()
}

/// The one-character slice of the alphabet that a draw selects.
fn symbol(draw: usize) -> (piece: &'static str)
    ensures
        piece@ == seq![symbol_of(draw)],
        is_alphabet_char(symbol_of(draw)),
{
    proof {
        lemma_alphabet();
    }
    let index: usize = draw % ALPHABET_SIZE;
    let piece = ALPHABET.substring_ascii(index, index + 1);
    assert(piece@ =~= seq![symbol_of(draw)]);
    piece
}

// The ASCII codes that bound the three runs of the alphabet, and the dot.
const DIGIT_ZERO: u8 = 0x30;

const DIGIT_NINE: u8 = 0x39;

const UPPER_A: u8 = 0x41;

const UPPER_Z: u8 = 0x5a;

const LOWER_A: u8 = 0x61;

const LOWER_Z: u8 = 0x7a;

const DOT: u8 = 0x2e;

/// Whether a byte of an ASCII name is a character of the alphabet.
fn is_alphabet_byte(byte: u8) -> (yes: bool)
    ensures
        yes == is_alphabet_char(byte as char),
{
    (DIGIT_ZERO <= byte && byte <= DIGIT_NINE) || (UPPER_A <= byte && byte <= UPPER_Z) || (LOWER_A
        <= byte && byte <= LOWER_Z)
}

/// Whether `extension` can follow an identifier in a retrieval path.
pub fn check_extension(extension: &str) -> (ok: bool)
    ensures
        ok == is_extension(extension@),
{
    if !extension.is_ascii() {
        return false;
    }
    let bytes = extension.as_bytes();
    proof {
        vstd::string::is_ascii_spec_bytes(extension);
    }
    let len: usize = bytes.len();
    let mut k: usize = 0;
    while k < len
        invariant
            k <= len,
            len == extension@.len(),
            bytes@ == Seq::new(extension@.len(), |i: int| extension@[i] as u8),
            extension.is_ascii(),
            forall|j: int| 0 <= j < k ==> is_alphabet_char(#[trigger] extension@[j]),
        decreases len - k,
    {
        if !is_alphabet_byte(bytes[k]) {
            return false;
        }
        k = k + 1;
    }
    len > 0
}

/// A short random name for one stored paste, with the file extension that
/// was found for its content (empty where none was).
#[derive(Debug)]
pub struct PasteId {
    id: String,
    extension: String,
}

/// The mathematical content of a [`PasteId`].
pub struct PasteIdView {
    pub id: Seq<char>,
    pub extension: Seq<char>,
}

impl View for PasteId {
    type V = PasteIdView;

    closed spec fn view(&self) -> PasteIdView {
        PasteIdView { id: self.id@, extension: self.extension@ }
    }
}

impl PasteId {
    /// Every identifier is made of alphabet characters only, however it
    /// was made.
    #[verifier::type_invariant]
    spec fn well_formed(&self) -> bool {
        is_identifier(self.id@)
    }

    /// The paste identifier that the given draws select, one character for
    /// each draw and in their order.
    pub fn from_draws(draws: &Vec<usize>, extension: String) -> (paste_id: PasteId)
        ensures
            paste_id@.id == Seq::new(draws@.len(), |k: int| symbol_of(draws@[k])),
            paste_id@.extension == extension@,
            is_identifier(paste_id@.id),
    {
        let mut id = String::new();
        let mut k: usize = 0;
        while k < draws.len()
            invariant
                k <= draws@.len(),
                id@ == Seq::new(k as nat, |j: int| symbol_of(draws@[j])),
                is_identifier(id@),
            decreases draws@.len() - k,
        {
            let piece = symbol(draws[k]);
            let ghost before = id@;
            id.append(piece);
            assert(id@ =~= Seq::new((k + 1) as nat, |j: int| symbol_of(draws@[j])));
            assert forall|i: int| 0 <= i < id@.len() implies is_alphabet_char(#[trigger] id@[i]) by {
                if i < before.len() {
                    assert(id@[i] == before[i]);
                }
            }
            k = k + 1;
        }
        PasteId { id, extension }
    }

    /// Mints a fresh identifier of `length` random characters of the
    /// alphabet. This cannot fail, and no earlier identifier is consulted.
    pub fn new(length: usize, extension: String) -> (paste_id: PasteId)
        ensures
            paste_id@.id.len() == length,
            is_identifier(paste_id@.id),
            paste_id@.extension == extension@,
    {
        let mut id = String::new();
        let mut k: usize = 0;
        while k < length
            invariant
                k <= length,
                id@.len() == k,
                is_identifier(id@),
            decreases length - k,
        {
            let piece = symbol(random_draw());
            let ghost before = id@;
            id.append(piece);
            assert forall|i: int| 0 <= i < id@.len() implies is_alphabet_char(#[trigger] id@[i]) by {
                if i < before.len() {
                    assert(id@[i] == before[i]);
                }
            }
            k = k + 1;
        }
        PasteId { id, extension }
    }

    /// Takes the name in a retrieval path apart into identifier and
    /// extension, and refuses every name that is not the public name of an
    /// identifier: see [`parse_name`].
    pub fn parse(name: &str) -> (parsed: Option<PasteId>)
        ensures
            match parsed {
                Some(paste_id) => parse_name(name@) == Some(paste_id@),
                None => parse_name(name@) is None,
            },
    {
        if !name.is_ascii() {
            proof {
                let k = choose|k: int|
                    0 <= k < name@.len() && !('\0' <= #[trigger] name@[k] <= '\u{7f}');
                lemma_foreign_char_is_rejected(name@, k);
            }
            return None;
        }
        let bytes = name.as_bytes();
        proof {
            vstd::string::is_ascii_spec_bytes(name);
        }
        let len: usize = bytes.len();
        let mut n: usize = 0;
        while n < len && bytes[n] != DOT
            invariant
                n <= len,
                len == name@.len(),
                name.is_ascii(),
                bytes@ == Seq::new(name@.len(), |i: int| name@[i] as u8),
                forall|j: int| 0 <= j < n ==> is_alphabet_char(#[trigger] name@[j]),
            decreases len - n,
        {
            if !is_alphabet_byte(bytes[n]) {
                proof {
                    lemma_foreign_char_is_rejected(name@, n as int);
                }
                return None;
            }
            n = n + 1;
        }
        proof {
            assert(is_stem_end(name@, n as int));
            lemma_stem_len(name@);
            lemma_stem_end_unique(name@, n as int, stem_len(name@));
        }
        if n == 0 {
            return None;
        }
        let id = String::from_str(name.substring_ascii(0, n));
        assert(id@ =~= name@.take(n as int));
        if n == len {
            return Some(PasteId { id, extension: String::new() });
        }
        let start: usize = n + 1;
        if start == len {
            return None;
        }
        let mut m: usize = start;
        while m < len
            invariant
                start <= m <= len,
                start == n + 1,
                n as int == stem_len(name@),
                len == name@.len(),
                name.is_ascii(),
                bytes@ == Seq::new(name@.len(), |i: int| name@[i] as u8),
                forall|j: int| start <= j < m ==> is_alphabet_char(#[trigger] name@[j]),
            decreases len - m,
        {
            if !is_alphabet_byte(bytes[m]) {
                proof {
                    assert(name@.skip(start as int)[m - start] == name@[m as int]);
                }
                return None;
            }
            m = m + 1;
        }
        let extension = String::from_str(name.substring_ascii(start, len));
        assert(extension@ =~= name@.skip(start as int));
        Some(PasteId { id, extension })
    }

    /// The extension, empty where the paste has none.
    pub fn extension(&self) -> (extension: String)
        ensures
            extension@ == self@.extension,
    {
        self.extension.clone()
    }

    /// The random part of the name.
    pub fn id(&self) -> (id: String)
        ensures
            id@ == self@.id,
            is_identifier(self@.id),
    {
        proof {
            use_type_invariant(self);
        }
        self.id.clone()
    }

    /// The name under which the paste is handed out: the identifier, and
    /// after a dot the extension where there is one.
    pub fn get_paste_id(&self) -> (name: String)
        ensures
            name@ == public_name(self@.id, self@.extension),
            is_identifier(self@.id),
    {
        proof {
            use_type_invariant(self);
            reveal_strlit(".");
        }
        let mut name = self.id.clone();
        if !self.extension.as_str().is_empty() {
            name.append(".");
            name.append(self.extension.as_str());
            assert(name@ =~= self@.id + seq!['.'] + self@.extension);
        }
        name
    }

    /// The path of the file that holds the paste, below [`UPLOAD_ROOT`].
    pub fn file_path(&self) -> (path: String)
        ensures
            path@ == storage_path(public_name(self@.id, self@.extension)),
            is_identifier(self@.id),
    {
        let name = self.get_paste_id();
        let mut path = String::from_str(UPLOAD_ROOT);
        path.append(name.as_str());
        path
    }
}

} // verus!
