//! Folder scanning and single-file import: which files count as audio, how
//! an existing row answers an import, and the scan report.
use vstd::prelude::*;

use crate::error::CoreError;
use crate::text::{ascii_lower_text, char_to_ascii_lowercase, concat2, push_char, str_eq};
use crate::types::{is_uuid_text, uuid_parse_result, uuid_text, uuid_text_value, TrackId};

verus! {

/// Outcome of scanning a folder.
#[derive(Debug, Clone)]
pub struct ScanReport {
    /// Number of files added to the library.
    pub added: u32,
    /// Number of files skipped because they were already present.
    pub duplicate: u32,
    /// Number of files skipped because of an unsupported extension.
    pub skipped: u32,
    /// Errors encountered (path + reason).
    pub errors: Vec<String>,
}

impl Default for ScanReport {
    /// An empty report.
    fn default() -> (res: Self)
        ensures
            res.added == 0,
            res.duplicate == 0,
            res.skipped == 0,
            res.errors@.len() == 0,
    {
        ScanReport { added: 0, duplicate: 0, skipped: 0, errors: Vec::new() }
    }
}

/// Outcome of a single-file import.
#[derive(Debug, Clone, Copy, PartialEq, Eq, Structural)]
pub enum ImportOutcome {
    /// File was not in the library; a new row was inserted.
    Added(TrackId),
    /// File was already present; existing id is returned.
    Existing(TrackId),
}

impl ImportOutcome {
    /// Get the TrackId regardless of outcome.
    pub fn id(&self) -> (res: TrackId)
        ensures
            res == (match *self {
                ImportOutcome::Added(id) => id,
                ImportOutcome::Existing(id) => id,
            }),
    {
        match *self {
            ImportOutcome::Added(id) | ImportOutcome::Existing(id) => id,
        }
    }
}

impl ScanReport {
    /// Count a file skipped for its extension.
    pub fn note_skipped(&mut self)
        requires
            old(self).skipped < u32::MAX,
        ensures
            final(self).skipped == old(self).skipped + 1,
            final(self).added == old(self).added,
            final(self).duplicate == old(self).duplicate,
            final(self).errors@ == old(self).errors@,
    {
        self.skipped = self.skipped + 1;
    }

    /// Count an imported file: a new row is `added`, an existing one a
    /// `duplicate`.
    pub fn note_outcome(&mut self, outcome: ImportOutcome)
        requires
            outcome is Added ==> old(self).added < u32::MAX,
            outcome is Existing ==> old(self).duplicate < u32::MAX,
        ensures
            final(self).added == old(self).added + (if outcome is Added { 1int } else { 0 }),
            final(self).duplicate == old(self).duplicate + (if outcome is Existing { 1int } else { 0 }),
            final(self).skipped == old(self).skipped,
            final(self).errors@ == old(self).errors@,
    {
        match outcome {
            ImportOutcome::Added(_) => self.added = self.added + 1,
            ImportOutcome::Existing(_) => self.duplicate = self.duplicate + 1,
        }
    }

    /// Record a file that could not be imported: `path: reason`.
    pub fn note_error(&mut self, path: &str, reason: &str)
        ensures
            final(self).errors@ == old(self).errors@.push(final(self).errors@.last()),
            final(self).errors@.last()@ == path@ + ": "@ + reason@,
            final(self).added == old(self).added,
            final(self).duplicate == old(self).duplicate,
            final(self).skipped == old(self).skipped,
    {
        let head = concat2(path, ": ");
        let line = concat2(head.as_str(), reason);
        self.errors.push(line);
    }
}

// ---------------------------------------------------------------------------
// Audio file recognition
// ---------------------------------------------------------------------------

/// What `std::path::Path::extension` gives for a path text (as UTF-8), or
/// nothing when the path has no extension.
pub uninterp spec fn path_extension_of(path: Seq<char>) -> Option<Seq<char>>;

/// `std::path::Path::extension`, read as UTF-8 text.  The result is the
/// named result `path_extension_of` of the path text.
#[verifier::external_body]
fn path_extension(path: &str) -> (res: Option<String>)
    ensures
        res is Some <==> path_extension_of(path@) is Some,
        res matches Some(e) ==> path_extension_of(path@) == Some(e@),
{
    std::path::Path::new(path).extension().and_then(|e| e.to_str()).map(|e| e.to_owned())
}

/// File extensions PhraseDJ understands at import time (lower case).
pub open spec fn is_audio_extension_text(e: Seq<char>) -> bool {
    ||| e == "wav"@
    ||| e == "wave"@
    ||| e == "flac"@
    ||| e == "aiff"@
    ||| e == "aif"@
    ||| e == "mp3"@
    ||| e == "m4a"@
    ||| e == "aac"@
    ||| e == "ogg"@
    ||| e == "opus"@
}

/// Whether a lower-case extension is one of the supported audio formats.
pub fn is_audio_extension(e: &str) -> (res: bool)
    ensures
        res == is_audio_extension_text(e@),
        res == supported_audio_extensions().contains(e@),
{
    proof {
        lemma_audio_extensions_are_the_supported_formats(e@);
    }
    str_eq(e, "wav") || str_eq(e, "wave") || str_eq(e, "flac") || str_eq(e, "aiff") || str_eq(
        e,
        "aif",
    ) || str_eq(e, "mp3") || str_eq(e, "m4a") || str_eq(e, "aac") || str_eq(e, "ogg") || str_eq(
        e,
        "opus",
    )
}

/// ASCII lower-cased copy of a string.
pub fn to_ascii_lowercase(s: &str) -> (res: String)
    ensures
        res@ == ascii_lower_text(s@),
{
    let mut out = String::new();
    let n = s.unicode_len();
    let mut i: usize = 0;
    while i < n
        invariant
            n == s@.len(),
            i <= n,
            out@ == ascii_lower_text(s@.subrange(0, i as int)),
        decreases n - i,
    {
        let c = s.get_char(i);
        push_char(&mut out, char_to_ascii_lowercase(c));
        proof {
            assert(s@.subrange(0, i + 1) =~= s@.subrange(0, i as int).push(s@[i as int]));
            assert(ascii_lower_text(s@.subrange(0, i + 1)) =~= ascii_lower_text(
                s@.subrange(0, i as int),
            ).push(crate::text::ascii_lower(s@[i as int])));
        }
        i = i + 1;
    }
    assert(s@.subrange(0, n as int) =~= s@);
    out
}

/// A path is an audio file when its extension, lower-cased, is one of the
/// supported formats.
pub open spec fn is_audio_path(path: Seq<char>) -> bool {
    match path_extension_of(path) {
        Some(e) => is_audio_extension_text(ascii_lower_text(e)),
        None => false,
    }
}

/// Whether the file at `path` has a supported audio extension (case does
/// not matter).
pub fn is_audio(path: &str) -> (res: bool)
    ensures
        res == is_audio_path(path@),
{
    match path_extension(path) {
        Some(ext) => {
            let lowered = to_ascii_lowercase(ext.as_str());
            is_audio_extension(lowered.as_str())
        },
        None => false,
    }
}

// ---------------------------------------------------------------------------
// Import of a file already in the library
// ---------------------------------------------------------------------------

/// `Display` for `uuid::Error`.  Nothing is stated of the text: it is the
/// parser's own diagnostic.
#[verifier::external_body]
fn uuid_error_text(e: &uuid::Error) -> String {
    e.to_string()
}

/// The answer to importing a file whose path is already stored under the
/// identifier text `stored_id`: the existing identifier, or a database
/// error when the stored text is not a UUID.
pub fn existing_outcome(stored_id: &str) -> (res: Result<ImportOutcome, CoreError>)
    ensures
        res is Ok <==> uuid_parse_result(stored_id@) is Some,
        res matches Ok(o) ==> o is Existing && uuid_parse_result(stored_id@) == Some(o.id_spec()@),
        res matches Err(e) ==> e is Database,
        is_uuid_text(stored_id@) ==> (res matches Ok(o) && o.id_spec()@ == uuid_text_value(
            stored_id@,
        )),
{
    proof {
        if is_uuid_text(stored_id@) {
            let v = uuid_text_value(stored_id@);
            assert(uuid_text(v) == stored_id@);
        }
    }
    match TrackId::parse(stored_id) {
        Ok(id) => Ok(ImportOutcome::Existing(id)),
        Err(e) => Err(CoreError::Database(uuid_error_text(&e))),
    }
}

impl ImportOutcome {
    /// The identifier of either outcome.
    pub open spec fn id_spec(self) -> TrackId {
        match self {
            ImportOutcome::Added(id) => id,
            ImportOutcome::Existing(id) => id,
        }
    }
}

} // verus!

verus! {

/// The formats PhraseDJ understands at import time: wav, wave, flac, aiff,
/// aif, mp3, m4a, aac, ogg and opus.
pub open spec fn supported_audio_extensions() -> Set<Seq<char>> {
    set!["wav"@, "wave"@, "flac"@, "aiff"@, "aif"@, "mp3"@, "m4a"@, "aac"@, "ogg"@, "opus"@]
}

/// An extension is recognised exactly when it is one of the ten supported
/// formats.
pub proof fn lemma_audio_extensions_are_the_supported_formats(e: Seq<char>)
    ensures
        is_audio_extension_text(e) <==> supported_audio_extensions().contains(e),
{
}

/// A file is imported exactly when its extension, ASCII lower-cased, is one
/// of the supported formats; case does not matter, and a file without an
/// extension is skipped.
pub proof fn lemma_audio_path_by_extension(path: Seq<char>)
    ensures
        is_audio_path(path) <==> (path_extension_of(path) matches Some(x)
            && supported_audio_extensions().contains(ascii_lower_text(x))),
{
    if let Some(x) = path_extension_of(path) {
        lemma_audio_extensions_are_the_supported_formats(ascii_lower_text(x));
    }
}

} // verus!
