//! Cache directory layout for stem files.
//!
//! ```text
//! <data-dir>/cache/stems/
//!   └── <track_uuid>/
//!         ├── vocals.flac
//!         ├── drums.flac
//!         ├── bass.flac
//!         └── other.flac
//! ```
//!
//! All path logic is centralised here so that a rename only requires
//! touching this one file.  Paths are joined as `PathBuf::join` does on the
//! platform the library is built for.
use vstd::prelude::*;

use crate::stems::backend::{stem_name, StemLabel};
use crate::text::concat2;
use crate::types::{uuid_text, TrackId};

verus! {

/// What `Path::join` gives for two path texts on the platform of the build
/// (separator, absolute paths and prefixes follow that platform's rules).
pub uninterp spec fn path_join_of(base: Seq<char>, child: Seq<char>) -> Seq<char>;

/// A single plain path component: not empty, not `.` or `..`, and free of
/// separators (`/`, `\`) and of `:` (which opens a drive prefix on
/// Windows).  Such a component is a relative path on every platform.
pub open spec fn is_plain_component(c: Seq<char>) -> bool {
    &&& c.len() > 0
    &&& c != seq!['.']
    &&& c != seq!['.', '.']
    &&& forall|i: int| 0 <= i < c.len() ==> #[trigger] c[i] != '/' && c[i] != '\\' && c[i] != ':'
}

/// `s` ends with `suffix`.
pub open spec fn ends_with(s: Seq<char>, suffix: Seq<char>) -> bool {
    suffix.len() <= s.len() && s.subrange(s.len() - suffix.len(), s.len() as int) == suffix
}

/// `std::path::Path::join`, read back as text.  The result is the named
/// result `path_join_of` of the two texts; the texts come from `&str`, so
/// the joined path is valid UTF-8 and reading it back loses nothing.
/// Joining a plain relative component extends the base path (as
/// `PathBuf::push` documents), so the result ends with that component.
#[verifier::external_body]
fn path_join(base: &str, child: &str) -> (res: String)
    ensures
        res@ == path_join_of(base@, child@),
        is_plain_component(child@) ==> ends_with(res@, child@),
{
    std::path::Path::new(base).join(child).to_string_lossy().into_owned()
}

/// Absolute paths to the four cached stem files for one track.
#[derive(Debug, Clone)]
pub struct StemPaths {
    /// Vocals (lead + backing).
    pub vocals: String,
    /// Drums (kick, snare, hats, cymbals).
    pub drums: String,
    /// Bass (bass guitar, sub-bass).
    pub bass: String,
    /// Other (guitars, synths, strings, ...).
    pub other: String,
}

/// The per-track stem directory under the cache root.
pub open spec fn track_dir_text(root: Seq<char>, track: u128) -> Seq<char> {
    path_join_of(root, uuid_text(track))
}

/// The file name of a stem: its name with the `.flac` extension.
pub open spec fn stem_file_name(label: StemLabel) -> Seq<char> {
    stem_name(label) + ".flac"@
}

/// The cached file of one stem of one track.
pub open spec fn stem_file_text(root: Seq<char>, track: u128, label: StemLabel) -> Seq<char> {
    path_join_of(track_dir_text(root, track), stem_file_name(label))
}

impl StemPaths {
    /// The path of one stem.
    pub open spec fn spec_path_of(&self, label: StemLabel) -> Seq<char> {
        match label {
            StemLabel::Vocals => self.vocals@,
            StemLabel::Drums => self.drums@,
            StemLabel::Bass => self.bass@,
            StemLabel::Other => self.other@,
        }
    }

    /// The path of one stem.
    pub fn path_of(&self, label: StemLabel) -> (res: &String)
        ensures
            res@ == self.spec_path_of(label),
    {
        match label {
            StemLabel::Vocals => &self.vocals,
            StemLabel::Drums => &self.drums,
            StemLabel::Bass => &self.bass,
            StemLabel::Other => &self.other,
        }
    }
}

/// Path of the per-track stem directory (the directory itself is created by
/// the caller).
pub fn track_dir(root: &str, track: TrackId) -> (res: String)
    ensures
        res@ == track_dir_text(root@, track@),
        ends_with(res@, uuid_text(track@)),
{
    let id = track.to_string();
    proof {
        lemma_uuid_text_plain(track@);
    }
    path_join(root, id.as_str())
}

/// Path of one stem file inside a track directory.
fn stem_file(dir: &str, label: StemLabel) -> (res: String)
    ensures
        res@ == path_join_of(dir@, stem_file_name(label)),
        ends_with(res@, stem_file_name(label)),
{
    proof {
        lemma_stem_file_name_plain(label);
    }
    let name = concat2(label.as_str(), ".flac");
    path_join(dir, name.as_str())
}

/// Build `StemPaths` for a track given the cache root directory.
///
/// Does **not** check whether the files exist.
pub fn stem_paths_for(root: &str, track: TrackId) -> (res: StemPaths)
    ensures
        forall|label: StemLabel| #[trigger]
            res.spec_path_of(label) == stem_file_text(root@, track@, label),
        forall|label: StemLabel| ends_with(#[trigger] res.spec_path_of(label), stem_file_name(label)),
{
    let dir = track_dir(root, track);
    let res = StemPaths {
        vocals: stem_file(dir.as_str(), StemLabel::Vocals),
        drums: stem_file(dir.as_str(), StemLabel::Drums),
        bass: stem_file(dir.as_str(), StemLabel::Bass),
        other: stem_file(dir.as_str(), StemLabel::Other),
    };
    assert forall|label: StemLabel| #[trigger]
        res.spec_path_of(label) == stem_file_text(root@, track@, label) && ends_with(
            res.spec_path_of(label),
            stem_file_name(label),
        ) by {
        match label {
            StemLabel::Vocals => {},
            StemLabel::Drums => {},
            StemLabel::Bass => {},
            StemLabel::Other => {},
        }
    }
    res
}

/// The stem cache directory inside the application's data directory.
pub fn stem_cache_dir(data_dir: &str) -> (res: String)
    ensures
        res@ == path_join_of(path_join_of(data_dir@, "cache"@), "stems"@),
        ends_with(res@, "stems"@),
{
    proof {
        reveal_strlit("stems");
        assert("stems"@.len() == 5);
        assert(forall|i: int| 0 <= i < 5 ==> #[trigger] "stems"@[i] != '/' && "stems"@[i] != '\\'
            && "stems"@[i] != ':');
    }
    let cache = path_join(data_dir, "cache");
    path_join(cache.as_str(), "stems")
}

/// The HTDemucs ONNX model file inside the application's data directory.
pub fn model_file(data_dir: &str) -> (res: String)
    ensures
        res@ == path_join_of(path_join_of(data_dir@, "models"@), "htdemucs.onnx"@),
        ends_with(res@, "htdemucs.onnx"@),
{
    proof {
        reveal_strlit("htdemucs.onnx");
        assert("htdemucs.onnx"@.len() == 13);
        assert(forall|i: int| 0 <= i < 13 ==> #[trigger] "htdemucs.onnx"@[i] != '/'
            && "htdemucs.onnx"@[i] != '\\' && "htdemucs.onnx"@[i] != ':');
    }
    let models = path_join(data_dir, "models");
    path_join(models.as_str(), "htdemucs.onnx")
}

} // verus!

verus! {

/// The four stems are cached under four different file names.
pub proof fn lemma_stem_file_names_distinct(a: StemLabel, b: StemLabel)
    ensures
        a != b ==> stem_file_name(a) != stem_file_name(b),
{
    reveal_strlit(".flac");
    crate::stems::backend::lemma_stem_names_distinct(a, b);
    if a != b && stem_file_name(a) == stem_file_name(b) {
        let na = stem_name(a);
        let nb = stem_name(b);
        assert(stem_file_name(a).len() == na.len() + ".flac"@.len());
        assert(stem_file_name(b).len() == nb.len() + ".flac"@.len());
        assert(na.len() == nb.len());
        assert(stem_file_name(a).subrange(0, na.len() as int) =~= na);
        assert(stem_file_name(b).subrange(0, nb.len() as int) =~= nb);
    }
}

/// The text of a UUID is a plain path component.
proof fn lemma_uuid_text_plain(v: u128)
    ensures
        is_plain_component(uuid_text(v)),
{
    let t = uuid_text(v);
    assert(t.len() == 36);
    assert(t[0] != '.' || t[1] != '.') by {
        assert(t[0] == crate::types::hex_digit(crate::types::nibble(v, 0)));
    }
    assert(t != seq!['.']);
    assert(t != seq!['.', '.']);
    assert forall|i: int| 0 <= i < t.len() implies #[trigger] t[i] != '/' && t[i] != '\\' && t[i]
        != ':' by {
        if !crate::types::is_hyphen_position(i) {
            let n = crate::types::nibble(v, i - crate::types::hyphens_before(i));
            assert(t[i] == crate::types::hex_digit(n));
        }
    }
}

/// The file name of each stem is a plain path component.
proof fn lemma_stem_file_name_plain(label: StemLabel)
    ensures
        is_plain_component(stem_file_name(label)),
{
    reveal_strlit("vocals");
    reveal_strlit("drums");
    reveal_strlit("bass");
    reveal_strlit("other");
    reveal_strlit(".flac");
    let n = stem_file_name(label);
    assert(n.len() > 2);
    assert forall|i: int| 0 <= i < n.len() implies #[trigger] n[i] != '/' && n[i] != '\\' && n[i]
        != ':' by {
        let name = stem_name(label);
        if i < name.len() {
            assert(n[i] == name[i]);
        } else {
            assert(n[i] == ".flac"@[i - name.len()]);
        }
    }
}

} // verus!
