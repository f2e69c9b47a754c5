//! Lyrics discovery, synchronisation and alignment.
//!
//! The resolution chain is: embedded tags, sidecar `.lrc` files, the local
//! cache, an online lookup, and local Whisper alignment on the vocals stem.
use vstd::prelude::*;

use crate::error::CoreError;
use crate::text::concat2;
use crate::types::{uuid_text, TrackId};

verus! {

/// Where a set of lyrics came from.
#[derive(Debug, Clone, Copy, PartialEq, Eq, Structural)]
pub enum LyricsSource {
    Tag,
    Sidecar,
    Cache,
    Network,
    Whisper,
    Mixed,
}

/// One timed line of lyrics.
#[derive(Debug, Clone)]
pub struct LyricLine {
    pub start_ms: u64,
    pub end_ms: u64,
    pub text: String,
}

/// The lyrics of one track.
#[derive(Debug, Clone)]
pub struct Lyrics {
    pub track_id: TrackId,
    pub source: LyricsSource,
    pub lines: Vec<LyricLine>,
}

/// Options for the lyrics resolver.
#[derive(Debug, Clone, Copy, PartialEq, Eq, Structural)]
pub struct ResolveOptions {
    pub allow_network: bool,
    pub allow_asr: bool,
}

impl Default for ResolveOptions {
    /// Neither network lookups nor speech recognition.
    fn default() -> (res: Self)
        ensures
            !res.allow_network,
            !res.allow_asr,
    {
        ResolveOptions { allow_network: false, allow_asr: false }
    }
}

/// Resolve lyrics for a given track using the priority chain.  No source of
/// the chain is wired in yet, so every track is reported as having none.
pub fn resolve(track: TrackId, options: ResolveOptions) -> (res: Result<Lyrics, CoreError>)
    ensures
        res matches Err(CoreError::Other(m)) && m@ == "Lyrics not found for track "@ + uuid_text(
            track@,
        ),
{
    let id = track.to_string();
    Err(CoreError::Other(concat2("Lyrics not found for track ", id.as_str())))
}

/// Export lyrics to an LRC file.  Nothing is written yet; the export always
/// succeeds.
pub fn export_lrc(lyrics: &Lyrics, dest: &str) -> (res: Result<(), CoreError>)
    ensures
        res is Ok,
{
    Ok(())
}

} // verus!
