//! Settings groups for PhraseDJ and their built-in defaults.
//!
//! There are two layers: the shipped defaults and the user overrides.  The
//! user layer is merged onto the defaults key by key (see `toml_merge`);
//! every field starts from the defaults given here.
use vstd::prelude::*;

use crate::text::owned;

verus! {

/// Stem separation settings.
#[derive(Debug, Clone)]
pub struct StemsSettings {
    /// AI model to use.  "htdemucs" is the default.
    pub model: String,
    /// Number of stems (4 or 6).
    pub stem_count: u8,
    /// Whether to run analysis automatically on every import.
    pub auto_analyse: bool,
    /// Maximum parallel analysis jobs.
    ///
    /// `0` means "n_performance_cores - 1" (auto), which leaves one core
    /// free for real-time audio playback.
    pub max_parallel_jobs: u8,
}

impl Default for StemsSettings {
    fn default() -> (res: Self)
        ensures
            res.model@ == "htdemucs"@,
            res.stem_count == 4,
            res.auto_analyse,
            res.max_parallel_jobs == 0,
    {
        StemsSettings {
            model: owned("htdemucs"),
            stem_count: 4,
            auto_analyse: true,
            max_parallel_jobs: 0,
        }
    }
}

/// Lyrics settings.
#[derive(Debug, Clone)]
pub struct LyricsSettings {
    /// Allow fetching lyrics from the internet (opt-in).
    pub online_lookup: bool,
    /// Primary online service URL.
    pub online_service_url: String,
    /// Whisper model name for local alignment.
    pub whisper_model: String,
    /// Request timeout for online lookups in seconds.
    pub online_timeout_secs: u64,
}

impl Default for LyricsSettings {
    fn default() -> (res: Self)
        ensures
            !res.online_lookup,
            res.online_service_url@ == "https://lrclib.net/api/get"@,
            res.whisper_model@ == "ggml-base.en"@,
            res.online_timeout_secs == 5,
    {
        LyricsSettings {
            online_lookup: false,
            online_service_url: owned("https://lrclib.net/api/get"),
            whisper_model: owned("ggml-base.en"),
            online_timeout_secs: 5,
        }
    }
}

/// UI display settings.
#[derive(Debug, Clone)]
pub struct UiSettings {
    /// Target display refresh rate for waveform rendering (60 or 120).
    pub target_fps: u32,
    /// Default mode on startup: "classic", "stem", or "macro".
    pub default_mode: String,
}

impl Default for UiSettings {
    fn default() -> (res: Self)
        ensures
            res.target_fps == 60,
            res.default_mode@ == "classic"@,
    {
        UiSettings { target_fps: 60, default_mode: owned("classic") }
    }
}

/// Network and privacy settings.
#[derive(Debug, Clone)]
pub struct NetworkSettings {
    /// Check for updates on startup (opt-in).
    pub update_check: bool,
}

impl Default for NetworkSettings {
    /// Network access is off by default.
    fn default() -> (res: Self)
        ensures
            !res.update_check,
    {
        NetworkSettings { update_check: false }
    }
}

} // verus!
