//! The application status shown in the status bar.
use vstd::prelude::*;

verus! {

/// Status payload returned to the UI on startup.
#[derive(Debug, Clone)]
pub struct AppStatus {
    pub version: String,
    pub audio_running: bool,
    pub library_count: i64,
}

/// The status from what could be probed: the audio engine's running flag
/// (`None` when there is no engine or it cannot be reached) and the track
/// count (`None` when the library cannot be queried).  What cannot be probed
/// shows as not running / zero tracks.
pub fn app_status(version: String, audio_running: Option<bool>, library_count: Option<i64>) -> (res:
    AppStatus)
    ensures
        res.version == version,
        res.audio_running == (audio_running == Some(true)),
        res.library_count == (match library_count {
            Some(n) => n,
            None => 0,
        }),
{
    let running = match audio_running {
        Some(r) => r,
        None => false,
    };
    let count = match library_count {
        Some(n) => n,
        None => 0,
    };
    AppStatus { version, audio_running: running, library_count: count }
}

} // verus!
