//! Database schema version and the analysis / stem-cache state columns.
use vstd::prelude::*;

use crate::text::str_eq;

verus! {

/// Schema version this build writes and reads.
pub const CURRENT_VERSION: i64 = 1;

/// Analysis state for beatgrid / key / energy detection.
#[derive(Debug, Clone, Copy, PartialEq, Eq, Structural)]
pub enum AnalysisState {
    /// Just imported, no analysis run yet.
    Raw,
    /// Beatgrid + BPM detected, deeper analysis pending.
    Beatgrid,
    /// All analysis fields populated.
    Full,
    /// Analysis attempted but failed; see the `notes` column for details.
    Failed,
}

/// The text stored in the `analysis_state` column.
pub open spec fn analysis_text(s: AnalysisState) -> Seq<char> {
    match s {
        AnalysisState::Raw => "raw"@,
        AnalysisState::Beatgrid => "beatgrid"@,
        AnalysisState::Full => "full"@,
        AnalysisState::Failed => "failed"@,
    }
}

/// The state read back from an `analysis_state` column: unknown texts read
/// as `Raw`.
pub open spec fn analysis_from_text(t: Seq<char>) -> AnalysisState {
    if t == "beatgrid"@ {
        AnalysisState::Beatgrid
    } else if t == "full"@ {
        AnalysisState::Full
    } else if t == "failed"@ {
        AnalysisState::Failed
    } else {
        AnalysisState::Raw
    }
}

impl AnalysisState {
    pub fn as_str(self) -> (res: &'static str)
        ensures
            res@ == analysis_text(self),
    {
        match self {
            AnalysisState::Raw => "raw",
            AnalysisState::Beatgrid => "beatgrid",
            AnalysisState::Full => "full",
            AnalysisState::Failed => "failed",
        }
    }

    pub fn parse(s: &str) -> (res: Self)
        ensures
            res == analysis_from_text(s@),
    {
        if str_eq(s, "beatgrid") {
            AnalysisState::Beatgrid
        } else if str_eq(s, "full") {
            AnalysisState::Full
        } else if str_eq(s, "failed") {
            AnalysisState::Failed
        } else {
            AnalysisState::Raw
        }
    }
}

/// State of the stem-separation cache for a track.
#[derive(Debug, Clone, Copy, PartialEq, Eq, Structural)]
pub enum StemsState {
    Pending,
    Running,
    Cached,
    Failed,
}

/// The text stored in the `stems_state` column.
pub open spec fn stems_text(s: StemsState) -> Seq<char> {
    match s {
        StemsState::Pending => "pending"@,
        StemsState::Running => "running"@,
        StemsState::Cached => "cached"@,
        StemsState::Failed => "failed"@,
    }
}

/// The state read back from a `stems_state` column: unknown texts read as
/// `Pending`.
pub open spec fn stems_from_text(t: Seq<char>) -> StemsState {
    if t == "running"@ {
        StemsState::Running
    } else if t == "cached"@ {
        StemsState::Cached
    } else if t == "failed"@ {
        StemsState::Failed
    } else {
        StemsState::Pending
    }
}

impl StemsState {
    pub fn as_str(self) -> (res: &'static str)
        ensures
            res@ == stems_text(self),
    {
        match self {
            StemsState::Pending => "pending",
            StemsState::Running => "running",
            StemsState::Cached => "cached",
            StemsState::Failed => "failed",
        }
    }

    pub fn parse(s: &str) -> (res: Self)
        ensures
            res == stems_from_text(s@),
    {
        if str_eq(s, "running") {
            StemsState::Running
        } else if str_eq(s, "cached") {
            StemsState::Cached
        } else if str_eq(s, "failed") {
            StemsState::Failed
        } else {
            StemsState::Pending
        }
    }
}

/// A state written to the database reads back as the same state.
pub proof fn lemma_analysis_state_roundtrip(s: AnalysisState)
    ensures
        analysis_from_text(analysis_text(s)) == s,
{
    reveal_strlit("raw");
    reveal_strlit("beatgrid");
    reveal_strlit("full");
    reveal_strlit("failed");
    assert("raw"@.len() == 3 && "beatgrid"@.len() == 8 && "full"@.len() == 4 && "failed"@.len() == 6);
    assert("raw"@ != "beatgrid"@ && "raw"@ != "full"@ && "raw"@ != "failed"@);
    assert("full"@ != "beatgrid"@ && "failed"@ != "beatgrid"@ && "failed"@ != "full"@);
}

/// A stem-cache state written to the database reads back as the same state.
pub proof fn lemma_stems_state_roundtrip(s: StemsState)
    ensures
        stems_from_text(stems_text(s)) == s,
{
    reveal_strlit("pending");
    reveal_strlit("running");
    reveal_strlit("cached");
    reveal_strlit("failed");
    assert("pending"@[0] != "running"@[0] && "cached"@[0] != "failed"@[0]);
    assert("pending"@.len() == 7 && "running"@.len() == 7 && "cached"@.len() == 6
        && "failed"@.len() == 6);
    assert("pending"@ != "running"@ && "pending"@ != "cached"@ && "pending"@ != "failed"@);
    assert("running"@ != "cached"@ && "running"@ != "failed"@ && "cached"@ != "failed"@);
}

} // verus!

verus! {

/// Milliseconds elapsed since the Unix epoch per the system clock
/// (`SystemTime::now().duration_since(UNIX_EPOCH)`, read with `as_millis`),
/// or `None` when the clock is set before the epoch.  It depends on the
/// time: nothing is stated of it.
#[verifier::external_body]
fn millis_since_epoch() -> Option<u128> {
    std::time::SystemTime::now().duration_since(std::time::UNIX_EPOCH).ok().map(|d| d.as_millis())
}

/// Unix time in milliseconds for a clock reading: the elapsed milliseconds
/// as an `i64` (truncating, as an `as` cast does), or 0 when the clock is
/// before the epoch.
pub fn unix_ms_from(elapsed: Option<u128>) -> (res: i64)
    ensures
        res == (match elapsed {
            Some(ms) => ms as i64,
            None => 0i64,
        }),
{
    match elapsed {
        Some(ms) => ms as i64,
        None => 0,
    }
}

/// Current Unix time in milliseconds.
pub fn now_unix_ms() -> i64 {
    unix_ms_from(millis_since_epoch())
}

} // verus!
