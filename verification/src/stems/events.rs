//! Decisions taken on the stream of stem status events.
//!
//! The service publishes `(track, status)` events on a broadcast channel.
//! Two loops in the application listen to it: one forwards every event to
//! the user interface, one waits for a single track to finish.  Each receive
//! gives one `StatusEvent`; what the loop does with it is decided here.
use vstd::prelude::*;

use crate::types::TrackId;

verus! {

/// The kind of a stem status, without its payload.
#[derive(Debug, Clone, Copy, PartialEq, Eq, Structural)]
pub enum StatusKind {
    /// The job waits in the queue.
    Pending,
    /// The analysis runs.
    Running,
    /// All four stem files are cached on disk.
    Cached,
    /// The analysis failed.
    Failed,
}

/// The name under which a status is shown to the user interface.
pub open spec fn status_name(k: StatusKind) -> Seq<char> {
    match k {
        StatusKind::Pending => "pending"@,
        StatusKind::Running => "running"@,
        StatusKind::Cached => "cached"@,
        StatusKind::Failed => "failed"@,
    }
}

impl StatusKind {
    /// The name under which this status is shown to the user interface.
    pub fn as_str(self) -> (res: &'static str)
        ensures
            res@ == status_name(self),
    {
        match self {
            StatusKind::Pending => "pending",
            StatusKind::Running => "running",
            StatusKind::Cached => "cached",
            StatusKind::Failed => "failed",
        }
    }

    /// Whether a job in this status has ended.
    pub fn is_terminal(self) -> (res: bool)
        ensures
            res == (self is Cached || self is Failed),
    {
        match self {
            StatusKind::Cached | StatusKind::Failed => true,
            _ => false,
        }
    }
}

/// What one receive from the status channel gave.
#[derive(Debug, Clone, Copy, PartialEq, Eq, Structural)]
pub enum StatusEvent {
    /// A status event for a track.
    Status(TrackId, StatusKind),
    /// The channel is closed: no event will come any more.
    Closed,
    /// The receiver fell behind and events were lost.
    Overflowed,
}

/// What the forwarding loop does with an event.
#[derive(Debug, Clone, Copy, PartialEq, Eq, Structural)]
pub enum ForwardStep {
    /// Emit the event to the user interface.
    Emit,
    /// Stop forwarding: the channel is closed.
    Stop,
    /// Nothing to emit; the interface catches up on its next poll.
    Skip,
}

/// The forwarding loop emits every status event, stops when the channel
/// closes and skips over lost events.
pub fn forward_step(event: StatusEvent) -> (res: ForwardStep)
    ensures
        res == (match event {
            StatusEvent::Status(_, _) => ForwardStep::Emit,
            StatusEvent::Closed => ForwardStep::Stop,
            StatusEvent::Overflowed => ForwardStep::Skip,
        }),
{
    match event {
        StatusEvent::Status(_, _) => ForwardStep::Emit,
        StatusEvent::Closed => ForwardStep::Stop,
        StatusEvent::Overflowed => ForwardStep::Skip,
    }
}

/// What waiting for one track does with an event.
#[derive(Debug, Clone, Copy, PartialEq, Eq, Structural)]
pub enum WaitStep {
    /// The track's stems are cached: return their paths.
    Done,
    /// The track's analysis failed: return its reason as the error.
    Fail,
    /// The channel closed before the track ended: give up with an error.
    GiveUp,
    /// Events were lost: look on disk whether the stems are there.
    CheckCache,
    /// Keep waiting.
    KeepWaiting,
}

/// The step of waiting for `track` on an event: only a terminal status of
/// that very track ends the wait; a closed channel gives up; lost events
/// send the waiter to look on disk; anything else keeps it waiting.
pub open spec fn wait_step_spec(track: TrackId, event: StatusEvent) -> WaitStep {
    match event {
        StatusEvent::Status(t, k) => if t == track && k is Cached {
            WaitStep::Done
        } else if t == track && k is Failed {
            WaitStep::Fail
        } else {
            WaitStep::KeepWaiting
        },
        StatusEvent::Closed => WaitStep::GiveUp,
        StatusEvent::Overflowed => WaitStep::CheckCache,
    }
}

/// Decide what waiting for `track` does with an event.
pub fn wait_step(track: TrackId, event: StatusEvent) -> (res: WaitStep)
    ensures
        res == wait_step_spec(track, event),
{
    match event {
        StatusEvent::Status(t, k) => {
            if t == track {
                match k {
                    StatusKind::Cached => WaitStep::Done,
                    StatusKind::Failed => WaitStep::Fail,
                    _ => WaitStep::KeepWaiting,
                }
            } else {
                WaitStep::KeepWaiting
            }
        },
        StatusEvent::Closed => WaitStep::GiveUp,
        StatusEvent::Overflowed => WaitStep::CheckCache,
    }
}

/// Waiting ends on a status event exactly when it is a terminal status of
/// the awaited track: events of other tracks, and non-terminal statuses,
/// never end it.
pub proof fn lemma_wait_ends_only_on_own_terminal(track: TrackId, t: TrackId, k: StatusKind)
    ensures
        (wait_step_spec(track, StatusEvent::Status(t, k)) is KeepWaiting) <==> !(t == track && (
        k is Cached || k is Failed)),
{
}

} // verus!
