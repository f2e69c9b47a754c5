//! Decisions of the stem-separation job queue.
//!
//! The queue itself (channels, workers, broadcast of status events) runs in
//! the application.  Every decision it takes lives here: whether a request
//! becomes a new job, whether a dequeued job still runs, how many jobs may run
//! at once, and how a track is cut into overlapping inference windows.
use vstd::prelude::*;
use std::collections::HashSet;

use crate::types::TrackId;

verus! {

broadcast use vstd::std_specs::hash::group_hash_axioms;

// ---------------------------------------------------------------------------
// Idempotent job registry
// ---------------------------------------------------------------------------

/// What the queue does for an enqueue request.
#[derive(Debug, Clone, Copy, PartialEq, Eq, Structural)]
pub enum EnqueueAction {
    /// The stems are already on disk: report them as cached, queue nothing.
    ReportCached,
    /// The track is already pending or running: nothing to do.
    AlreadyQueued,
    /// The track was registered: report it as pending and hand the job to
    /// the worker.
    Submit,
}

/// The registry after an enqueue request for `track`, and what the queue
/// does for it.
pub open spec fn enqueue_step(active: Set<u128>, track: u128, stems_cached: bool) -> (Set<
    u128,
>, EnqueueAction) {
    if stems_cached {
        (active, EnqueueAction::ReportCached)
    } else if active.contains(track) {
        (active, EnqueueAction::AlreadyQueued)
    } else {
        (active.insert(track), EnqueueAction::Submit)
    }
}

/// The tracks whose stem job is pending or running.
pub struct JobRegistry {
    active: HashSet<u128>,
}

impl View for JobRegistry {
    type V = Set<u128>;

    closed spec fn view(&self) -> Set<u128> {
        self.active@
    }
}

impl JobRegistry {
    /// An empty registry.
    pub fn new() -> (res: Self)
        ensures
            res@ == Set::<u128>::empty(),
    {
        JobRegistry { active: HashSet::new() }
    }

    /// Whether the track's job is pending or running.
    pub fn is_active(&self, track: TrackId) -> (res: bool)
        ensures
            res == self@.contains(track@),
    {
        let id = track.as_u128();
        self.active.contains(&id)
    }

    /// Decide an enqueue request.  Idempotent: a track that is already
    /// pending or running gets no second job, and cached stems are reported
    /// without queuing anything.
    pub fn enqueue(&mut self, track: TrackId, stems_cached: bool) -> (action: EnqueueAction)
        ensures
            (final(self)@, action) == enqueue_step(old(self)@, track@, stems_cached),
    {
        if stems_cached {
            return EnqueueAction::ReportCached;
        }
        let id = track.as_u128();
        if self.active.contains(&id) {
            return EnqueueAction::AlreadyQueued;
        }
        self.active.insert(id);
        EnqueueAction::Submit
    }

    /// Cancel a pending or running job.  Returns whether there was one; a
    /// track that was never queued is left alone.
    pub fn cancel(&mut self, track: TrackId) -> (was_active: bool)
        ensures
            final(self)@ == old(self)@.remove(track@),
            was_active == old(self)@.contains(track@),
    {
        let id = track.as_u128();
        self.active.remove(&id)
    }

    /// Whether a dequeued job still runs: it does unless it was cancelled
    /// between enqueue and now.
    pub fn should_process(&self, track: TrackId) -> (proceed: bool)
        ensures
            proceed == self@.contains(track@),
    {
        self.is_active(track)
    }

    /// A job ended (cached or failed): the track is no longer active.
    pub fn finish(&mut self, track: TrackId)
        ensures
            final(self)@ == old(self)@.remove(track@),
    {
        let id = track.as_u128();
        self.active.remove(&id);
    }
}

/// Enqueue is idempotent: a second request for the same track, before its
/// job ends, changes nothing and queues nothing.
pub proof fn lemma_enqueue_idempotent(active: Set<u128>, track: u128)
    ensures
        ({
            let first = enqueue_step(active, track, false);
            let second = enqueue_step(first.0, track, false);
            second.0 == first.0 && second.1 == EnqueueAction::AlreadyQueued
        }),
{
}

/// A track is submitted at most once while it is active: a submission finds
/// the track inactive and leaves it active.
pub proof fn lemma_submit_only_when_inactive(active: Set<u128>, track: u128, cached: bool)
    ensures
        enqueue_step(active, track, cached).1 == EnqueueAction::Submit ==> !active.contains(track)
            && enqueue_step(active, track, cached).0.contains(track),
        enqueue_step(active, track, cached).0.contains(track) == (active.contains(track) || (
        !cached)),
{
}

/// Cached stems never produce a job and never change the registry.
pub proof fn lemma_cached_never_queues(active: Set<u128>, track: u128)
    ensures
        enqueue_step(active, track, true) == (active, EnqueueAction::ReportCached),
{
}

/// A cancelled job is skipped by the worker, and a track whose job ended can
/// be submitted again.
pub proof fn lemma_cancel_then_requeue(active: Set<u128>, track: u128)
    ensures
        !active.remove(track).contains(track),
        enqueue_step(active.remove(track), track, false).1 == EnqueueAction::Submit,
{
}

} // verus!

verus! {

// ---------------------------------------------------------------------------
// Concurrency limit
// ---------------------------------------------------------------------------

/// Number of physical CPU cores of the machine (`num_cpus::get_physical`).
/// It depends on the machine: nothing is stated of it.
#[verifier::external_body]
fn physical_cores() -> usize {
    num_cpus::get_physical()
}

/// The concurrency limit for a setting on a machine with `cores` physical
/// cores: an explicit positive setting wins; otherwise `cores - 1`, leaving
/// one core for the audio callback, and never less than 1.
pub open spec fn concurrency_spec(setting: Option<usize>, cores: usize) -> usize {
    match setting {
        Some(n) if n > 0 => n,
        _ => if cores > 1 {
            (cores - 1) as usize
        } else {
            1
        },
    }
}

/// Effective number of parallel analysis jobs for `setting` on a machine
/// with `cores` physical cores.
pub fn concurrency_for(setting: Option<usize>, cores: usize) -> (res: usize)
    ensures
        res == concurrency_spec(setting, cores),
        res >= 1,
{
    match setting {
        Some(n) if n > 0 => n,
        _ => {
            let free = cores.saturating_sub(1);
            if free > 1 {
                free
            } else {
                1
            }
        },
    }
}

/// The concurrency limit leaves one core for the audio callback: with no
/// explicit setting (or 0) a machine with `cores >= 2` runs `cores - 1`
/// jobs at once and a single-core machine runs one; an explicit positive
/// setting is taken as is.
pub proof fn lemma_concurrency_leaves_one_core(setting: Option<usize>, cores: usize)
    ensures
        (setting is None || setting == Some(0usize)) ==> (cores >= 2 ==> concurrency_spec(
            setting,
            cores,
        ) + 1 == cores) && (cores <= 1 ==> concurrency_spec(setting, cores) == 1),
        setting matches Some(n) ==> (n > 0 ==> concurrency_spec(setting, cores) == n),
        concurrency_spec(setting, cores) >= 1,
{
}

/// Compute the effective number of parallel analysis jobs.
///
/// `None` or `Some(0)` means "physical cores - 1, minimum 1".
pub fn compute_concurrency(setting: Option<usize>) -> (res: usize)
    ensures
        setting matches Some(n) ==> (n > 0 ==> res == n),
        res >= 1,
{
    match setting {
        Some(n) if n > 0 => n,
        _ => concurrency_for(None, physical_cores()),
    }
}

// ---------------------------------------------------------------------------
// Segment planning
// ---------------------------------------------------------------------------

/// Length of one inference window, in seconds.
pub const SEGMENT_SECONDS: usize = 8;

/// Overlap between neighbouring windows, in seconds (blended by the stitcher).
pub const OVERLAP_SECONDS: usize = 1;

/// One inference window: the samples `start..end` of the interleaved buffer.
#[derive(Debug, Clone, Copy, PartialEq, Eq, Structural)]
pub struct SegmentWindow {
    pub start: usize,
    pub end: usize,
}

/// Frames per window at a sample rate.
pub open spec fn segment_frames(sample_rate: int) -> int {
    SEGMENT_SECONDS * sample_rate
}

/// Frames of overlap at a sample rate.
pub open spec fn overlap_frames(sample_rate: int) -> int {
    OVERLAP_SECONDS * sample_rate
}

/// Distance between the starts of neighbouring windows, in frames.
pub open spec fn step_frames(sample_rate: int) -> int {
    segment_frames(sample_rate) - overlap_frames(sample_rate)
}

/// First frame of window `i`.
pub open spec fn window_start_frame(i: int, sample_rate: int) -> int {
    i * step_frames(sample_rate)
}

/// One past the last frame of window `i` of a track of `total` frames.
pub open spec fn window_end_frame(i: int, total: int, sample_rate: int) -> int {
    let e = window_start_frame(i, sample_rate) + segment_frames(sample_rate);
    if e < total {
        e
    } else {
        total
    }
}

/// The windows of a track: window `i` starts `i` steps in and spans one
/// segment, cut at the end of the track; there is one window for every step
/// that starts inside the track.
pub open spec fn is_segment_plan(
    plan: Seq<SegmentWindow>,
    total_frames: int,
    channels: int,
    sample_rate: int,
) -> bool {
    &&& forall|i: int|
        0 <= i < plan.len() ==> #[trigger] plan[i].start == window_start_frame(i, sample_rate)
            * channels && plan[i].end == window_end_frame(i, total_frames, sample_rate) * channels
    &&& forall|i: int| 0 <= i < plan.len() ==> #[trigger] window_start_frame(i, sample_rate) < total_frames
    &&& window_start_frame(plan.len() as int, sample_rate) >= total_frames
}

/// Cut a track of `total_frames` frames into overlapping inference windows:
/// 8-second windows, one second of overlap between neighbours.
pub fn plan_segments(total_frames: usize, channels: u16, sample_rate: u32) -> (res: Vec<SegmentWindow>)
    requires
        sample_rate > 0,
        total_frames * channels <= usize::MAX,
        total_frames + SEGMENT_SECONDS * sample_rate <= usize::MAX,
    ensures
        is_segment_plan(res@, total_frames as int, channels as int, sample_rate as int),
{
    let sr = sample_rate as usize;
    let ch = channels as usize;
    let segment = SEGMENT_SECONDS * sr;
    let overlap = OVERLAP_SECONDS * sr;
    let step = segment - overlap;
    assert(step == step_frames(sample_rate as int));
    let mut plan: Vec<SegmentWindow> = Vec::new();
    let mut offset: usize = 0;
    while offset < total_frames
        invariant
            step == step_frames(sample_rate as int),
            segment == segment_frames(sample_rate as int),
            step > 0,
            sr == sample_rate,
            ch == channels,
            total_frames * ch <= usize::MAX,
            total_frames + segment <= usize::MAX,
            offset == window_start_frame(plan@.len() as int, sample_rate as int),
            offset <= total_frames + step,
            forall|i: int|
                0 <= i < plan@.len() ==> #[trigger] plan@[i].start == window_start_frame(
                    i,
                    sample_rate as int,
                ) * ch && plan@[i].end == window_end_frame(i, total_frames as int, sample_rate as int)
                    * ch,
            forall|i: int|
                0 <= i < plan@.len() ==> #[trigger] window_start_frame(i, sample_rate as int)
                    < total_frames,
        decreases total_frames + step - offset,
    {
        let end = if offset + segment < total_frames {
            offset + segment
        } else {
            total_frames
        };
        assert(offset * ch <= total_frames * ch) by (nonlinear_arith)
            requires
                offset <= total_frames,
        ;
        assert(end * ch <= total_frames * ch) by (nonlinear_arith)
            requires
                end <= total_frames,
        ;
        let window = SegmentWindow { start: offset * ch, end: end * ch };
        let ghost k = plan@.len() as int;
        plan.push(window);
        assert((k + 1) * step == k * step + step) by (nonlinear_arith);
        assert(plan@[k].start == window_start_frame(k, sample_rate as int) * ch);
        offset = offset + step;
    }
    plan
}

/// The windows cover the whole track: the first starts at the first frame,
/// each next one starts one step after the previous one, and the last one
/// ends at the last frame.
pub proof fn lemma_plan_covers_track(
    plan: Seq<SegmentWindow>,
    total_frames: int,
    channels: int,
    sample_rate: int,
)
    requires
        is_segment_plan(plan, total_frames, channels, sample_rate),
        sample_rate > 0,
        total_frames > 0,
    ensures
        plan.len() > 0,
        plan[0].start == 0,
        forall|i: int|
            0 <= i < plan.len() - 1 ==> #[trigger] plan[i + 1].start == plan[i].start
                + step_frames(sample_rate) * channels,
        plan[plan.len() - 1].end == total_frames * channels,
{
    assert(window_start_frame(0, sample_rate) == 0);
    let n = plan.len() as int;
    assert(n > 0);
    assert forall|i: int| 0 <= i < plan.len() - 1 implies #[trigger] plan[i + 1].start
        == plan[i].start + step_frames(sample_rate) * channels by {
        assert(plan[i + 1].start == window_start_frame(i + 1, sample_rate) * channels);
        assert(plan[i].start == window_start_frame(i, sample_rate) * channels);
        assert(window_start_frame(i + 1, sample_rate) * channels == window_start_frame(
            i,
            sample_rate,
        ) * channels + step_frames(sample_rate) * channels) by (nonlinear_arith);
    }
    let last = n - 1;
    assert(plan[last].start == window_start_frame(last, sample_rate) * channels);
    assert(plan[last].end == window_end_frame(last, total_frames, sample_rate) * channels);
    assert(window_start_frame(last, sample_rate) + segment_frames(sample_rate)
        >= window_start_frame(n, sample_rate)) by (nonlinear_arith)
        requires
            sample_rate > 0,
            last == n - 1,
    ;
}

} // verus!
