//! Overlap-add bookkeeping for stitching inference windows together.
//!
//! Each new window is cross-faded with the tail of what was accumulated so
//! far.  The fade itself works on samples; this module decides where the
//! blend starts, how long it is, and how long the result grows.
use vstd::prelude::*;

use crate::stems::queue::{
    is_segment_plan, overlap_frames, segment_frames, step_frames, window_end_frame,
    window_start_frame, SegmentWindow,
};

verus! {

/// Overlap length in samples for an overlap given in frames.
pub fn overlap_samples(overlap_frames: usize, channels: u16) -> (res: usize)
    requires
        overlap_frames * channels <= usize::MAX,
    ensures
        res == overlap_frames * channels,
{
    overlap_frames * (channels as usize)
}

/// Where one window is blended into the accumulated stem.
#[derive(Debug, Clone, Copy, PartialEq, Eq, Structural)]
pub struct BlendPlan {
    /// First accumulated sample that is cross-faded.
    pub start: usize,
    /// Number of samples cross-faded (accumulated tail and window head).
    pub len: usize,
}

/// The blend for a window of `new_len` samples added to `acc_len`
/// accumulated samples: the first window is appended as is; later ones blend
/// `min(overlap, acc_len, new_len)` samples at the end of the accumulation.
pub open spec fn blend_spec(acc_len: int, new_len: int, overlap: int) -> (int, int) {
    if acc_len == 0 {
        (0, 0)
    } else {
        let l = if overlap <= acc_len && overlap <= new_len {
            overlap
        } else if acc_len <= new_len {
            acc_len
        } else {
            new_len
        };
        (acc_len - l, l)
    }
}

/// Plan the blend of a window of `new_len` samples onto `acc_len`
/// accumulated samples, with `overlap` samples of cross-fade.
pub fn plan_blend(acc_len: usize, new_len: usize, overlap: usize) -> (res: BlendPlan)
    ensures
        (res.start as int, res.len as int) == blend_spec(acc_len as int, new_len as int, overlap as int),
        res.start + res.len == acc_len,
        res.len <= new_len,
        res.len <= overlap || acc_len == 0,
{
    if acc_len == 0 {
        return BlendPlan { start: 0, len: 0 };
    }
    let mut l = overlap;
    if acc_len < l {
        l = acc_len;
    }
    if new_len < l {
        l = new_len;
    }
    BlendPlan { start: acc_len - l, len: l }
}

/// Add one window to an accumulated stem according to a blend plan: the
/// accumulation keeps its samples before the blend, the blended part takes
/// the cross-faded samples `blended` (computed by the caller from the
/// accumulated tail and the window's head), and the window's samples after
/// the blended part are appended.
pub fn stitch_segment<T: Copy>(acc: &mut Vec<T>, new: &Vec<T>, blended: &Vec<T>, plan: BlendPlan)
    requires
        plan.start + plan.len == old(acc)@.len(),
        plan.len <= new@.len(),
        blended@.len() == plan.len,
    ensures
        final(acc)@ == old(acc)@.subrange(0, plan.start as int) + blended@ + new@.subrange(
            plan.len as int,
            new@.len() as int,
        ),
        final(acc)@.len() == old(acc)@.len() + new@.len() - plan.len,
{
    let ghost before = acc@;
    let n = acc.len();
    assert(n == plan.start + plan.len);
    let mut i: usize = 0;
    while i < plan.len
        invariant
            plan.start + plan.len == before.len(),
            plan.start + plan.len <= usize::MAX,
            blended@.len() == plan.len,
            i <= plan.len,
            acc@.len() == before.len(),
            forall|k: int| 0 <= k < plan.start ==> #[trigger] acc@[k] == before[k],
            forall|k: int| 0 <= k < i ==> #[trigger] acc@[plan.start + k] == blended@[k],
        decreases plan.len - i,
    {
        acc.set(plan.start + i, blended[i]);
        i = i + 1;
    }
    assert forall|k: int| plan.start <= k < before.len() implies #[trigger] acc@[k] == blended@[k
        - plan.start] by {
        assert(acc@[plan.start + (k - plan.start)] == blended@[k - plan.start]);
    }
    assert(acc@ =~= before.subrange(0, plan.start as int) + blended@);
    let ghost head = acc@;
    let mut j: usize = plan.len;
    while j < new.len()
        invariant
            plan.len <= j <= new@.len(),
            acc@ == head + new@.subrange(plan.len as int, j as int),
        decreases new@.len() - j,
    {
        acc.push(new[j]);
        assert(new@.subrange(plan.len as int, j + 1) =~= new@.subrange(plan.len as int, j as int).push(
            new@[j as int],
        ));
        j = j + 1;
    }
}

/// Length of the accumulation after the window is added: the blended part
/// is shared, the rest of the window is appended.
pub open spec fn stitched_len(acc_len: int, new_len: int, overlap: int) -> int {
    acc_len + new_len - blend_spec(acc_len, new_len, overlap).1
}

/// Without overlap, stitching concatenates: the lengths add up.
pub proof fn lemma_no_overlap_concatenates(acc_len: nat, new_len: nat)
    ensures
        stitched_len(acc_len as int, new_len as int, 0) == acc_len + new_len,
{
}

/// Stitching never loses samples of the window beyond the overlap and never
/// shrinks the accumulation.
pub proof fn lemma_stitched_len_bounds(acc_len: nat, new_len: nat, overlap: nat)
    ensures
        stitched_len(acc_len as int, new_len as int, overlap as int) >= acc_len,
        stitched_len(acc_len as int, new_len as int, overlap as int) >= new_len,
        stitched_len(acc_len as int, new_len as int, overlap as int) >= acc_len + new_len - overlap,
{
}

} // verus!

verus! {

/// Length of the accumulation after the windows are stitched one after the
/// other, each window contributing as many samples as it spans.
pub open spec fn stitched_total(windows: Seq<SegmentWindow>, overlap: int) -> int
    decreases windows.len(),
{
    if windows.len() == 0 {
        0
    } else {
        stitched_len(
            stitched_total(windows.drop_last(), overlap),
            windows.last().end - windows.last().start,
            overlap,
        )
    }
}

/// After the first `k` windows of a plan, the accumulation is exactly as long
/// as the track up to the end of window `k - 1`.
proof fn lemma_stitched_prefix(
    plan: Seq<SegmentWindow>,
    total_frames: int,
    channels: int,
    sample_rate: int,
    k: int,
)
    requires
        is_segment_plan(plan, total_frames, channels, sample_rate),
        sample_rate > 0,
        channels > 0,
        1 <= k <= plan.len(),
    ensures
        stitched_total(plan.take(k), overlap_frames(sample_rate) * channels) == window_end_frame(
            k - 1,
            total_frames,
            sample_rate,
        ) * channels,
    decreases k,
{
    let ch = channels;
    let sr = sample_rate;
    let o = overlap_frames(sr) * ch;
    let pk = plan.take(k);
    assert(pk.drop_last() =~= plan.take(k - 1));
    assert(pk.last() == plan[k - 1]);
    let i = k - 1;
    let s = step_frames(sr);
    let g = segment_frames(sr);
    let v = overlap_frames(sr);
    assert(s == 7 * sr && g == 8 * sr && v == sr);
    let b = window_start_frame(i, sr);
    let e = window_end_frame(i, total_frames, sr);
    assert(plan[i].start == b * ch && plan[i].end == e * ch);
    assert(b < total_frames);
    assert(b >= 0) by (nonlinear_arith)
        requires
            b == i * s,
            i >= 0,
            s > 0,
    ;
    assert(e - b > 0);
    let len = plan[i].end - plan[i].start;
    assert(len == (e - b) * ch) by (nonlinear_arith)
        requires
            len == e * ch - b * ch,
    ;
    if k == 1 {
        assert(pk.drop_last().len() == 0);
        assert(b == 0) by (nonlinear_arith)
            requires
                b == i * s,
                i == 0,
        ;
        assert(len == e * ch);
        assert(stitched_total(pk.drop_last(), o) == 0);
        assert(stitched_len(0, len, o) == len);
    } else {
        lemma_stitched_prefix(plan, total_frames, channels, sample_rate, k - 1);
        let a = window_start_frame(i - 1, sr);
        assert(b == a + s) by (nonlinear_arith)
            requires
                b == i * s,
                a == (i - 1) * s,
        ;
        let acc = window_end_frame(i - 1, total_frames, sr) * ch;
        assert(stitched_total(pk.drop_last(), o) == acc);
        if a + g >= total_frames {
            assert(acc == total_frames * ch);
            assert(e == total_frames);
            assert(e - b <= v);
            assert(len <= o) by (nonlinear_arith)
                requires
                    len == (e - b) * ch,
                    e - b <= v,
                    o == v * ch,
                    ch > 0,
            ;
            assert(len <= acc && acc > 0) by (nonlinear_arith)
                requires
                    len == (e - b) * ch,
                    acc == total_frames * ch,
                    0 < e - b <= total_frames,
                    ch > 0,
            ;
            assert(stitched_len(acc, len, o) == acc);
        } else {
            assert(acc == (a + g) * ch);
            assert(e - b >= v);
            assert(len >= o) by (nonlinear_arith)
                requires
                    len == (e - b) * ch,
                    e - b >= v,
                    o == v * ch,
                    ch > 0,
            ;
            assert(acc >= o && acc > 0) by (nonlinear_arith)
                requires
                    acc == (a + g) * ch,
                    a + g >= v,
                    v > 0,
                    o == v * ch,
                    ch > 0,
            ;
            assert(acc + len - o == e * ch) by (nonlinear_arith)
                requires
                    acc == (a + g) * ch,
                    len == (e - b) * ch,
                    o == v * ch,
                    b == a + s,
                    g - s - v == 0,
            ;
            assert(stitched_len(acc, len, o) == e * ch);
        }
    }
}

/// Stitching gives back a track of the original length: the windows of a
/// segment plan, cross-faded with the plan's one-second overlap, add up to
/// exactly `total_frames * channels` samples.
pub proof fn lemma_stitching_restores_track_length(
    plan: Seq<SegmentWindow>,
    total_frames: int,
    channels: int,
    sample_rate: int,
)
    requires
        is_segment_plan(plan, total_frames, channels, sample_rate),
        total_frames >= 0,
        sample_rate > 0,
        channels > 0,
    ensures
        stitched_total(plan, overlap_frames(sample_rate) * channels) == total_frames * channels,
{
    let n = plan.len() as int;
    if n == 0 {
        assert(window_start_frame(0, sample_rate) == 0);
        assert(total_frames == 0);
    } else {
        lemma_stitched_prefix(plan, total_frames, channels, sample_rate, n);
        assert(plan.take(n) =~= plan);
        let last = n - 1;
        assert(window_start_frame(last, sample_rate) + segment_frames(sample_rate)
            >= window_start_frame(n, sample_rate)) by (nonlinear_arith)
            requires
                sample_rate > 0,
                last == n - 1,
        ;
        assert(window_end_frame(last, total_frames, sample_rate) == total_frames);
    }
}

} // verus!
