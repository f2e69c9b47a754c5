//! The four standard stems and the layout of the audio handed to and taken
//! from an inference backend.
use vstd::prelude::*;

use crate::text::owned;

verus! {

/// Which of the four standard stems a buffer belongs to.
#[derive(Debug, Clone, Copy, PartialEq, Eq, Structural)]
pub enum StemLabel {
    Vocals,
    Drums,
    Bass,
    Other,
}

/// The file-system-safe name of each stem; these names are used as file
/// names in the cache and must stay stable.
pub open spec fn stem_name(label: StemLabel) -> Seq<char> {
    match label {
        StemLabel::Vocals => "vocals"@,
        StemLabel::Drums => "drums"@,
        StemLabel::Bass => "bass"@,
        StemLabel::Other => "other"@,
    }
}

/// Position of each stem in the fixed order vocals, drums, bass, other.
pub open spec fn stem_position(label: StemLabel) -> int {
    match label {
        StemLabel::Vocals => 0,
        StemLabel::Drums => 1,
        StemLabel::Bass => 2,
        StemLabel::Other => 3,
    }
}

impl StemLabel {
    /// The four standard stem labels in a fixed order (used for indexing).
    pub const ALL: [StemLabel; 4] = [StemLabel::Vocals, StemLabel::Drums, StemLabel::Bass, StemLabel::Other];

    /// The file-system-safe name for this stem.
    pub fn as_str(self) -> (res: &'static str)
        ensures
            res@ == stem_name(self),
    {
        match self {
            StemLabel::Vocals => "vocals",
            StemLabel::Drums => "drums",
            StemLabel::Bass => "bass",
            StemLabel::Other => "other",
        }
    }

    /// The name as an owned string (what `Display` shows).
    pub fn to_string(&self) -> (res: String)
        ensures
            res@ == stem_name(*self),
    {
        owned(self.as_str())
    }

    /// Position of this stem in `StemLabel::ALL`.
    pub fn index(self) -> (res: usize)
        ensures
            res == stem_position(self),
    {
        match self {
            StemLabel::Vocals => 0,
            StemLabel::Drums => 1,
            StemLabel::Bass => 2,
            StemLabel::Other => 3,
        }
    }

    /// Index of this stem in the HTDemucs model output, whose native order
    /// is drums, bass, other, vocals.
    pub fn demucs_index(self) -> (res: usize)
        ensures
            res == (stem_position(self) + 3) % 4,
    {
        match self {
            StemLabel::Vocals => 3,
            StemLabel::Drums => 0,
            StemLabel::Bass => 1,
            StemLabel::Other => 2,
        }
    }
}

/// Stem names are pairwise distinct, so the four cache files never collide.
pub proof fn lemma_stem_names_distinct(a: StemLabel, b: StemLabel)
    ensures
        a != b ==> stem_name(a) != stem_name(b),
{
    reveal_strlit("vocals");
    reveal_strlit("drums");
    reveal_strlit("bass");
    reveal_strlit("other");
    if a != b {
        if stem_name(a).len() == stem_name(b).len() {
            assert(stem_name(a)[0] != stem_name(b)[0]);
        }
    }
}

} // verus!

verus! {

// ---------------------------------------------------------------------------
// Sample layouts
// ---------------------------------------------------------------------------

/// Index of (channel, frame) in a planar buffer: all frames of channel 0,
/// then all frames of channel 1, and so on.
pub open spec fn planar_index(channel: int, frame: int, frames: int) -> int {
    channel * frames + frame
}

/// Index of (frame, channel) in an interleaved buffer: for each frame, one
/// sample per channel.
pub open spec fn interleaved_index(frame: int, channel: int, channels: int) -> int {
    frame * channels + channel
}

proof fn lemma_index_bounds(a: int, b: int, na: int, nb: int)
    requires
        0 <= a < na,
        0 <= b < nb,
    ensures
        0 <= a * nb + b < na * nb,
        a * nb + b + 1 <= na * nb,
{
    assert(a * nb + b < (a + 1) * nb) by (nonlinear_arith)
        requires
            0 <= b < nb,
    ;
    assert((a + 1) * nb <= na * nb) by (nonlinear_arith)
        requires
            a + 1 <= na,
            0 <= nb,
    ;
    assert(0 <= a * nb) by (nonlinear_arith)
        requires
            0 <= a,
            0 <= nb,
    ;
}

proof fn lemma_row_before(a: int, b: int, a2: int, nb: int)
    requires
        0 <= a < a2,
        0 <= b < nb,
    ensures
        a * nb + b < a2 * nb,
{
    lemma_index_bounds(a, b, a2, nb);
}

/// Rearrange interleaved samples (`frames` frames of `channels` channels)
/// into planar order, as the model input tensor `[channels, frames]` wants.
pub fn deinterleave<T: Copy>(samples: &Vec<T>, channels: usize, frames: usize) -> (res: Vec<T>)
    requires
        frames * channels <= samples@.len(),
    ensures
        res@.len() == frames * channels,
        forall|c: int, f: int|
            #![trigger planar_index(c, f, frames as int)]
            0 <= c < channels && 0 <= f < frames ==> res@[planar_index(c, f, frames as int)]
                == samples@[interleaved_index(f, c, channels as int)],
{
    let mut out: Vec<T> = Vec::new();
    let total = samples.len();
    let mut c: usize = 0;
    while c < channels
        invariant
            total == samples@.len(),
            frames * channels <= samples@.len(),
            c <= channels,
            out@.len() == c * frames,
            forall|c2: int, f2: int|
                #![trigger planar_index(c2, f2, frames as int)]
                0 <= c2 < c && 0 <= f2 < frames ==> out@[planar_index(c2, f2, frames as int)]
                    == samples@[interleaved_index(f2, c2, channels as int)],
        decreases channels - c,
    {
        let mut f: usize = 0;
        while f < frames
            invariant
                total == samples@.len(),
                frames * channels <= samples@.len(),
                c < channels,
                f <= frames,
                out@.len() == c * frames + f,
                forall|c2: int, f2: int|
                    #![trigger planar_index(c2, f2, frames as int)]
                    0 <= c2 < c && 0 <= f2 < frames ==> out@[planar_index(c2, f2, frames as int)]
                        == samples@[interleaved_index(f2, c2, channels as int)],
                forall|f2: int|
                    0 <= f2 < f ==> out@[#[trigger] planar_index(c as int, f2, frames as int)]
                        == samples@[interleaved_index(f2, c as int, channels as int)],
            decreases frames - f,
        {
            proof {
                lemma_index_bounds(f as int, c as int, frames as int, channels as int);
                assert(f * channels + c < frames * channels);
                assert(f * channels <= f * channels + c);
            }
            let idx = f * channels + c;
            let ghost before = out@;
            out.push(samples[idx]);
            proof {
                assert forall|c2: int, f2: int|
                    #![trigger planar_index(c2, f2, frames as int)]
                    0 <= c2 < c && 0 <= f2 < frames implies out@[planar_index(
                        c2,
                        f2,
                        frames as int,
                    )] == samples@[interleaved_index(f2, c2, channels as int)] by {
                    lemma_row_before(c2, f2, c as int, frames as int);
                    assert(planar_index(c2, f2, frames as int) < before.len());
                }
                assert forall|f2: int|
                    0 <= f2 < f + 1 implies out@[#[trigger] planar_index(
                        c as int,
                        f2,
                        frames as int,
                    )] == samples@[interleaved_index(f2, c as int, channels as int)] by {
                    if f2 < f {
                        assert(planar_index(c as int, f2, frames as int) < before.len());
                    } else {
                        assert(planar_index(c as int, f2, frames as int) == before.len());
                    }
                }
            }
            f = f + 1;
        }
        proof {
            assert((c + 1) * frames == c * frames + frames) by (nonlinear_arith);
        }
        c = c + 1;
    }
    proof {
        assert(channels * frames == frames * channels) by (nonlinear_arith);
    }
    out
}

/// Rearrange the planar block of `channels` x `frames` samples that starts
/// at `offset` in `planar` into interleaved order (one sample per channel
/// for each frame), as a PCM buffer wants.
pub fn interleave<T: Copy>(planar: &Vec<T>, offset: usize, channels: usize, frames: usize) -> (res:
    Vec<T>)
    requires
        offset + channels * frames <= planar@.len(),
    ensures
        res@.len() == frames * channels,
        forall|f: int, c: int|
            #![trigger interleaved_index(f, c, channels as int)]
            0 <= f < frames && 0 <= c < channels ==> res@[interleaved_index(f, c, channels as int)]
                == planar@[offset + planar_index(c, f, frames as int)],
{
    let mut out: Vec<T> = Vec::new();
    let total = planar.len();
    let mut f: usize = 0;
    while f < frames
        invariant
            total == planar@.len(),
            offset + channels * frames <= planar@.len(),
            f <= frames,
            out@.len() == f * channels,
            forall|f2: int, c2: int|
                #![trigger interleaved_index(f2, c2, channels as int)]
                0 <= f2 < f && 0 <= c2 < channels ==> out@[interleaved_index(
                    f2,
                    c2,
                    channels as int,
                )] == planar@[offset + planar_index(c2, f2, frames as int)],
        decreases frames - f,
    {
        let mut c: usize = 0;
        while c < channels
            invariant
                total == planar@.len(),
                offset + channels * frames <= planar@.len(),
                f < frames,
                c <= channels,
                out@.len() == f * channels + c,
                forall|f2: int, c2: int|
                    #![trigger interleaved_index(f2, c2, channels as int)]
                    0 <= f2 < f && 0 <= c2 < channels ==> out@[interleaved_index(
                        f2,
                        c2,
                        channels as int,
                    )] == planar@[offset + planar_index(c2, f2, frames as int)],
                forall|c2: int|
                    0 <= c2 < c ==> out@[#[trigger] interleaved_index(f as int, c2, channels as int)]
                        == planar@[offset + planar_index(c2, f as int, frames as int)],
            decreases channels - c,
        {
            proof {
                lemma_index_bounds(c as int, f as int, channels as int, frames as int);
                assert(c * frames <= c * frames + f);
            }
            let idx = offset + (c * frames + f);
            let ghost before = out@;
            out.push(planar[idx]);
            proof {
                assert forall|f2: int, c2: int|
                    #![trigger interleaved_index(f2, c2, channels as int)]
                    0 <= f2 < f && 0 <= c2 < channels implies out@[interleaved_index(
                        f2,
                        c2,
                        channels as int,
                    )] == planar@[offset + planar_index(c2, f2, frames as int)] by {
                    lemma_row_before(f2, c2, f as int, channels as int);
                    assert(interleaved_index(f2, c2, channels as int) < before.len());
                }
                assert forall|c2: int|
                    0 <= c2 < c + 1 implies out@[#[trigger] interleaved_index(
                        f as int,
                        c2,
                        channels as int,
                    )] == planar@[offset + planar_index(c2, f as int, frames as int)] by {
                    if c2 < c {
                        assert(interleaved_index(f as int, c2, channels as int) < before.len());
                    } else {
                        assert(interleaved_index(f as int, c2, channels as int) == before.len());
                    }
                }
            }
            c = c + 1;
        }
        proof {
            assert((f + 1) * channels == f * channels + channels) by (nonlinear_arith);
        }
        f = f + 1;
    }
    out
}

/// Where the planar block of one stem starts in the model output, whose
/// shape is `[1, 4, channels, frames]` in the model's stem order.
pub fn stem_block_offset(label: StemLabel, channels: usize, frames: usize) -> (res: usize)
    requires
        4 * (channels * frames) <= usize::MAX,
    ensures
        res == ((stem_position(label) + 3) % 4) * (channels * frames),
        res + channels * frames <= 4 * (channels * frames),
{
    let block = channels * frames;
    let k = label.demucs_index();
    proof {
        assert(k * block + block <= 4 * block) by (nonlinear_arith)
            requires
                k <= 3,
                block >= 0,
        ;
    }
    k * block
}

} // verus!

verus! {

/// Number of frames (time steps) in an interleaved buffer of `sample_count`
/// samples with `channels` channels.
pub fn frames_in(sample_count: usize, channels: u16) -> (res: usize)
    requires
        channels > 0,
    ensures
        res == sample_count / (channels as usize),
{
    sample_count / (channels as usize)
}

} // verus!
