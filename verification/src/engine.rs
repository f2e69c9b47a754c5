//! Safe decisions around the native audio engine: configuration, deck and
//! stem index validation, input checks, and the mapping of engine result
//! codes to typed errors.  The engine itself is a native library driven by
//! the application.
use vstd::prelude::*;

use crate::error::CoreError;
use crate::text::owned;

verus! {

// ---------------------------------------------------------------------------
// Native interface types
// ---------------------------------------------------------------------------

/// Opaque engine handle; the actual structure lives in the native engine.
pub struct PdjEngine {
    _private: [u8; 0],
}

/// Engine configuration passed to the native constructor.
#[derive(Debug, Clone, Copy, PartialEq, Eq, Structural)]
pub struct PdjEngineConfig {
    pub sample_rate: u32,
    pub buffer_size: u32,
    pub channel_count: u32,
}

/// Result codes returned by fallible engine functions (0 to 4 on the native
/// side, in this order).
#[derive(Debug, Clone, Copy, PartialEq, Eq, Structural)]
pub enum PdjResult {
    Success,
    InvalidArg,
    NotReady,
    Io,
    Internal,
}

// ---------------------------------------------------------------------------
// Public types
// ---------------------------------------------------------------------------

/// Errors raised by the bridge.
#[derive(Debug, Clone, Copy, PartialEq, Eq, Structural)]
pub enum BridgeError {
    /// The engine could not be created (no audio device, bad config).
    CreateFailed,
    /// A function argument was invalid (e.g. deck index out of range).
    InvalidArg,
    /// File loading or seeking failed.
    Io,
    /// An unexpected internal error.
    Internal,
    /// A path could not be converted to a C string (contains a NUL byte).
    BadPath,
}

/// The human-readable message of each bridge error.
pub open spec fn bridge_message(e: BridgeError) -> Seq<char> {
    match e {
        BridgeError::CreateFailed => "failed to create audio engine"@,
        BridgeError::InvalidArg => "invalid argument"@,
        BridgeError::Io => "I/O error from engine"@,
        BridgeError::Internal => "engine internal error"@,
        BridgeError::BadPath => "invalid path: contains NUL byte"@,
    }
}

impl BridgeError {
    /// The human-readable message of this error.
    pub fn message(&self) -> (res: String)
        ensures
            res@ == bridge_message(*self),
    {
        let s = match self {
            BridgeError::CreateFailed => "failed to create audio engine",
            BridgeError::InvalidArg => "invalid argument",
            BridgeError::Io => "I/O error from engine",
            BridgeError::Internal => "engine internal error",
            BridgeError::BadPath => "invalid path: contains NUL byte",
        };
        owned(s)
    }
}

impl vstd::std_specs::convert::FromSpecImpl<BridgeError> for CoreError {
    open spec fn obeys_from_spec() -> bool {
        false
    }

    open spec fn from_spec(v: BridgeError) -> CoreError {
        CoreError::Other(arbitrary())
    }
}

impl From<BridgeError> for CoreError {
    /// A bridge error becomes an `Other` error carrying its message.
    fn from(e: BridgeError) -> (res: CoreError)
        ensures
            res matches CoreError::Other(m) && m@ == bridge_message(e),
    {
        CoreError::Other(e.message())
    }
}

/// Configuration for engine creation.
#[derive(Debug, Clone, Copy, PartialEq, Eq, Structural)]
pub struct EngineConfig {
    pub sample_rate: u32,
    pub buffer_size: u32,
    pub channel_count: u32,
}

impl Default for EngineConfig {
    /// 44.1 kHz, 128-frame buffers, stereo.
    fn default() -> (res: Self)
        ensures
            res == (EngineConfig { sample_rate: 44_100, buffer_size: 128, channel_count: 2 }),
    {
        EngineConfig { sample_rate: 44_100, buffer_size: 128, channel_count: 2 }
    }
}

impl EngineConfig {
    /// The configuration as the native constructor takes it.
    pub fn to_native(&self) -> (res: PdjEngineConfig)
        ensures
            res.sample_rate == self.sample_rate,
            res.buffer_size == self.buffer_size,
            res.channel_count == self.channel_count,
    {
        PdjEngineConfig {
            sample_rate: self.sample_rate,
            buffer_size: self.buffer_size,
            channel_count: self.channel_count,
        }
    }
}

// ---------------------------------------------------------------------------
// Checks
// ---------------------------------------------------------------------------

/// Highest valid deck index (two decks: 0 and 1).
pub const MAX_DECK_INDEX: u32 = 1;

/// Number of stems per deck whose gain can be set.
pub const STEM_COUNT: u32 = 4;

/// Accept deck indices 0 and 1, reject every other index.
pub fn check_deck(deck: u32) -> (res: Result<(), BridgeError>)
    ensures
        deck <= MAX_DECK_INDEX ==> res is Ok,
        deck > MAX_DECK_INDEX ==> res == Err::<(), BridgeError>(BridgeError::InvalidArg),
{
    if deck > MAX_DECK_INDEX {
        return Err(BridgeError::InvalidArg);
    }
    Ok(())
}

/// Map an engine result code to the bridge's result.
pub fn check_result(r: PdjResult) -> (res: Result<(), BridgeError>)
    ensures
        res == (match r {
            PdjResult::Success => Ok(()),
            PdjResult::InvalidArg => Err(BridgeError::InvalidArg),
            PdjResult::Io => Err(BridgeError::Io),
            PdjResult::NotReady => Err(BridgeError::Internal),
            PdjResult::Internal => Err(BridgeError::Internal),
        }),
{
    match r {
        PdjResult::Success => Ok(()),
        PdjResult::InvalidArg => Err(BridgeError::InvalidArg),
        PdjResult::Io => Err(BridgeError::Io),
        PdjResult::NotReady | PdjResult::Internal => Err(BridgeError::Internal),
    }
}

/// Whether a stem index addresses one of the four stems of a deck.
pub fn is_valid_stem(stem: u32) -> (res: bool)
    ensures
        res == (stem < STEM_COUNT),
{
    stem < STEM_COUNT
}

/// For tempo sync of `deck`: the deck whose BPM it follows (the other one).
pub fn sync_partner(deck: u32) -> (res: Result<u32, BridgeError>)
    ensures
        deck <= MAX_DECK_INDEX ==> res == Ok::<u32, BridgeError>((1 - deck) as u32),
        deck > MAX_DECK_INDEX ==> res == Err::<u32, BridgeError>(BridgeError::InvalidArg),
{
    match check_deck(deck) {
        Ok(()) => Ok(1 - deck),
        Err(e) => Err(e),
    }
}

/// The fewest interleaved stereo samples BPM analysis of `frame_count`
/// frames needs (twice the frame count, saturating).
pub open spec fn needed_samples(frame_count: u64) -> usize {
    (if frame_count * 2 > u64::MAX {
        u64::MAX as int
    } else {
        frame_count * 2
    }) as usize
}

/// BPM analysis needs two interleaved samples per frame.
pub fn check_analysis_input(sample_count: usize, frame_count: u64) -> (res: Result<(), BridgeError>)
    ensures
        sample_count >= needed_samples(frame_count) ==> res is Ok,
        sample_count < needed_samples(frame_count) ==> res == Err::<(), BridgeError>(
            BridgeError::InvalidArg,
        ),
{
    let doubled: u64 = if frame_count > u64::MAX / 2 {
        u64::MAX
    } else {
        frame_count * 2
    };
    let needed = doubled as usize;
    if sample_count < needed {
        return Err(BridgeError::InvalidArg);
    }
    Ok(())
}

} // verus!
