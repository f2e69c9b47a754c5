//! Whether the stem-separation model file is installed.
use vstd::prelude::*;

verus! {

/// Smallest size, in bytes, of a complete model file; anything smaller is a
/// partial download.
pub const MODEL_MIN_BYTES: u64 = 1_000_000;

/// Check if the model is installed, given the size of the file at the
/// expected path (`None` when there is no such file).
pub fn is_model_installed(file_len: Option<u64>) -> (res: bool)
    ensures
        res == (file_len matches Some(n) && n > MODEL_MIN_BYTES),
{
    match file_len {
        Some(n) => n > MODEL_MIN_BYTES,
        None => false,
    }
}

} // verus!
