//! Apple Silicon / MLX inference backend.
use vstd::prelude::*;

verus! {

/// Apple Silicon / MLX inference backend.
#[derive(Debug, Clone, Copy, PartialEq, Eq, Structural)]
pub struct MlxBackend;

impl MlxBackend {
    /// Create a new MLX backend instance.
    ///
    /// Does not load model weights yet: weights are loaded lazily on the
    /// first inference.  This keeps app startup fast.
    pub fn new() -> (res: Self)
        ensures
            res == MlxBackend,
    {
        MlxBackend
    }

    /// The short name shown in logs and settings.
    pub fn name(&self) -> (res: &'static str)
        ensures
            res@ == "mlx"@,
    {
        "mlx"
    }
}

impl Default for MlxBackend {
    fn default() -> (res: Self)
        ensures
            res == MlxBackend,
    {
        Self::new()
    }
}

} // verus!
