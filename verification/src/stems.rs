//! Stem separation: the four standard stems, cache layout, job-queue
//! decisions, segment planning and overlap-add bookkeeping.

pub mod backend;
pub mod events;
pub mod mlx;
pub mod model;
pub mod paths;
pub mod queue;
pub mod stitch;
