//! Recording into and playback from a sample, step by step.

pub mod play;
pub mod record;
