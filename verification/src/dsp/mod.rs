//! The audio data the sampler holds.

pub mod sample;
