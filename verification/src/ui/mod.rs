//! The decisions and the text of the user interface.

pub mod elements;
pub mod plot;
pub mod sampler;
