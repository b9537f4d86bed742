//! Core logic of a small stereo sampler: recording and playback of
//! waves, the event state machine that drives them, MIDI message
//! handling and the text the user interface shows.

pub mod atom_event;
pub mod dsp;
pub mod error;
pub mod jackmidi;
pub mod jackprocess;
pub mod mockup;
pub mod outside;
pub mod text;
pub mod ui;
pub mod wave;
pub mod wave_handler;
pub mod wave_commands;
pub mod wave_manager;
