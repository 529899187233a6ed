//! The core of a single-voice waveform synthesizer: the note table, the wave
//! parameters and their hand-off to the render path.

pub mod channel;
pub mod config;
pub mod control;
pub mod notes;
pub mod tuning;
pub mod waves;

pub use crate::notes::Note;
