//! Decision logic of a small embedded audio player: the track catalog, the
//! shared playback state, the volume control, the gain stage and the audio
//! feed engine, each with a machine-checked contract.

pub mod catalog;
pub mod display;
pub mod encoder;
pub mod engine;
pub mod gain;
pub mod state;
