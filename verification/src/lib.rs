//! The logic of a voice-channel feeder: a bot that joins a voice channel and
//! plays a pre-encoded OGG Opus file on demand, driven through a small HTTP
//! control API.
//!
//! * [`state`]: the feeder's state machine (idle, joined, playing).
//! * [`error`]: the errors of the control API, their status and their body.
//! * [`control`]: the decision behind each endpoint.
//! * [`audio`]: the startup check on the audio file.
//! * [`config`]: the settings taken from the environment.
//! * [`laws`]: what holds of all of these together.
//! * [`promises`]: what each operation promises of its results.
//!
//! Everything here is free of I/O. A request is served in steps: one function
//! looks at the state and says what is to be done, the caller does it, and a
//! second function takes the outcome and says how the feeder goes on.
pub mod audio;
pub mod config;
pub mod control;
pub mod error;
pub mod laws;
pub mod promises;
pub mod state;

pub use audio::{check_audio_file, require_audio_file_exists, AudioFormat};
pub use error::FeederError;
pub use state::{AppState, FeederState};
