//! The controller of an audio player's playback session: which file is loaded,
//! the single sink that plays it, the metadata probed once per load, and the
//! elapsed time and progress that a display polls.

pub mod duration_text;
pub mod laws;
pub mod metadata;
pub mod progress;
pub mod session;
