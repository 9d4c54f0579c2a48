//! Core of a cross-platform monitor for media playback.
//!
//! The modules hold what the backends of Linux, macOS and Windows decide and compute: which
//! players there are, what is told of them, and which events follow from what was read. Talking to
//! the operating system is left to the caller, who hands in what was read and carries out what is
//! decided.

pub mod error;
pub mod number;
pub mod platform;
pub mod source;
pub mod text;
pub mod time;
pub mod types;
pub mod watcher;

pub use error::MediaSourceError;
pub use source::MediaSourceBuilder;
pub use types::{MediaEvent, PlaybackState, PlayerInfo, Track};
