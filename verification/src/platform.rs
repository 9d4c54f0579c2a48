//! The logic of the platform backends.
//!
//! - `linux`: players on the D-Bus session bus (MPRIS)
//! - `macos`: Music.app and Spotify, polled
//! - `windows`: sessions of the Windows Media Control API
//! - `state`: snapshots of a player and the events between two of them

pub mod linux;
pub mod macos;
pub mod state;
pub mod windows;
