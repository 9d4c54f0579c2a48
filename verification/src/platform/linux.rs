//! Players on the D-Bus session bus.

pub mod bus;
pub mod metadata;
pub mod playback_status;
pub mod provider;
pub mod variant;
