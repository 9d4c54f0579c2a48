//! Following the media sessions of Windows.

pub mod monitor;
pub mod playback_status;
pub mod provider;
pub mod track;
