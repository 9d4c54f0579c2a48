//! Playback status as Windows Media Control tells it.

use vstd::prelude::*;

use crate::types::PlaybackState;

verus! {

/// The playback status of a media session.
#[derive(Debug, Clone, Copy, PartialEq, Eq, Structural)]
pub enum WinPlaybackStatus {
    /// The media is closed.
    Closed,
    /// The media is opened.
    Opened,
    /// The media is changing.
    Changing,
    /// The media is stopped.
    Stopped,
    /// The media is playing.
    Playing,
    /// The media is paused.
    Paused,
    /// A status without a name, by its number.
    Other(i32),
}

/// The playback state that a status stands for: all but playing and paused count as stopped.
pub open spec fn state_shown(status: WinPlaybackStatus) -> PlaybackState {
    match status {
        WinPlaybackStatus::Playing => PlaybackState::Playing,
        WinPlaybackStatus::Paused => PlaybackState::Paused,
        _ => PlaybackState::Stopped,
    }
}

/// The playback state that a status stands for.
pub fn parse_playback_status(status: WinPlaybackStatus) -> (r: PlaybackState)
    ensures
        r == state_shown(status),
{
    match status {
        WinPlaybackStatus::Playing => PlaybackState::Playing,
        WinPlaybackStatus::Paused => PlaybackState::Paused,
        _ => PlaybackState::Stopped,
    }
}

/// Playing shows as playing and paused as paused; every other status, named or not, as stopped.
pub proof fn statuses_show_as_states(status: WinPlaybackStatus)
    ensures
        state_shown(status) == PlaybackState::Playing <==> status == WinPlaybackStatus::Playing,
        state_shown(status) == PlaybackState::Paused <==> status == WinPlaybackStatus::Paused,
        state_shown(status) == PlaybackState::Stopped <==> status != WinPlaybackStatus::Playing
            && status != WinPlaybackStatus::Paused,
{
}

} // verus!
