//! Playback status as MPRIS players tell it.

use vstd::prelude::*;
use zbus::zvariant::Str;

use crate::error::{ErrorModel, MediaSourceError};
use crate::text::{joined, same_text};
use crate::types::PlaybackState;

verus! {

/// [`zbus::zvariant::Str`], read only as text.
#[verifier::external_type_specification]
#[verifier::external_body]
pub struct ExStr<'a>(zbus::zvariant::Str<'a>);

/// The text of a [`Str`].
pub uninterp spec fn str_text(value: &Str<'_>) -> Seq<char>;

/// `Str::as_str` gives the text.
#[verifier::external_body]
fn read_str(value: &Str<'_>) -> (r: String)
    ensures
        r@ == str_text(value),
{
    value.as_str().to_owned()
}

/// The playback status of an MPRIS player.
#[derive(Debug, Clone, Copy, PartialEq, Eq, Structural)]
pub enum MprisPlaybackStatus {
    /// Player is currently playing.
    Playing,
    /// Player is paused.
    Paused,
    /// Player is stopped.
    Stopped,
}

/// The status that a text names.
pub open spec fn status_named(text: Seq<char>) -> Option<MprisPlaybackStatus> {
    if text == "Playing"@ {
        Some(MprisPlaybackStatus::Playing)
    } else if text == "Paused"@ {
        Some(MprisPlaybackStatus::Paused)
    } else if text == "Stopped"@ {
        Some(MprisPlaybackStatus::Stopped)
    } else {
        None
    }
}

/// The error for a text that names no status.
pub open spec fn unknown_status(text: Seq<char>) -> ErrorModel {
    ErrorModel::ParseError("Unknown playback status: "@ + text)
}

impl TryFrom<&str> for MprisPlaybackStatus {
    type Error = MediaSourceError;

    fn try_from(value: &str) -> (r: Result<MprisPlaybackStatus, MediaSourceError>)
        ensures
            match r {
                Ok(status) => status_named(value@) == Some(status),
                Err(e) => status_named(value@) is None && e@ == unknown_status(value@),
            },
    {
        if same_text(value, "Playing") {
            Ok(MprisPlaybackStatus::Playing)
        } else if same_text(value, "Paused") {
            Ok(MprisPlaybackStatus::Paused)
        } else if same_text(value, "Stopped") {
            Ok(MprisPlaybackStatus::Stopped)
        } else {
            Err(MediaSourceError::ParseError(joined("Unknown playback status: ", value)))
        }
    }
}

impl vstd::std_specs::convert::TryFromSpecImpl<&str> for MprisPlaybackStatus {
    open spec fn obeys_try_from_spec() -> bool {
        false
    }

    open spec fn try_from_spec(v: &str) -> Result<MprisPlaybackStatus, MediaSourceError> {
        arbitrary()
    }
}

impl<'a> TryFrom<Str<'a>> for MprisPlaybackStatus {
    type Error = MediaSourceError;

    fn try_from(value: Str<'a>) -> (r: Result<MprisPlaybackStatus, MediaSourceError>)
        ensures
            match r {
                Ok(status) => status_named(str_text(&value)) == Some(status),
                Err(e) => status_named(str_text(&value)) is None && e@ == unknown_status(
                    str_text(&value),
                ),
            },
    {
        MprisPlaybackStatus::try_from(read_str(&value).as_str())
    }
}

impl<'a> vstd::std_specs::convert::TryFromSpecImpl<Str<'a>> for MprisPlaybackStatus {
    open spec fn obeys_try_from_spec() -> bool {
        false
    }

    open spec fn try_from_spec(v: Str<'a>) -> Result<MprisPlaybackStatus, MediaSourceError> {
        arbitrary()
    }
}

/// The playback state that a status stands for.
pub open spec fn state_for(status: MprisPlaybackStatus) -> PlaybackState {
    match status {
        MprisPlaybackStatus::Playing => PlaybackState::Playing,
        MprisPlaybackStatus::Paused => PlaybackState::Paused,
        MprisPlaybackStatus::Stopped => PlaybackState::Stopped,
    }
}

impl From<MprisPlaybackStatus> for PlaybackState {
    fn from(mpris_status: MprisPlaybackStatus) -> (r: PlaybackState) {
        match mpris_status {
            MprisPlaybackStatus::Playing => PlaybackState::Playing,
            MprisPlaybackStatus::Paused => PlaybackState::Paused,
            MprisPlaybackStatus::Stopped => PlaybackState::Stopped,
        }
    }
}

impl vstd::std_specs::convert::FromSpecImpl<MprisPlaybackStatus> for PlaybackState {
    open spec fn obeys_from_spec() -> bool {
        true
    }

    open spec fn from_spec(v: MprisPlaybackStatus) -> PlaybackState {
        state_for(v)
    }
}

/// The three status texts name the three statuses, one each.
pub proof fn status_names()
    ensures
        status_named("Playing"@) == Some(MprisPlaybackStatus::Playing),
        status_named("Paused"@) == Some(MprisPlaybackStatus::Paused),
        status_named("Stopped"@) == Some(MprisPlaybackStatus::Stopped),
{
    reveal_strlit("Playing");
    reveal_strlit("Paused");
    reveal_strlit("Stopped");
    assert("Playing"@[1] != "Paused"@[1]);
    assert("Playing"@[0] != "Stopped"@[0]);
    assert("Paused"@[0] != "Stopped"@[0]);
}

/// No two texts name the same status, and no two statuses stand for the same playback state.
pub proof fn status_names_are_distinct(a: Seq<char>, b: Seq<char>)
    requires
        status_named(a) is Some,
        status_named(b) is Some,
        state_for(status_named(a)->0) == state_for(status_named(b)->0),
    ensures
        a == b,
{
}

/// A text that is none of the three names no status, and each status stands for the playback state
/// of the same name.
pub proof fn only_three_texts_name_a_status(text: Seq<char>)
    ensures
        status_named(text) is None <==> text != "Playing"@ && text != "Paused"@ && text
            != "Stopped"@,
        state_for(MprisPlaybackStatus::Playing) == PlaybackState::Playing,
        state_for(MprisPlaybackStatus::Paused) == PlaybackState::Paused,
        state_for(MprisPlaybackStatus::Stopped) == PlaybackState::Stopped,
        unknown_status(text) matches ErrorModel::ParseError(told) && told
            == "Unknown playback status: "@ + text,
{
}

} // verus!
