//! Which of the supported players are running.

use vstd::prelude::*;

verus! {

/// Bundle identifier of Music.app (formerly iTunes).
pub const MUSIC_BUNDLE_ID: &'static str = "com.apple.Music";

/// Bundle identifier of the Spotify desktop client.
pub const SPOTIFY_BUNDLE_ID: &'static str = "com.spotify.client";

/// Which supported players currently have a running process.
///
/// A `false` field means the app is not running, so it must not be queried: touching an app that
/// is not running would launch it.
#[derive(Clone, Copy, Debug, PartialEq, Eq, Structural)]
pub struct RunningPlayers {
    pub music: bool,
    pub spotify: bool,
}

/// Tells which supported players are running, from the number of running processes with the
/// bundle identifier of each.
pub fn running_players(music_processes: usize, spotify_processes: usize) -> (r: RunningPlayers)
    ensures
        r.music == (music_processes > 0),
        r.spotify == (spotify_processes > 0),
{
    RunningPlayers {
        music: is_running(music_processes),
        spotify: is_running(spotify_processes),
    }
}

/// Returns `true` when at least one process is running.
fn is_running(processes: usize) -> (r: bool)
    ensures
        r == (processes > 0),
{
    processes != 0
}

} // verus!
