//! The builder of media watchers.

use vstd::prelude::*;

verus! {

/// Builder for creating a media watcher for the current platform.
#[derive(Debug, PartialEq, Eq, Structural)]
pub struct MediaWatcherBuilder {}

impl MediaWatcherBuilder {
    /// Creates a new builder instance.
    #[must_use]
    pub fn new() -> (r: MediaWatcherBuilder)
        ensures
            r == (MediaWatcherBuilder {  }),
    {
        MediaWatcherBuilder {  }
    }
}

impl Default for MediaWatcherBuilder {
    /// Creates a new builder using the default configuration, as [`MediaWatcherBuilder::new`] does.
    fn default() -> (r: MediaWatcherBuilder)
        ensures
            r == (MediaWatcherBuilder {  }),
    {
        MediaWatcherBuilder::new()
    }
}

} // verus!
