//! The builder of media sources.

use vstd::prelude::*;

verus! {

/// Builder for creating a media source for the current platform.
#[derive(Debug, PartialEq, Eq, Structural)]
pub struct MediaSourceBuilder {}

impl MediaSourceBuilder {
    /// Creates a new builder instance.
    #[must_use]
    pub fn new() -> (r: MediaSourceBuilder)
        ensures
            r == (MediaSourceBuilder {  }),
    {
        MediaSourceBuilder {  }
    }
}

impl Default for MediaSourceBuilder {
    /// Creates a new builder using the default configuration, as [`MediaSourceBuilder::new`] does.
    fn default() -> (r: MediaSourceBuilder)
        ensures
            r == (MediaSourceBuilder {  }),
    {
        MediaSourceBuilder::new()
    }
}

} // verus!
