//! What can go wrong while watching image sources.

use vstd::prelude::*;

verus! {

/// A failure of the watching session.
#[derive(Debug, Clone, Copy, PartialEq, Eq, Structural)]
pub enum WatchError {
    /// No configured source resolves to a path, so there is nothing to watch.
    NoSources,
    /// The filesystem watch of a source could not be constructed.
    WatcherInit,
    /// The channel of a watch was closed, so its source is no longer tracked.
    ChannelClosed,
}

/// What an error says to the operator.
pub open spec fn message_of(error: WatchError) -> Seq<char> {
    match error {
        WatchError::NoSources => "Nothing to watch"@,
        WatchError::WatcherInit => "Failed to create the watcher"@,
        WatchError::ChannelClosed => "The channel of a watch was closed"@,
    }
}

impl WatchError {
    /// The error in words, for the operator.
    pub fn message(&self) -> (text: String)
        ensures
            text@ == message_of(*self),
    {
        match self {
            WatchError::NoSources => "Nothing to watch".to_owned(),
            WatchError::WatcherInit => "Failed to create the watcher".to_owned(),
            WatchError::ChannelClosed => "The channel of a watch was closed".to_owned(),
        }
    }
}

} // verus!
