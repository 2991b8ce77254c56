//! What a watch delivers to the event loop.

use crate::config::CosmicBgImgSource;
use vstd::prelude::*;

verus! {

/// The kind of a filesystem notification, as far as rotation queues care.
#[derive(Debug, Clone, Copy, PartialEq, Eq, Structural)]
pub enum WatchEventKind {
    /// Files or directories came into being.
    Create,
    /// Files or directories went away.
    Remove,
    /// Anything else: a rename, a modification, an access.
    Other,
}

/// One batched filesystem notification: its kind and the paths it affects,
/// in the order in which the filesystem reported them.
#[derive(Debug)]
pub struct WatchEvent {
    pub kind: WatchEventKind,
    pub paths: Vec<String>,
}

/// What the channel of one watch hands to the event loop.
#[derive(Debug)]
pub enum ChannelEvent {
    /// A notification, tagged with the source whose watch produced it.
    Msg(CosmicBgImgSource, WatchEvent),
    /// The sending side is gone.
    Closed,
}

} // verus!
