//! The queue synchronizer: applies each filesystem notification to the
//! queues of the outputs whose source produced it.

use crate::config::{CosmicBgImgSource, ImgSourceView};
use crate::error::WatchError;
use crate::event::{ChannelEvent, WatchEvent, WatchEventKind};
use crate::queue::{
    after_create, after_remove, drop_named, enqueue_created, law_remove_takes_named_paths,
    newcomers, without,
};
use std::collections::VecDeque;
use vstd::prelude::*;

verus! {

/// The part of an output's runtime state that follows the filesystem: the
/// source it was configured with and its queue of images, next one first.
#[derive(Debug)]
pub struct WallpaperQueue {
    pub source: CosmicBgImgSource,
    pub image_queue: VecDeque<String>,
}

/// A `WallpaperQueue` as plain values.
pub struct WallpaperQueueView {
    pub source: ImgSourceView,
    pub image_queue: Seq<Seq<char>>,
}

impl View for WallpaperQueue {
    type V = WallpaperQueueView;

    open spec fn view(&self) -> WallpaperQueueView {
        WallpaperQueueView { source: self.source@, image_queue: self.image_queue.deep_view() }
    }
}

/// The views of a collection of entries, in order.
pub open spec fn views(entries: Seq<WallpaperQueue>) -> Seq<WallpaperQueueView> {
    entries.map_values(|entry: WallpaperQueue| entry@)
}

/// A queue after an event of the given kind that names `paths`.
pub open spec fn after_event<A>(kind: WatchEventKind, queue: Seq<A>, paths: Seq<A>) -> Seq<A> {
    match kind {
        WatchEventKind::Create => after_create(queue, paths),
        WatchEventKind::Remove => after_remove(queue, paths),
        WatchEventKind::Other => queue,
    }
}

/// An entry after an event tagged with `source`: its queue follows the event
/// if the entry was configured with that very source, and nothing changes
/// otherwise.
pub open spec fn entry_after(
    entry: WallpaperQueueView,
    source: ImgSourceView,
    kind: WatchEventKind,
    paths: Seq<Seq<char>>,
) -> WallpaperQueueView {
    if entry.source == source {
        WallpaperQueueView {
            source: entry.source,
            image_queue: after_event(kind, entry.image_queue, paths),
        }
    } else {
        entry
    }
}

/// All entries after an event tagged with `source`.
pub open spec fn state_after(
    entries: Seq<WallpaperQueueView>,
    source: ImgSourceView,
    kind: WatchEventKind,
    paths: Seq<Seq<char>>,
) -> Seq<WallpaperQueueView> {
    entries.map_values(|entry: WallpaperQueueView| entry_after(entry, source, kind, paths))
}

/// Applies an event tagged with `source` to one entry.
pub fn sync_queue(entry: &mut WallpaperQueue, source: &CosmicBgImgSource, event: &WatchEvent)
    ensures
        final(entry)@ == entry_after(old(entry)@, source@, event.kind, event.paths.deep_view()),
{
    if entry.source == *source {
        match event.kind {
            WatchEventKind::Create => enqueue_created(&mut entry.image_queue, &event.paths),
            WatchEventKind::Remove => drop_named(&mut entry.image_queue, &event.paths),
            WatchEventKind::Other => {},
        }
    }
}

/// Applies an event tagged with `source` to every entry.
pub fn sync_queues(
    wallpapers: &mut Vec<WallpaperQueue>,
    source: &CosmicBgImgSource,
    event: &WatchEvent,
)
    ensures
        views(final(wallpapers)@) == state_after(
            views(old(wallpapers)@),
            source@,
            event.kind,
            event.paths.deep_view(),
        ),
{
    let ghost before = views(wallpapers@);
    let mut i: usize = 0;
    while i < wallpapers.len()
        invariant
            i <= wallpapers.len(),
            wallpapers.len() == before.len(),
            forall|j: int|
                0 <= j < i ==> (#[trigger] wallpapers[j])@ == entry_after(
                    before[j],
                    source@,
                    event.kind,
                    event.paths.deep_view(),
                ),
            forall|j: int| i <= j < wallpapers.len() ==> (#[trigger] wallpapers[j])@ == before[j],
        decreases wallpapers.len() - i,
    {
        sync_queue(&mut wallpapers[i], source, event);
        i += 1;
    }
}

/// Handles what the channel of a watch delivered. A notification is applied
/// to every entry; a closed channel changes nothing and is reported, since
/// the source behind it is no longer tracked.
pub fn dispatch(wallpapers: &mut Vec<WallpaperQueue>, delivered: &ChannelEvent) -> (outcome: Result<
    (),
    WatchError,
>)
    ensures
        match delivered {
            ChannelEvent::Msg(source, event) => {
                &&& outcome == Ok::<(), WatchError>(())
                &&& views(final(wallpapers)@) == state_after(
                    views(old(wallpapers)@),
                    source@,
                    event.kind,
                    event.paths.deep_view(),
                )
            },
            ChannelEvent::Closed => {
                &&& outcome == Err::<(), WatchError>(WatchError::ChannelClosed)
                &&& final(wallpapers)@ == old(wallpapers)@
            },
        },
{
    match delivered {
        ChannelEvent::Msg(source, event) => {
            sync_queues(wallpapers, source, event);
            Ok(())
        },
        ChannelEvent::Closed => Err(WatchError::ChannelClosed),
    }
}

/// A creation event that reports two different paths to an entry with an
/// empty queue leaves the queue holding the second before the first.
pub proof fn law_create_fills_empty_queue(
    entry: WallpaperQueueView,
    first: Seq<char>,
    second: Seq<char>,
)
    requires
        entry.image_queue.len() == 0,
        first != second,
    ensures
        entry_after(entry, entry.source, WatchEventKind::Create, seq![first, second]).image_queue
            == seq![second, first],
{
    let paths = seq![first, second];
    let queue = entry.image_queue;
    let head = paths.drop_last();
    assert(newcomers(queue, head.drop_last()) =~= Seq::<Seq<char>>::empty());
    assert(newcomers(queue, head) =~= seq![first]);
    reveal(Seq::filter);
}

/// No event creates or destroys an entry, or changes the source of one.
pub proof fn law_events_keep_entries(
    entries: Seq<WallpaperQueueView>,
    source: ImgSourceView,
    kind: WatchEventKind,
    paths: Seq<Seq<char>>,
    i: int,
)
    requires
        0 <= i < entries.len(),
    ensures
        state_after(entries, source, kind, paths).len() == entries.len(),
        state_after(entries, source, kind, paths)[i].source == entries[i].source,
{
}

/// An event that is neither a creation nor a removal changes no queue.
pub proof fn law_other_kinds_change_nothing(
    entries: Seq<WallpaperQueueView>,
    source: ImgSourceView,
    paths: Seq<Seq<char>>,
)
    ensures
        state_after(entries, source, WatchEventKind::Other, paths) == entries,
{
    assert(state_after(entries, source, WatchEventKind::Other, paths) =~= entries);
}

/// An event does not change an entry that was configured with another
/// source than the one the event is tagged with.
pub proof fn law_other_sources_untouched(
    entries: Seq<WallpaperQueueView>,
    source: ImgSourceView,
    kind: WatchEventKind,
    paths: Seq<Seq<char>>,
    i: int,
)
    requires
        0 <= i < entries.len(),
        entries[i].source != source,
    ensures
        state_after(entries, source, kind, paths).len() == entries.len(),
        state_after(entries, source, kind, paths)[i] == entries[i],
{
}

/// A removal event takes every path it names out of the queue of every
/// entry configured with its source, wherever the path stood there; what it
/// does not name stays, and entries of other sources stay as they were.
pub proof fn law_remove_drops_named_paths(
    entries: Seq<WallpaperQueueView>,
    source: ImgSourceView,
    paths: Seq<Seq<char>>,
    i: int,
    path: Seq<char>,
)
    requires
        0 <= i < entries.len(),
    ensures
        state_after(entries, source, WatchEventKind::Remove, paths).len() == entries.len(),
        entries[i].source == source && paths.contains(path) ==> !state_after(
            entries,
            source,
            WatchEventKind::Remove,
            paths,
        )[i].image_queue.contains(path),
        entries[i].source == source && !paths.contains(path) ==> (state_after(
            entries,
            source,
            WatchEventKind::Remove,
            paths,
        )[i].image_queue.contains(path) <==> entries[i].image_queue.contains(path)),
        entries[i].source != source ==> state_after(
            entries,
            source,
            WatchEventKind::Remove,
            paths,
        )[i] == entries[i],
{
    law_remove_takes_named_paths(entries[i].image_queue, paths, path);
}

} // verus!
