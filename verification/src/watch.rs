//! The filesystem watch registry: which sources get a watch, on which path,
//! and the order of the steps that set each watch up.

use crate::config::{CosmicBgImgSource, ImgSourceView};
use crate::error::WatchError;
use crate::source::{resolved, text_of};
use vstd::prelude::*;

verus! {

/// A source that resolved, with the path to watch for it. Every event of
/// the watch is tagged with `source`.
#[derive(Debug)]
pub struct WatchTarget {
    pub source: CosmicBgImgSource,
    pub path: String,
}

/// A `WatchTarget` as plain values.
pub struct WatchTargetView {
    pub source: ImgSourceView,
    pub path: Seq<char>,
}

impl View for WatchTarget {
    type V = WatchTargetView;

    open spec fn view(&self) -> WatchTargetView {
        WatchTargetView { source: self.source@, path: self.path@ }
    }
}

/// The views of a list of sources, in order.
pub open spec fn source_views(sources: Seq<CosmicBgImgSource>) -> Seq<ImgSourceView> {
    sources.map_values(|source: CosmicBgImgSource| source@)
}

/// The views of a list of targets, in order.
pub open spec fn target_views(targets: Seq<WatchTarget>) -> Seq<WatchTargetView> {
    targets.map_values(|target: WatchTarget| target@)
}

/// Whether a source resolves to a path.
pub open spec fn resolves(
    source: ImgSourceView,
    pictures_override: Option<Seq<char>>,
    user_pictures: Option<Seq<char>>,
) -> bool {
    resolved(source, pictures_override, user_pictures) is Some
}

/// The target of a source that resolves: the source itself, and its path.
pub open spec fn target_of(
    source: ImgSourceView,
    pictures_override: Option<Seq<char>>,
    user_pictures: Option<Seq<char>>,
) -> WatchTargetView {
    WatchTargetView { source, path: resolved(source, pictures_override, user_pictures).unwrap() }
}

/// The targets of a list of sources: one for each source that resolves, in
/// the order of the sources, whether or not two of them resolve to the same
/// path.
pub open spec fn targets_of(
    sources: Seq<ImgSourceView>,
    pictures_override: Option<Seq<char>>,
    user_pictures: Option<Seq<char>>,
) -> Seq<WatchTargetView> {
    sources.filter(|source: ImgSourceView| resolves(source, pictures_override, user_pictures))
        .map_values(|source: ImgSourceView| target_of(source, pictures_override, user_pictures))
}

/// One source more adds its target if it resolves, and nothing if not.
proof fn lemma_targets_of_push(
    sources: Seq<ImgSourceView>,
    source: ImgSourceView,
    pictures_override: Option<Seq<char>>,
    user_pictures: Option<Seq<char>>,
)
    ensures
        targets_of(sources.push(source), pictures_override, user_pictures) == if resolves(
            source,
            pictures_override,
            user_pictures,
        ) {
            targets_of(sources, pictures_override, user_pictures).push(
                target_of(source, pictures_override, user_pictures),
            )
        } else {
            targets_of(sources, pictures_override, user_pictures)
        },
{
    sources.lemma_filter_push(
        source,
        |source: ImgSourceView| resolves(source, pictures_override, user_pictures),
    );
}

/// An empty list of sources has no targets, and no list has more targets
/// than sources.
pub proof fn law_targets_are_bounded(
    sources: Seq<ImgSourceView>,
    pictures_override: Option<Seq<char>>,
    user_pictures: Option<Seq<char>>,
)
    ensures
        targets_of(sources, pictures_override, user_pictures).len() <= sources.len(),
        targets_of(Seq::empty(), pictures_override, user_pictures).len() == 0,
{
    sources.lemma_filter_len(
        |source: ImgSourceView| resolves(source, pictures_override, user_pictures),
    );
    Seq::<ImgSourceView>::empty().lemma_filter_len(
        |source: ImgSourceView| resolves(source, pictures_override, user_pictures),
    );
}

/// Every target carries one of the listed sources, which is the tag of the
/// events of its watch, and the path that this source resolves to.
pub proof fn law_targets_come_from_sources(
    sources: Seq<ImgSourceView>,
    pictures_override: Option<Seq<char>>,
    user_pictures: Option<Seq<char>>,
    i: int,
)
    requires
        0 <= i < targets_of(sources, pictures_override, user_pictures).len(),
    ensures
        sources.contains(targets_of(sources, pictures_override, user_pictures)[i].source),
        resolved(
            targets_of(sources, pictures_override, user_pictures)[i].source,
            pictures_override,
            user_pictures,
        ) == Some(targets_of(sources, pictures_override, user_pictures)[i].path),
{
    let wanted = |source: ImgSourceView| resolves(source, pictures_override, user_pictures);
    let kept = sources.filter(wanted);
    sources.lemma_filter_pred(wanted, i);
    sources.lemma_filter_contains_rev(wanted, kept[i]);
}

/// Every source that resolves has a target.
pub proof fn law_resolving_sources_have_targets(
    sources: Seq<ImgSourceView>,
    pictures_override: Option<Seq<char>>,
    user_pictures: Option<Seq<char>>,
    i: int,
)
    requires
        0 <= i < sources.len(),
        resolves(sources[i], pictures_override, user_pictures),
    ensures
        targets_of(sources, pictures_override, user_pictures).contains(
            target_of(sources[i], pictures_override, user_pictures),
        ),
{
    let wanted = |source: ImgSourceView| resolves(source, pictures_override, user_pictures);
    let kept = sources.filter(wanted);
    sources.lemma_filter_contains(wanted, i);
    let k = choose|k: int| 0 <= k < kept.len() && kept[k] == sources[i];
    assert(targets_of(sources, pictures_override, user_pictures)[k] == target_of(
        sources[i],
        pictures_override,
        user_pictures,
    ));
}

/// Resolves every source and lists the targets to watch. Sources that do
/// not resolve are left out; if none is left there is nothing to watch.
pub fn watch_targets(
    sources: &Vec<CosmicBgImgSource>,
    pictures_override: Option<&str>,
    user_pictures: Option<&str>,
) -> (outcome: Result<Vec<WatchTarget>, WatchError>)
    ensures
        match outcome {
            Ok(targets) => {
                &&& targets.len() > 0
                &&& target_views(targets@) == targets_of(
                    source_views(sources@),
                    text_of(pictures_override),
                    text_of(user_pictures),
                )
            },
            Err(error) => {
                &&& error == WatchError::NoSources
                &&& targets_of(
                    source_views(sources@),
                    text_of(pictures_override),
                    text_of(user_pictures),
                ).len() == 0
            },
        },
{
    let ghost over = text_of(pictures_override);
    let ghost user = text_of(user_pictures);
    let ghost all = source_views(sources@);
    let mut targets: Vec<WatchTarget> = Vec::new();
    let mut i: usize = 0;
    proof {
        reveal(Seq::filter);
    }
    while i < sources.len()
        invariant
            i <= sources.len(),
            over == text_of(pictures_override),
            user == text_of(user_pictures),
            all == source_views(sources@),
            target_views(targets@) == targets_of(all.take(i as int), over, user),
        decreases sources.len() - i,
    {
        proof {
            assert(all.take(i + 1) =~= all.take(i as int).push(all[i as int]));
            lemma_targets_of_push(all.take(i as int), all[i as int], over, user);
        }
        if let Some(path) = sources[i].resolve(pictures_override, user_pictures) {
            targets.push(WatchTarget { source: sources[i].clone(), path });
        }
        i += 1;
    }
    assert(all.take(sources.len() as int) =~= all);
    if targets.len() == 0 {
        Err(WatchError::NoSources)
    } else {
        Ok(targets)
    }
}

/// What a path names on disk.
#[derive(Debug, Clone, Copy, PartialEq, Eq, Structural)]
pub enum PathKind {
    /// A directory.
    Directory,
    /// A regular file.
    File,
    /// Nothing, or something that is neither a directory nor a regular file.
    Other,
}

/// How deep a watch reaches.
#[derive(Debug, Clone, Copy, PartialEq, Eq, Structural)]
pub enum WatchMode {
    /// The path and everything below it.
    Recursive,
    /// The path alone.
    NonRecursive,
}

/// The watch that a path of the given kind gets, if it gets one.
pub open spec fn mode_for(kind: PathKind) -> Option<WatchMode> {
    match kind {
        PathKind::Directory => Some(WatchMode::Recursive),
        PathKind::File => Some(WatchMode::NonRecursive),
        PathKind::Other => None,
    }
}

/// Chooses the watch for a path: a directory is watched with everything
/// below it, a regular file alone, and anything else not at all.
pub fn watch_mode(kind: PathKind) -> (mode: Option<WatchMode>)
    ensures
        mode == mode_for(kind),
{
    match kind {
        PathKind::Directory => Some(WatchMode::Recursive),
        PathKind::File => Some(WatchMode::NonRecursive),
        PathKind::Other => None,
    }
}

/// What the driver of a watching session has to do next. The number in a
/// step is the position of the target that the step is about.
#[derive(Debug, Clone, Copy, PartialEq, Eq, Structural)]
pub enum SetupStep {
    /// Open the channel of the target and construct its watcher.
    CreateWatcher(usize),
    /// Find out what the path of the target names.
    Inspect(usize),
    /// Put the watch on the path of the target.
    Watch(usize, WatchMode),
    /// Register the channel of the target with the event loop.
    Register(usize),
    /// Every target is set up.
    Done,
    /// Setup was given up.
    Failed(WatchError),
}

/// What the driver reports back after a step.
#[derive(Debug, Clone, Copy, PartialEq, Eq, Structural)]
pub enum SetupEvent {
    /// The watcher was constructed.
    WatcherCreated,
    /// The watcher could not be constructed.
    WatcherFailed,
    /// The path was looked at.
    Inspected(PathKind),
    /// The watch was asked for; whether it took hold does not matter.
    Watched,
    /// The channel was handed to the event loop.
    Registered,
}

/// The step that follows `step` once the driver reports `event`, with
/// `count` targets in all. A watcher that cannot be constructed ends the
/// setup; a path that is neither directory nor file gets no watch; an event
/// that does not answer the step changes nothing.
pub open spec fn next_step(step: SetupStep, event: SetupEvent, count: nat) -> SetupStep {
    match (step, event) {
        (SetupStep::CreateWatcher(i), SetupEvent::WatcherCreated) => SetupStep::Inspect(i),
        (SetupStep::CreateWatcher(_), SetupEvent::WatcherFailed) => SetupStep::Failed(
            WatchError::WatcherInit,
        ),
        (SetupStep::Inspect(i), SetupEvent::Inspected(kind)) => match mode_for(kind) {
            Some(mode) => SetupStep::Watch(i, mode),
            None => SetupStep::Register(i),
        },
        (SetupStep::Watch(i, _), SetupEvent::Watched) => SetupStep::Register(i),
        (SetupStep::Register(i), SetupEvent::Registered) => if i + 1 < count {
            SetupStep::CreateWatcher((i + 1) as usize)
        } else {
            SetupStep::Done
        },
        _ => step,
    }
}

/// The position of the target that a step is about.
pub open spec fn target_index(step: SetupStep) -> Option<usize> {
    match step {
        SetupStep::CreateWatcher(i) => Some(i),
        SetupStep::Inspect(i) => Some(i),
        SetupStep::Watch(i, _) => Some(i),
        SetupStep::Register(i) => Some(i),
        SetupStep::Done => None,
        SetupStep::Failed(_) => None,
    }
}

/// Whether a step is about one of `count` targets, or about none.
pub open spec fn step_in_range(step: SetupStep, count: nat) -> bool {
    match target_index(step) {
        Some(i) => i < count,
        None => true,
    }
}

/// The most events that can still be accepted from `step` on.
pub open spec fn steps_left(step: SetupStep, count: nat) -> int {
    match step {
        SetupStep::CreateWatcher(i) => 4 * (count - i),
        SetupStep::Inspect(i) => 4 * (count - i) - 1,
        SetupStep::Watch(i, _) => 4 * (count - i) - 2,
        SetupStep::Register(i) => 4 * (count - i) - 3,
        SetupStep::Done => 0,
        SetupStep::Failed(_) => 0,
    }
}

/// The setup of a watching session: the targets, and the step that the
/// driver has to take next. The targets are worked off one after the other,
/// in order.
#[derive(Debug)]
pub struct WatchSetup {
    targets: Vec<WatchTarget>,
    step: SetupStep,
}

/// A `WatchSetup` as plain values.
pub struct WatchSetupView {
    pub targets: Seq<WatchTargetView>,
    pub step: SetupStep,
}

impl View for WatchSetup {
    type V = WatchSetupView;

    closed spec fn view(&self) -> WatchSetupView {
        WatchSetupView { targets: target_views(self.targets@), step: self.step }
    }
}

impl WatchSetup {
    #[verifier::type_invariant]
    spec fn in_range(self) -> bool {
        step_in_range(self.step, self.targets@.len())
    }

    /// Plans the watches for the configured sources. There is one target
    /// for each source that resolves, and the first step is to construct
    /// the watcher of the first target. If no source resolves, the list
    /// being empty included, there is nothing to watch.
    pub fn plan(
        sources: &Vec<CosmicBgImgSource>,
        pictures_override: Option<&str>,
        user_pictures: Option<&str>,
    ) -> (outcome: Result<WatchSetup, WatchError>)
        ensures
            match outcome {
                Ok(setup) => {
                    &&& setup@.targets.len() > 0
                    &&& setup@.targets == targets_of(
                        source_views(sources@),
                        text_of(pictures_override),
                        text_of(user_pictures),
                    )
                    &&& setup@.step == SetupStep::CreateWatcher(0)
                },
                Err(error) => {
                    &&& error == WatchError::NoSources
                    &&& targets_of(
                        source_views(sources@),
                        text_of(pictures_override),
                        text_of(user_pictures),
                    ).len() == 0
                },
            },
    {
        match watch_targets(sources, pictures_override, user_pictures) {
            Ok(targets) => Ok(WatchSetup { targets, step: SetupStep::CreateWatcher(0) }),
            Err(error) => Err(error),
        }
    }

    /// The step that the driver has to take next.
    pub fn pending(&self) -> (step: SetupStep)
        ensures
            step == self@.step,
            step_in_range(step, self@.targets.len()),
    {
        proof {
            use_type_invariant(self);
        }
        self.step
    }

    /// The target that the pending step is about; none once the setup is
    /// done or has failed.
    pub fn target(&self) -> (target: Option<&WatchTarget>)
        ensures
            match target_index(self@.step) {
                Some(i) => {
                    &&& i < self@.targets.len()
                    &&& target matches Some(found)
                    &&& found@ == self@.targets[i as int]
                },
                None => target is None,
            },
    {
        proof {
            use_type_invariant(self);
        }
        match self.step {
            SetupStep::CreateWatcher(i) => Some(&self.targets[i]),
            SetupStep::Inspect(i) => Some(&self.targets[i]),
            SetupStep::Watch(i, _) => Some(&self.targets[i]),
            SetupStep::Register(i) => Some(&self.targets[i]),
            SetupStep::Done => None,
            SetupStep::Failed(_) => None,
        }
    }

    /// Takes note of what the driver reports and moves on to the next step.
    pub fn advance(&mut self, event: SetupEvent)
        ensures
            final(self)@.targets == old(self)@.targets,
            final(self)@.step == next_step(old(self)@.step, event, old(self)@.targets.len()),
    {
        proof {
            use_type_invariant(&*self);
        }
        let count = self.targets.len();
        let next = match (self.step, event) {
            (SetupStep::CreateWatcher(i), SetupEvent::WatcherCreated) => SetupStep::Inspect(i),
            (SetupStep::CreateWatcher(_), SetupEvent::WatcherFailed) => SetupStep::Failed(
                WatchError::WatcherInit,
            ),
            (SetupStep::Inspect(i), SetupEvent::Inspected(kind)) => match watch_mode(kind) {
                Some(mode) => SetupStep::Watch(i, mode),
                None => SetupStep::Register(i),
            },
            (SetupStep::Watch(i, _), SetupEvent::Watched) => SetupStep::Register(i),
            (SetupStep::Register(i), SetupEvent::Registered) => if i + 1 < count {
                SetupStep::CreateWatcher(i + 1)
            } else {
                SetupStep::Done
            },
            (step, _) => step,
        };
        self.step = next;
    }
}

/// Every event either leaves the step as it is or brings the setup closer
/// to its end, and the step stays about one of the targets: with `count`
/// targets, as many as a list can hold, no more than four times `count`
/// events are accepted.
pub proof fn law_setup_makes_progress(step: SetupStep, event: SetupEvent, count: nat)
    requires
        count <= usize::MAX,
        step_in_range(step, count),
    ensures
        step_in_range(next_step(step, event, count), count),
        0 <= steps_left(next_step(step, event, count), count) <= steps_left(step, count) <= 4
            * count,
        next_step(step, event, count) != step ==> steps_left(next_step(step, event, count), count)
            < steps_left(step, count),
{
}

/// A setup that is done or has failed stays so, whatever is reported.
pub proof fn law_setup_end_is_final(step: SetupStep, event: SetupEvent, count: nat)
    requires
        target_index(step) is None,
    ensures
        next_step(step, event, count) == step,
{
}

} // verus!
