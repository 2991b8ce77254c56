use cosmic_bg::config::CosmicBgImgSource;
use cosmic_bg::error::WatchError;
use cosmic_bg::watch::{
    watch_mode, watch_targets, PathKind, SetupEvent, SetupStep, WatchMode, WatchSetup,
};

fn dir(path: &str) -> CosmicBgImgSource {
    CosmicBgImgSource::Path(path.to_string())
}

fn planned(sources: &[CosmicBgImgSource]) -> WatchSetup {
    match WatchSetup::plan(&sources.to_vec(), None, None) {
        Ok(setup) => setup,
        Err(error) => panic!("nothing to watch: {:?}", error),
    }
}

#[test]
fn setup_with_no_sources_has_nothing_to_watch() {
    assert_eq!(watch_targets(&Vec::new(), None, None).err(), Some(WatchError::NoSources));
    assert_eq!(
        watch_targets(&Vec::new(), Some("/home/u/Pictures"), None).err(),
        Some(WatchError::NoSources)
    );
    assert_eq!(WatchSetup::plan(&Vec::new(), None, None).err(), Some(WatchError::NoSources));
}

#[test]
fn setup_with_only_unresolvable_sources_has_nothing_to_watch() {
    let sources = vec![CosmicBgImgSource::Wallpapers, CosmicBgImgSource::Wallpapers];
    assert_eq!(watch_targets(&sources, None, None).err(), Some(WatchError::NoSources));
    assert_eq!(WatchSetup::plan(&sources, None, None).err(), Some(WatchError::NoSources));
}

#[test]
fn targets_keep_the_order_and_the_source_they_came_from() {
    let sources = vec![dir("/b"), CosmicBgImgSource::Wallpapers, dir("/a")];
    let targets = watch_targets(&sources, None, Some("/home/u/Pictures")).unwrap();
    assert_eq!(targets.len(), 3);
    assert_eq!(targets[0].source, dir("/b"));
    assert_eq!(targets[0].path, "/b");
    assert_eq!(targets[1].source, CosmicBgImgSource::Wallpapers);
    assert_eq!(targets[1].path, "/home/u/Pictures/Wallpapers");
    assert_eq!(targets[2].source, dir("/a"));
    assert_eq!(targets[2].path, "/a");
}

#[test]
fn unresolvable_source_is_left_out_and_the_rest_stay_paired() {
    let sources = vec![CosmicBgImgSource::Wallpapers, dir("/a"), CosmicBgImgSource::Wallpapers, dir("/b")];
    let targets = watch_targets(&sources, None, None).unwrap();
    assert_eq!(targets.len(), 2);
    assert_eq!(targets[0].source, dir("/a"));
    assert_eq!(targets[0].path, "/a");
    assert_eq!(targets[1].source, dir("/b"));
    assert_eq!(targets[1].path, "/b");
}

#[test]
fn sources_with_the_same_path_each_get_a_target() {
    let sources = vec![dir("/pics/Wallpapers"), CosmicBgImgSource::Wallpapers, dir("/pics/Wallpapers")];
    let targets = watch_targets(&sources, Some("/pics"), None).unwrap();
    assert_eq!(targets.len(), 3);
    assert_eq!(targets[0].path, "/pics/Wallpapers");
    assert_eq!(targets[1].path, "/pics/Wallpapers");
    assert_eq!(targets[2].path, "/pics/Wallpapers");
    assert_eq!(targets[1].source, CosmicBgImgSource::Wallpapers);
}

#[test]
fn directories_are_watched_recursively_files_alone_and_the_rest_not() {
    assert_eq!(watch_mode(PathKind::Directory), Some(WatchMode::Recursive));
    assert_eq!(watch_mode(PathKind::File), Some(WatchMode::NonRecursive));
    assert_eq!(watch_mode(PathKind::Other), None);
}

#[test]
fn setup_walks_through_every_target_in_order() {
    let mut setup = planned(&[dir("/a"), dir("/b/file.png"), dir("/missing")]);
    assert_eq!(setup.pending(), SetupStep::CreateWatcher(0));
    assert_eq!(setup.target().unwrap().path, "/a");
    setup.advance(SetupEvent::WatcherCreated);
    assert_eq!(setup.pending(), SetupStep::Inspect(0));
    setup.advance(SetupEvent::Inspected(PathKind::Directory));
    assert_eq!(setup.pending(), SetupStep::Watch(0, WatchMode::Recursive));
    setup.advance(SetupEvent::Watched);
    assert_eq!(setup.pending(), SetupStep::Register(0));
    assert_eq!(setup.target().unwrap().source, dir("/a"));
    setup.advance(SetupEvent::Registered);

    assert_eq!(setup.pending(), SetupStep::CreateWatcher(1));
    assert_eq!(setup.target().unwrap().path, "/b/file.png");
    setup.advance(SetupEvent::WatcherCreated);
    setup.advance(SetupEvent::Inspected(PathKind::File));
    assert_eq!(setup.pending(), SetupStep::Watch(1, WatchMode::NonRecursive));
    setup.advance(SetupEvent::Watched);
    setup.advance(SetupEvent::Registered);

    assert_eq!(setup.pending(), SetupStep::CreateWatcher(2));
    setup.advance(SetupEvent::WatcherCreated);
    assert_eq!(setup.pending(), SetupStep::Inspect(2));
    setup.advance(SetupEvent::Inspected(PathKind::Other));
    assert_eq!(setup.pending(), SetupStep::Register(2));
    assert_eq!(setup.target().unwrap().path, "/missing");
    setup.advance(SetupEvent::Registered);

    assert_eq!(setup.pending(), SetupStep::Done);
    assert!(setup.target().is_none());
}

#[test]
fn watcher_that_cannot_be_constructed_ends_the_setup() {
    let mut setup = planned(&[dir("/a"), dir("/b")]);
    setup.advance(SetupEvent::WatcherCreated);
    setup.advance(SetupEvent::Inspected(PathKind::Directory));
    setup.advance(SetupEvent::Watched);
    setup.advance(SetupEvent::Registered);
    assert_eq!(setup.pending(), SetupStep::CreateWatcher(1));
    setup.advance(SetupEvent::WatcherFailed);
    assert_eq!(setup.pending(), SetupStep::Failed(WatchError::WatcherInit));
    assert!(setup.target().is_none());
    setup.advance(SetupEvent::WatcherCreated);
    setup.advance(SetupEvent::Registered);
    assert_eq!(setup.pending(), SetupStep::Failed(WatchError::WatcherInit));
}

#[test]
fn event_that_does_not_answer_the_step_changes_nothing() {
    let mut setup = planned(&[dir("/a")]);
    setup.advance(SetupEvent::Registered);
    setup.advance(SetupEvent::Watched);
    setup.advance(SetupEvent::Inspected(PathKind::File));
    assert_eq!(setup.pending(), SetupStep::CreateWatcher(0));
    setup.advance(SetupEvent::WatcherCreated);
    setup.advance(SetupEvent::WatcherFailed);
    setup.advance(SetupEvent::WatcherCreated);
    assert_eq!(setup.pending(), SetupStep::Inspect(0));
    setup.advance(SetupEvent::Inspected(PathKind::Directory));
    setup.advance(SetupEvent::Inspected(PathKind::File));
    assert_eq!(setup.pending(), SetupStep::Watch(0, WatchMode::Recursive));
}

#[test]
fn finished_setup_stays_finished() {
    let mut setup = planned(&[dir("/a")]);
    setup.advance(SetupEvent::WatcherCreated);
    setup.advance(SetupEvent::Inspected(PathKind::Other));
    setup.advance(SetupEvent::Registered);
    assert_eq!(setup.pending(), SetupStep::Done);
    setup.advance(SetupEvent::WatcherFailed);
    setup.advance(SetupEvent::Registered);
    assert_eq!(setup.pending(), SetupStep::Done);
}

#[test]
fn setup_of_n_targets_takes_at_most_four_events_each() {
    let mut setup = planned(&[dir("/a"), dir("/b"), dir("/c")]);
    let mut events = 0;
    loop {
        let event = match setup.pending() {
            SetupStep::CreateWatcher(_) => SetupEvent::WatcherCreated,
            SetupStep::Inspect(_) => SetupEvent::Inspected(PathKind::Directory),
            SetupStep::Watch(_, _) => SetupEvent::Watched,
            SetupStep::Register(_) => SetupEvent::Registered,
            SetupStep::Done => break,
            SetupStep::Failed(error) => panic!("setup failed: {:?}", error),
        };
        setup.advance(event);
        events += 1;
        assert!(events <= 12);
    }
    assert_eq!(events, 12);
}
