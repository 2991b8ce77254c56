use cosmic_bg::config::{
    CosmicBgEntry, CosmicBgImgSource, CosmicBgOutput, FilterMethod, SamplingMethod, ScalingMode,
};
use cosmic_bg::source::{join_path, FALLBACK_PATH, WALLPAPERS_FOLDER};

fn entry_for(source: CosmicBgImgSource) -> CosmicBgEntry {
    CosmicBgEntry {
        output: CosmicBgOutput::All,
        source,
        filter_by_theme: false,
        rotation_frequency: 0,
        filter_method: FilterMethod::default(),
        scaling_mode: ScalingMode::default(),
        sampling_method: SamplingMethod::default(),
    }
}

#[test]
fn wallpapers_without_any_pictures_directory_fall_back() {
    let entry = entry_for(CosmicBgImgSource::Wallpapers);
    assert_eq!(entry.source_path(None, None), "/usr/share/backgrounds/pop/");
}

#[test]
fn explicit_path_is_returned_exactly() {
    let entry = entry_for(CosmicBgImgSource::Path("/tmp/x".to_string()));
    assert_eq!(entry.source_path(None, None), "/tmp/x");
    assert_eq!(entry.source_path(Some("/home/u/Pictures"), Some("/other")), "/tmp/x");
}

#[test]
fn explicit_path_keeps_its_spelling() {
    let entry = entry_for(CosmicBgImgSource::Path("relative//dir/".to_string()));
    assert_eq!(entry.source_path(None, None), "relative//dir/");
    let empty = entry_for(CosmicBgImgSource::Path(String::new()));
    assert_eq!(empty.source_path(None, None), "");
}

#[test]
fn wallpapers_are_below_the_override() {
    let entry = entry_for(CosmicBgImgSource::Wallpapers);
    assert_eq!(entry.source_path(Some("/home/u/Bilder"), None), "/home/u/Bilder/Wallpapers");
}

#[test]
fn wallpapers_are_below_the_user_directory_without_an_override() {
    let entry = entry_for(CosmicBgImgSource::Wallpapers);
    assert_eq!(entry.source_path(None, Some("/home/u/Pictures")), "/home/u/Pictures/Wallpapers");
}

#[test]
fn override_takes_precedence_over_the_user_directory() {
    let entry = entry_for(CosmicBgImgSource::Wallpapers);
    assert_eq!(
        entry.source_path(Some("/mnt/pics"), Some("/home/u/Pictures")),
        "/mnt/pics/Wallpapers"
    );
}

#[test]
fn empty_override_still_counts_as_an_override() {
    let entry = entry_for(CosmicBgImgSource::Wallpapers);
    assert_eq!(entry.source_path(Some(""), Some("/home/u/Pictures")), "Wallpapers");
}

#[test]
fn resolve_is_strict_about_wallpapers() {
    assert_eq!(CosmicBgImgSource::Wallpapers.resolve(None, None), None);
    assert_eq!(
        CosmicBgImgSource::Wallpapers.resolve(None, Some("/home/u/Pictures/")),
        Some("/home/u/Pictures/Wallpapers".to_string())
    );
    assert_eq!(
        CosmicBgImgSource::Path("/tmp/x".to_string()).resolve(None, None),
        Some("/tmp/x".to_string())
    );
}

#[test]
fn join_puts_one_separator_between() {
    assert_eq!(join_path("/tmp", "file.bk"), "/tmp/file.bk");
    assert_eq!(join_path("a/b", "c"), "a/b/c");
}

#[test]
fn join_adds_no_separator_after_a_trailing_one() {
    assert_eq!(join_path("/tmp/", "file.bk"), "/tmp/file.bk");
    assert_eq!(join_path("/", "etc"), "/etc");
}

#[test]
fn join_with_an_empty_directory_is_the_name() {
    assert_eq!(join_path("", "Wallpapers"), "Wallpapers");
}

#[test]
fn join_with_a_rooted_name_is_the_name() {
    assert_eq!(join_path("/tmp", "/etc/passwd"), "/etc/passwd");
}

#[test]
fn join_with_an_empty_name_ends_in_a_separator() {
    assert_eq!(join_path("/tmp", ""), "/tmp/");
    assert_eq!(join_path("", ""), "");
}

#[test]
fn join_handles_text_beyond_ascii() {
    assert_eq!(join_path("/home/zoë/Bilder", "Hintergründe"), "/home/zoë/Bilder/Hintergründe");
}

#[test]
fn join_agrees_with_the_standard_path_buffer() {
    let cases = [
        ("/tmp", "file.bk"),
        ("/tmp/", "file.bk"),
        ("", "Wallpapers"),
        ("/tmp", "/etc"),
        ("a", "b/c"),
        ("/", "x"),
        ("/tmp", ""),
    ];
    for (dir, name) in cases {
        let mut expected = std::path::PathBuf::from(dir);
        expected.push(name);
        assert_eq!(std::path::PathBuf::from(join_path(dir, name)), expected);
        assert_eq!(join_path(dir, name), expected.to_str().unwrap());
    }
}

#[test]
fn constants_name_the_folder_and_the_fallback() {
    assert_eq!(WALLPAPERS_FOLDER, "Wallpapers");
    assert_eq!(FALLBACK_PATH, "/usr/share/backgrounds/pop/");
}
