//! The source resolver: from a configured image source to a path on disk.

use crate::config::{CosmicBgEntry, CosmicBgImgSource, ImgSourceView};
use vstd::prelude::*;
use vstd::string::*;

verus! {

/// The folder below the pictures directory that holds the wallpapers.
pub const WALLPAPERS_FOLDER: &'static str = "Wallpapers";

/// Where backgrounds are looked for when a source resolves to nothing.
pub const FALLBACK_PATH: &'static str = "/usr/share/backgrounds/pop/";

/// `name` appended to `dir` as one more path component: a rooted `name`
/// stands for itself, and a separator is put in between unless `dir` is
/// empty or already ends in one.
pub open spec fn joined(dir: Seq<char>, name: Seq<char>) -> Seq<char> {
    if name.len() > 0 && name[0] == '/' {
        name
    } else if dir.len() > 0 && dir.last() != '/' {
        dir + seq!['/'] + name
    } else {
        dir + name
    }
}

/// Appends `name` to `dir` as one more path component.
pub fn join_path(dir: &str, name: &str) -> (path: String)
    ensures
        path@ == joined(dir@, name@),
{
    if name.unicode_len() > 0 && name.get_char(0) == '/' {
        return name.to_owned();
    }
    let mut path = dir.to_owned();
    let dir_len = dir.unicode_len();
    if dir_len > 0 && dir.get_char(dir_len - 1) != '/' {
        proof {
            reveal_strlit("/");
        }
        path.append("/");
    }
    path.append(name);
    path
}

/// The user's pictures directory: the explicit override if there is one,
/// else what the user-directories convention gives.
pub open spec fn pictures_dir(
    pictures_override: Option<Seq<char>>,
    user_pictures: Option<Seq<char>>,
) -> Option<Seq<char>> {
    if pictures_override is Some {
        pictures_override
    } else {
        user_pictures
    }
}

/// The path that a source resolves to, if it resolves.
pub open spec fn resolved(
    source: ImgSourceView,
    pictures_override: Option<Seq<char>>,
    user_pictures: Option<Seq<char>>,
) -> Option<Seq<char>> {
    match source {
        ImgSourceView::Wallpapers => match pictures_dir(pictures_override, user_pictures) {
            Some(dir) => Some(joined(dir, WALLPAPERS_FOLDER@)),
            None => None,
        },
        ImgSourceView::Path(path) => Some(path),
    }
}

/// The text of an optional string.
pub open spec fn text_of(value: Option<&str>) -> Option<Seq<char>> {
    match value {
        Some(text) => Some(text@),
        None => None,
    }
}

/// The text of an optional owned string.
pub open spec fn text_of_owned(value: Option<String>) -> Option<Seq<char>> {
    match value {
        Some(text) => Some(text@),
        None => None,
    }
}

impl CosmicBgImgSource {
    /// Resolves the source to a path. An explicit path stands for itself.
    /// The wallpapers folder is looked for below the pictures directory,
    /// and does not resolve when neither the override nor the
    /// user-directories convention names one.
    pub fn resolve(&self, pictures_override: Option<&str>, user_pictures: Option<&str>) -> (path:
        Option<String>)
        ensures
            text_of_owned(path) == resolved(self@, text_of(pictures_override), text_of(user_pictures)),
    {
        match self {
            CosmicBgImgSource::Wallpapers => {
                let pictures = match pictures_override {
                    Some(dir) => Some(dir),
                    None => user_pictures,
                };
                match pictures {
                    Some(dir) => Some(join_path(dir, WALLPAPERS_FOLDER)),
                    None => None,
                }
            },
            CosmicBgImgSource::Path(path) => Some(path.clone()),
        }
    }
}

/// The path at which the images of a source are looked for: the path that
/// the source resolves to, and the fallback if it does not resolve.
pub open spec fn source_path_of(
    source: ImgSourceView,
    pictures_override: Option<Seq<char>>,
    user_pictures: Option<Seq<char>>,
) -> Seq<char> {
    match resolved(source, pictures_override, user_pictures) {
        Some(path) => path,
        None => FALLBACK_PATH@,
    }
}

impl CosmicBgEntry {
    /// The path at which the images of this background are looked for.
    /// `pictures_override` is the pictures directory that the session names
    /// explicitly, `user_pictures` the one that the user-directories
    /// convention gives. This never fails: a source that does not resolve
    /// yields the fallback path.
    pub fn source_path(&self, pictures_override: Option<&str>, user_pictures: Option<&str>) -> (path:
        String)
        ensures
            path@ == source_path_of(
                self@.source,
                text_of(pictures_override),
                text_of(user_pictures),
            ),
    {
        match self.source.resolve(pictures_override, user_pictures) {
            Some(path) => path,
            None => FALLBACK_PATH.to_owned(),
        }
    }
}

/// An explicit path is looked for exactly where it says, whatever the
/// pictures directory is.
pub proof fn law_explicit_path_stands_for_itself(
    path: Seq<char>,
    pictures_override: Option<Seq<char>>,
    user_pictures: Option<Seq<char>>,
)
    ensures
        resolved(ImgSourceView::Path(path), pictures_override, user_pictures) == Some(path),
        source_path_of(ImgSourceView::Path(path), pictures_override, user_pictures) == path,
{
}

/// Without any pictures directory the wallpapers folder does not resolve,
/// and its images are looked for at the fallback path.
pub proof fn law_wallpapers_fall_back()
    ensures
        resolved(ImgSourceView::Wallpapers, None, None) == None::<Seq<char>>,
        source_path_of(ImgSourceView::Wallpapers, None, None) == FALLBACK_PATH@,
{
}

/// The override takes precedence over the user-directories convention.
pub proof fn law_override_takes_precedence(dir: Seq<char>, user_pictures: Option<Seq<char>>)
    ensures
        source_path_of(ImgSourceView::Wallpapers, Some(dir), user_pictures) == joined(
            dir,
            WALLPAPERS_FOLDER@,
        ),
{
}

} // verus!
