//! File system paths as text.
//!
//! The library keeps paths as strings and leaves their anatomy to
//! `std::path`: every function here that takes a path apart or puts one
//! together is a call into it.

use std::path::Path;
use vstd::prelude::*;
use vstd::string::*;

use crate::config::Configuration;
use crate::video::Video;

verus! {

/// `base` with `rest` adjoined, as `Path::join` does it.
pub uninterp spec fn path_join(base: Seq<char>, rest: Seq<char>) -> Seq<char>;

/// The extension of the file that `path` names, as `Path::extension` finds
/// it; `None` where it has none.
pub uninterp spec fn path_extension(path: Seq<char>) -> Option<Seq<char>>;

/// `path` with the extension of its file name replaced by `ext`, as
/// `Path::with_extension` does it.
pub uninterp spec fn path_with_extension(path: Seq<char>, ext: Seq<char>) -> Seq<char>;

/// `path` without `base` at its front, as `Path::strip_prefix` does it;
/// `None` where `path` does not lie under `base`.
pub uninterp spec fn path_strip_prefix(path: Seq<char>, base: Seq<char>) -> Option<Seq<char>>;

/// How a path is quoted in a message: the `Debug` form of the text.
pub uninterp spec fn path_quoted(path: Seq<char>) -> Seq<char>;

/// Whether `text` holds a slash.
pub open spec fn has_slash(text: Seq<char>) -> bool {
    exists|i: int| 0 <= i < text.len() && text[i] == '/'
}

/// `base` with `rest` adjoined.
///
/// Trusted: `Path::join` on the two texts. Both are UTF-8, so the result
/// is, and the conversion back to a string changes nothing.
#[verifier::external_body]
pub(crate) fn joinPath(base: &str, rest: &str) -> (joined: String)
    ensures
        joined@ == path_join(base@, rest@),
{
    Path::new(base).join(rest).to_string_lossy().into_owned()
}

/// The extension of the file that `path` names.
///
/// Trusted: `Path::extension` on the text; the extension is a part of the
/// last component of the path, so it holds no separator.
#[verifier::external_body]
pub(crate) fn pathExtension(path: &str) -> (ext: Option<String>)
    ensures
        match ext {
            Some(text) => path_extension(path@) == Some(text@) && !has_slash(text@),
            None => path_extension(path@) is None,
        },
{
    Path::new(path).extension().map(|ext| ext.to_string_lossy().into_owned())
}

/// `path` with the extension of its file name replaced by `ext`.
///
/// Trusted: `Path::with_extension` on the two texts. It panics where the
/// extension holds a path separator, so such an extension is not taken.
#[verifier::external_body]
pub(crate) fn withExtension(path: &str, ext: &str) -> (replaced: String)
    requires
        !has_slash(ext@),
    ensures
        replaced@ == path_with_extension(path@, ext@),
{
    Path::new(path).with_extension(ext).to_string_lossy().into_owned()
}

/// `path` without `base` at its front.
///
/// Trusted: `Path::strip_prefix` on the two texts, which fails exactly
/// where `base` is no prefix of `path`.
#[verifier::external_body]
pub(crate) fn stripPrefix(path: &str, base: &str) -> (rest: Option<String>)
    ensures
        match rest {
            Some(text) => path_strip_prefix(path@, base@) == Some(text@),
            None => path_strip_prefix(path@, base@) is None,
        },
{
    match Path::new(path).strip_prefix(base) {
        Ok(rest) => Some(rest.to_string_lossy().into_owned()),
        Err(_) => None,
    }
}

/// How a path is quoted in a message.
///
/// Trusted: the `Debug` form of the text, which is that of the path.
#[verifier::external_body]
pub(crate) fn quotePath(path: &str) -> (quoted: String)
    ensures
        quoted@ == path_quoted(path@),
{
    format!("{:?}", Path::new(path))
}

/// The extension of the file that `path` names, or nothing.
pub open spec fn extension_or_none(path: Seq<char>) -> Seq<char> {
    match path_extension(path) {
        Some(ext) => ext,
        None => Seq::empty(),
    }
}

/// The extension of the file that `path` names, or the empty string where
/// it has none.
pub fn extensionOrNone(path: &str) -> (ext: String)
    ensures
        ext@ == extension_or_none(path@),
        !has_slash(ext@),
{
    match pathExtension(path) {
        Some(ext) => ext,
        None => String::new(),
    }
}

/// Where the file `relative` of the library lies.
pub open spec fn library_path(root: Seq<char>, relative: Seq<char>) -> Seq<char> {
    path_join(root, relative)
}

/// Where the preview image of the file at `path` lies.
pub open spec fn thumbnail_of(path: Seq<char>) -> Seq<char> {
    path_with_extension(path, "webp"@)
}

/// The path with the extension of preview images in place of its own.
pub fn thumbnailOf(path: &str) -> (thumbnail: String)
    ensures
        thumbnail@ == thumbnail_of(path@),
{
    proof {
        reveal_strlit("webp");
    }
    withExtension(path, "webp")
}

/// Where the file of a video lies: its path in the library, adjoined to
/// the library's directory.
pub fn videoPath(video: &Video, config: &Configuration) -> (path: String)
    ensures
        path@ == library_path(config.video_dir@, video.path@),
{
    joinPath(config.video_dir.as_str(), video.path.as_str())
}

/// Where the preview image of a video is expected: beside the file of the
/// video, with the extension of preview images in place of its own.
pub fn expectedThumbnailPath(video: &Video, config: &Configuration) -> (path: String)
    ensures
        path@ == thumbnail_of(library_path(config.video_dir@, video.path@)),
{
    let video_path = videoPath(video, config);
    thumbnailOf(video_path.as_str())
}

} // verus!
