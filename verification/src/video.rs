//! The library record of a video and the kinds of container it may have.

use vstd::prelude::*;
use vstd::string::*;

use crate::text::{
    ascii_lower, charsSpell, decimal, decimalChars, lowerChars, sameText, textOf, twoDigitChars,
    two_digits,
};

verus! {

/// The container formats the library takes in.
#[derive(Debug, Clone, Copy, PartialEq, Eq, Structural)]
pub enum ContainerType {
    Mp4,
    WebM,
}

/// The container that a file name extension stands for, whatever its case.
pub open spec fn container_of_extension(ext: Seq<char>) -> Option<ContainerType> {
    if ascii_lower(ext) == "mp4"@ {
        Some(ContainerType::Mp4)
    } else if ascii_lower(ext) == "webm"@ {
        Some(ContainerType::WebM)
    } else {
        None
    }
}

/// The container that a format name reported by the media probe stands for.
pub open spec fn container_of_format_name(name: Seq<char>) -> Option<ContainerType> {
    if name == "mov,mp4,m4a,3gp,3g2,mj2"@ {
        Some(ContainerType::Mp4)
    } else if name == "matroska,webm"@ {
        Some(ContainerType::WebM)
    } else {
        None
    }
}

impl ContainerType {
    /// The file name extension of the container, in lower case.
    pub open spec fn extension(self) -> Seq<char> {
        match self {
            ContainerType::Mp4 => "mp4"@,
            ContainerType::WebM => "webm"@,
        }
    }

    /// The media type under which a file of this container is served.
    pub open spec fn content_type(self) -> Seq<char> {
        match self {
            ContainerType::Mp4 => "video/mp4"@,
            ContainerType::WebM => "video/webm"@,
        }
    }

    /// The container named by a file name extension, in any mix of upper
    /// and lower case; `None` for any other extension.
    pub fn fromExtension(ext: &str) -> (container: Option<Self>)
        ensures
            container == container_of_extension(ext@),
    {
        let lower = lowerChars(ext);
        if charsSpell(&lower, "mp4") {
            Some(ContainerType::Mp4)
        } else if charsSpell(&lower, "webm") {
            Some(ContainerType::WebM)
        } else {
            None
        }
    }

    /// The container named by the media probe's `format_name`; `None` for a
    /// format the library does not take in.
    pub fn fromFormatName(name: &str) -> (container: Option<Self>)
        ensures
            container == container_of_format_name(name@),
    {
        if sameText(name, "mov,mp4,m4a,3gp,3g2,mj2") {
            Some(ContainerType::Mp4)
        } else if sameText(name, "matroska,webm") {
            Some(ContainerType::WebM)
        } else {
            None
        }
    }

    /// The file name extension of the container.
    pub fn toExtension(&self) -> (ext: &'static str)
        ensures
            ext@ == self.extension(),
    {
        match self {
            ContainerType::Mp4 => "mp4",
            ContainerType::WebM => "webm",
        }
    }

    /// The media type under which a file of this container is served.
    pub fn contentType(&self) -> (media_type: &'static str)
        ensures
            media_type@ == self.content_type(),
    {
        match self {
            ContainerType::Mp4 => "video/mp4",
            ContainerType::WebM => "video/webm",
        }
    }
}

/// The extension of a container names that container again.
pub proof fn lemma_extension_names_container(container: ContainerType)
    ensures
        container_of_extension(container.extension()) == Some(container),
{
    reveal_strlit("mp4");
    reveal_strlit("webm");
    assert(ascii_lower("mp4"@) =~= "mp4"@);
    assert(ascii_lower("webm"@) =~= "webm"@);
    assert("webm"@.len() != "mp4"@.len());
}

/// A length of time, never negative, counted in nanoseconds.
#[derive(Debug, Clone, Copy, PartialEq, Eq, Structural)]
pub struct TimeSpan {
    pub nanoseconds: u128,
}

/// The number of nanoseconds in a second.
pub const NANOSECONDS_PER_SECOND: u128 = 1_000_000_000;

/// How `seconds` full seconds read on a clock: minutes and seconds in two
/// digits each, with the hours before them once there is one.
pub open spec fn clock_text(seconds: nat) -> Seq<char> {
    let hours = seconds / 3600;
    let minutes = (seconds % 3600) / 60;
    let rest = seconds % 60;
    if hours > 0 {
        decimal(hours) + ":"@ + two_digits(minutes) + ":"@ + two_digits(rest)
    } else {
        two_digits(minutes) + ":"@ + two_digits(rest)
    }
}

impl TimeSpan {
    /// The span of `seconds` full seconds.
    pub fn fromSeconds(seconds: u64) -> (span: TimeSpan)
        ensures
            span.nanoseconds == seconds * NANOSECONDS_PER_SECOND,
    {
        TimeSpan { nanoseconds: seconds as u128 * NANOSECONDS_PER_SECOND }
    }

    /// The full seconds in the span.
    pub open spec fn whole_seconds(self) -> nat {
        (self.nanoseconds / NANOSECONDS_PER_SECOND) as nat
    }

    /// The full seconds in the span.
    pub fn wholeSeconds(&self) -> (seconds: u128)
        ensures
            seconds == self.whole_seconds(),
    {
        self.nanoseconds / NANOSECONDS_PER_SECOND
    }

    /// The nanoseconds beyond the last full second.
    pub fn subsecNanoseconds(&self) -> (nanoseconds: u32)
        ensures
            nanoseconds == self.nanoseconds % NANOSECONDS_PER_SECOND,
    {
        (self.nanoseconds % NANOSECONDS_PER_SECOND) as u32
    }

    /// The span as a clock shows it, to the full second: `MM:SS`, or
    /// `H:MM:SS` from one hour on.
    pub fn clockText(&self) -> (text: String)
        ensures
            text@ == clock_text(self.whole_seconds()),
    {
        let seconds = self.wholeSeconds();
        let hours = seconds / 3600;
        let mut minutes = twoDigitChars((seconds % 3600) / 60);
        let mut rest = twoDigitChars(seconds % 60);
        let mut chars: Vec<char> = Vec::new();
        proof {
            reveal_strlit(":");
            assert(":"@ =~= seq![':']);
        }
        if hours > 0 {
            let mut digits = decimalChars(hours);
            chars.append(&mut digits);
            chars.push(':');
        }
        chars.append(&mut minutes);
        chars.push(':');
        chars.append(&mut rest);
        assert(chars@ == clock_text(seconds as nat));
        textOf(chars.as_slice())
    }
}

/// A video in the library.
#[derive(Debug)]
pub struct Video {
    /// The identifier under which the video is stored and found.
    pub id: String,
    /// Where the file lies, relative to the library's directory.
    pub path: String,
    pub title: String,
    pub desc: String,
    pub artist: String,
    /// How often the video has been played.
    pub views: u32,
    /// When the video was taken in, in seconds since the Unix epoch, UTC.
    pub upload_time: i64,
    pub container_type: ContainerType,
    /// The name the uploader gave the file. May be empty.
    pub original_filename: String,
    pub duration: TimeSpan,
    /// Where the preview image lies, relative to the library's directory.
    pub thumbnail_path: Option<String>,
}

/// The mathematical value of a [`Video`].
pub struct VideoView {
    pub id: Seq<char>,
    pub path: Seq<char>,
    pub title: Seq<char>,
    pub desc: Seq<char>,
    pub artist: Seq<char>,
    pub views: u32,
    pub upload_time: i64,
    pub container_type: ContainerType,
    pub original_filename: Seq<char>,
    pub duration: TimeSpan,
    pub thumbnail_path: Option<Seq<char>>,
}

impl View for Video {
    type V = VideoView;

    open spec fn view(&self) -> VideoView {
        VideoView {
            id: self.id@,
            path: self.path@,
            title: self.title@,
            desc: self.desc@,
            artist: self.artist@,
            views: self.views,
            upload_time: self.upload_time,
            container_type: self.container_type,
            original_filename: self.original_filename@,
            duration: self.duration,
            thumbnail_path: match self.thumbnail_path {
                Some(path) => Some(path@),
                None => None,
            },
        }
    }
}

impl VideoView {
    /// The record of a file that has just been stored under `id` at `path`
    /// and of which nothing else is known yet.
    pub open spec fn fresh(id: Seq<char>, path: Seq<char>) -> VideoView {
        VideoView {
            id,
            path,
            title: Seq::empty(),
            desc: Seq::empty(),
            artist: Seq::empty(),
            views: 0,
            upload_time: 0,
            container_type: ContainerType::Mp4,
            original_filename: Seq::empty(),
            duration: TimeSpan { nanoseconds: 0 },
            thumbnail_path: None,
        }
    }

    /// The title under which the video is shown: its own, or the name of
    /// the uploaded file where it has none.
    pub open spec fn display_title(self) -> Seq<char> {
        if self.title.len() == 0 {
            self.original_filename
        } else {
            self.title
        }
    }
}

impl Video {
    /// The record of a file that has just been stored under `id` at `path`:
    /// no title, description or artist, no views, no preview, a duration of
    /// zero, the Unix epoch as upload time, and MP4 as container until the
    /// file has been probed.
    pub fn new(id: String, path: String) -> (video: Video)
        ensures
            video@ == VideoView::fresh(id@, path@),
    {
        Video {
            id,
            path,
            title: String::new(),
            desc: String::new(),
            artist: String::new(),
            views: 0,
            upload_time: 0,
            container_type: ContainerType::Mp4,
            original_filename: String::new(),
            duration: TimeSpan { nanoseconds: 0 },
            thumbnail_path: None,
        }
    }

    /// The title under which the video is shown: its own, or the name of
    /// the uploaded file where it has none.
    pub fn displayTitle(&self) -> (title: &str)
        ensures
            title@ == self@.display_title(),
    {
        if self.title.as_str().is_empty() {
            self.original_filename.as_str()
        } else {
            self.title.as_str()
        }
    }
}

} // verus!
