//! The preview image of a video: which frame is taken, how the tool that
//! takes it is called, and what becomes of the record.
//!
//! Taking the preview is never an error: a video whose preview could not
//! be taken simply has none.

use vstd::prelude::*;
use vstd::string::*;

use crate::config::Configuration;
use crate::ingest::{noFiles, oneFile, texts_view};
use crate::paths::{
    expectedThumbnailPath, library_path, thumbnailOf, thumbnail_of, videoPath,
};
use crate::text::{decimal, decimalChars, decimalText, fixedDigitChars, fixed_digits, textOf};
use crate::video::{TimeSpan, Video, VideoView, NANOSECONDS_PER_SECOND};

verus! {

/// The longest duration of a video whose preview is taken at a third of
/// its length: thirty seconds, in nanoseconds.
pub const SHORT_VIDEO: u128 = 30_000_000_000;

/// How far into a longer video the preview is taken: ten seconds, in
/// nanoseconds.
pub const LONG_VIDEO_OFFSET: u128 = 10_000_000_000;

/// How far into a video of the given duration the preview is taken: ten
/// seconds where the video is longer than thirty seconds, a third of its
/// duration otherwise.
pub open spec fn thumbnail_offset(duration: TimeSpan) -> TimeSpan {
    if duration.nanoseconds > SHORT_VIDEO {
        TimeSpan { nanoseconds: LONG_VIDEO_OFFSET }
    } else {
        TimeSpan { nanoseconds: duration.nanoseconds / 3 }
    }
}

/// How far into a video of the given duration the preview is taken: ten
/// seconds where the video is longer than thirty seconds, a third of its
/// duration otherwise. A video of exactly thirty seconds is not longer.
pub fn thumbnailOffset(duration: TimeSpan) -> (offset: TimeSpan)
    ensures
        offset == thumbnail_offset(duration),
        duration.nanoseconds <= 30_000_000_000 ==> offset.nanoseconds == duration.nanoseconds / 3,
        duration.nanoseconds > 30_000_000_000 ==> offset.nanoseconds == 10_000_000_000,
{
    if duration.nanoseconds > SHORT_VIDEO {
        TimeSpan { nanoseconds: LONG_VIDEO_OFFSET }
    } else {
        TimeSpan { nanoseconds: duration.nanoseconds / 3 }
    }
}

/// The preview is never taken later than ten seconds into a video, and
/// never after its end.
pub proof fn lemma_offset_within_video(duration: TimeSpan)
    ensures
        thumbnail_offset(duration).nanoseconds <= LONG_VIDEO_OFFSET,
        thumbnail_offset(duration).nanoseconds <= duration.nanoseconds,
{
}

/// A span written in seconds: the full seconds, and after a point the
/// nine digits of the nanoseconds where there are any.
pub open spec fn seconds_text(span: TimeSpan) -> Seq<char> {
    let whole = (span.nanoseconds / NANOSECONDS_PER_SECOND) as nat;
    let rest = (span.nanoseconds % NANOSECONDS_PER_SECOND) as nat;
    if rest == 0 {
        decimal(whole)
    } else {
        decimal(whole) + seq!['.'] + fixed_digits(rest, 9)
    }
}

/// A span written in seconds: the full seconds, and after a point the
/// nine digits of the nanoseconds where there are any.
pub fn secondsText(span: TimeSpan) -> (text: String)
    ensures
        text@ == seconds_text(span),
{
    let whole = span.nanoseconds / NANOSECONDS_PER_SECOND;
    let rest = span.nanoseconds % NANOSECONDS_PER_SECOND;
    if rest == 0 {
        decimalText(whole)
    } else {
        let mut chars = decimalChars(whole);
        let mut digits = fixedDigitChars(rest, 9);
        chars.push('.');
        chars.append(&mut digits);
        textOf(chars.as_slice())
    }
}

/// The filter that scales a frame so that its longer edge has at most 512
/// pixels and its proportions stay.
pub open spec fn scale_filter() -> Seq<char> {
    "scale=if(gte(iw\\,ih)\\,min(512\\,iw)\\,-2):if(lt(iw\\,ih)\\,min(512\\,ih)\\,-2)"@
}

/// What the tool that takes the preview is asked to do.
#[derive(Debug)]
pub struct ThumbnailJob {
    /// The file of the video.
    pub input: String,
    /// How far into the video the frame is taken.
    pub offset: TimeSpan,
    /// The quality of the image, from 0 to 100.
    pub quality: u8,
    /// Where the image is written to.
    pub output: String,
}

/// The mathematical value of a [`ThumbnailJob`].
pub struct ThumbnailJobView {
    pub input: Seq<char>,
    pub offset: TimeSpan,
    pub quality: u8,
    pub output: Seq<char>,
}

impl View for ThumbnailJob {
    type V = ThumbnailJobView;

    open spec fn view(&self) -> ThumbnailJobView {
        ThumbnailJobView {
            input: self.input@,
            offset: self.offset,
            quality: self.quality,
            output: self.output@,
        }
    }
}

impl ThumbnailJobView {
    /// The job for the preview of `video` in the library whose directory
    /// is `root`, at the given quality.
    pub open spec fn of(video: VideoView, root: Seq<char>, quality: u8) -> ThumbnailJobView {
        ThumbnailJobView {
            input: library_path(root, video.path),
            offset: thumbnail_offset(video.duration),
            quality,
            output: thumbnail_of(library_path(root, video.path)),
        }
    }

    /// The arguments with which the transcoder does the job: overwrite
    /// what is there, read the video, seek, take one frame, scale it, and
    /// encode it as WebP at the given quality.
    pub open spec fn arguments(self) -> Seq<Seq<char>> {
        seq![
            "-y"@,
            "-i"@,
            self.input,
            "-ss"@,
            seconds_text(self.offset),
            "-frames:v"@,
            "1"@,
            "-vf"@,
            scale_filter(),
            "-c:v"@,
            "libwebp"@,
            "-q:v"@,
            decimal(self.quality as nat),
            self.output,
        ]
    }
}

impl ThumbnailJob {
    /// The arguments with which the transcoder does the job.
    pub fn arguments(&self) -> (arguments: Vec<String>)
        ensures
            texts_view(arguments@) == self@.arguments(),
    {
        let mut arguments: Vec<String> = Vec::new();
        arguments.push(String::from_str("-y"));
        arguments.push(String::from_str("-i"));
        arguments.push(self.input.clone());
        arguments.push(String::from_str("-ss"));
        arguments.push(secondsText(self.offset));
        arguments.push(String::from_str("-frames:v"));
        arguments.push(String::from_str("1"));
        arguments.push(String::from_str("-vf"));
        arguments.push(
            String::from_str(
                "scale=if(gte(iw\\,ih)\\,min(512\\,iw)\\,-2):if(lt(iw\\,ih)\\,min(512\\,ih)\\,-2)",
            ),
        );
        arguments.push(String::from_str("-c:v"));
        arguments.push(String::from_str("libwebp"));
        arguments.push(String::from_str("-q:v"));
        arguments.push(decimalText(self.quality as u128));
        arguments.push(self.output.clone());
        arguments
    }
}

/// A record after the attempt to take its preview, and the files that are
/// to be removed, as far as they exist.
#[derive(Debug)]
pub struct Thumbnailed {
    pub video: Video,
    pub remove: Vec<String>,
}

/// The mathematical value of a [`Thumbnailed`].
pub struct ThumbnailedView {
    pub video: VideoView,
    pub remove: Seq<Seq<char>>,
}

impl View for Thumbnailed {
    type V = ThumbnailedView;

    open spec fn view(&self) -> ThumbnailedView {
        ThumbnailedView { video: self.video@, remove: texts_view(self.remove@) }
    }
}

/// What the attempt to take the preview makes of a record in the library
/// whose directory is `root`. Where it succeeded, the record names the
/// preview: the path of the video with the extension of preview images.
/// Where it failed, the record stays as it is, and what the tool may have
/// written is to be removed.
pub open spec fn thumbnailed(video: VideoView, root: Seq<char>, succeeded: bool)
    -> ThumbnailedView {
    if succeeded {
        ThumbnailedView {
            video: VideoView { thumbnail_path: Some(thumbnail_of(video.path)), ..video },
            remove: Seq::empty(),
        }
    } else {
        ThumbnailedView { video, remove: seq![thumbnail_of(library_path(root, video.path))] }
    }
}

impl Video {
    /// What the tool that takes the preview is asked to do for this video.
    pub fn thumbnailJob(&self, config: &Configuration) -> (job: ThumbnailJob)
        ensures
            job@ == ThumbnailJobView::of(self@, config.video_dir@, config.thumbnail_quality),
    {
        ThumbnailJob {
            input: videoPath(self, config),
            offset: thumbnailOffset(self.duration),
            quality: config.thumbnail_quality,
            output: expectedThumbnailPath(self, config),
        }
    }

    /// Takes note of the attempt to take the preview.
    ///
    /// The transcoder is to be run on [`Video::thumbnailJob`] first;
    /// `succeeded` says whether it ran and reported success. There is no
    /// error: a video whose preview could not be taken has none, and what
    /// the tool may have written is to be removed.
    pub fn generateThumbnail(self, config: &Configuration, succeeded: bool) -> (result:
        Thumbnailed)
        ensures
            result@ == thumbnailed(self@, config.video_dir@, succeeded),
    {
        if succeeded {
            let thumbnail = thumbnailOf(self.path.as_str());
            let mut video = self;
            video.thumbnail_path = Some(thumbnail);
            Thumbnailed { video, remove: noFiles() }
        } else {
            let leftover = expectedThumbnailPath(&self, config);
            Thumbnailed { video: self, remove: oneFile(leftover) }
        }
    }
}

} // verus!
