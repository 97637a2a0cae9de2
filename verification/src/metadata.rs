//! From the probe's report to the descriptive fields of a record.
//!
//! Only sections called `FORMAT` are consulted. Each of them must name a
//! container the library takes in and a duration; title, description and
//! artist are taken from its tags where it has them.
//!
//! The probe writes the duration as a decimal fraction of seconds. Reading
//! that text is left to the caller, who hands in one reading for each
//! section of the report: see [`durationTexts`].

use vstd::prelude::*;
use vstd::string::*;

use crate::config::Configuration;
use crate::error::{Error, ErrorView};
use crate::ingest::{oneFile, texts_view, Abort, AbortView, RawVideo, RawVideoView};
use crate::paths::{joinPath, library_path};
use crate::probe::{parseProbeOutput, parse_probe, sections_view, ProbedMetadataSection,
    SectionView};
use crate::text::{concatText, sameText, signedDecimalText, signed_decimal};
use crate::video::{container_of_format_name, ContainerType, TimeSpan, Video, VideoView};

verus! {

/// The title that a section holds: the value of its `TAG:title`, in
/// whatever case the key is written.
pub open spec fn tagged_title(section: SectionView) -> Option<Seq<char>> {
    section.get_folded("tag:title"@)
}

/// The description that a section holds: the value of its `TAG:comment`,
/// in whatever case the key is written.
pub open spec fn tagged_description(section: SectionView) -> Option<Seq<char>> {
    section.get_folded("tag:comment"@)
}

/// The artist that a section holds: the value of its `TAG:artist`, or of
/// its `TAG:author` where it has no such tag, in whatever case the key is
/// written.
pub open spec fn tagged_artist(section: SectionView) -> Option<Seq<char>> {
    match section.get_folded("tag:artist"@) {
        Some(artist) => Some(artist),
        None => section.get_folded("tag:author"@),
    }
}

/// `found` where there is one, `kept` otherwise.
pub open spec fn or_kept(found: Option<Seq<char>>, kept: Seq<char>) -> Seq<char> {
    match found {
        Some(text) => text,
        None => kept,
    }
}

/// Why a report does not describe a video the library can take in.
pub enum MetadataFault {
    /// The report has no section called `FORMAT`.
    FormatMissing,
    /// A `FORMAT` section has no `format_name`.
    FormatNameMissing,
    /// A `FORMAT` section names a format the library does not take in.
    UnsupportedFormat(Seq<char>),
    /// A `FORMAT` section has no `duration`.
    DurationMissing,
    /// The `duration` of a `FORMAT` section could not be read.
    InvalidDuration(Seq<char>),
}

impl MetadataFault {
    /// The message that reports the fault.
    pub open spec fn message(self) -> Seq<char> {
        match self {
            MetadataFault::FormatMissing => "FORMAT section not found"@,
            MetadataFault::FormatNameMissing => "format_name not found"@,
            MetadataFault::UnsupportedFormat(name) => "Unsupported format_name: "@ + name,
            MetadataFault::DurationMissing => "Duration not found"@,
            MetadataFault::InvalidDuration(text) => "Invalid duration: "@ + text,
        }
    }
}

/// The text that a reading is asked for: the `duration` of a `FORMAT`
/// section. Other sections have none.
pub open spec fn duration_text(section: SectionView) -> Option<Seq<char>> {
    if section.name == "FORMAT"@ {
        section.get("duration"@)
    } else {
        None
    }
}

/// The texts that readings are asked for, one entry for each section.
pub open spec fn duration_texts(sections: Seq<SectionView>) -> Seq<Option<Seq<char>>> {
    sections.map_values(|section: SectionView| duration_text(section))
}

/// The reading handed in for section number `at`; none where the caller
/// handed in too few.
pub open spec fn reading_at(durations: Seq<Option<TimeSpan>>, at: int) -> Option<TimeSpan> {
    if 0 <= at < durations.len() {
        durations[at]
    } else {
        None
    }
}

/// What a `FORMAT` section makes of a record, given the reading of its
/// duration: container and duration are replaced; title, description and
/// artist are replaced where the section has a tag for them. The keys
/// `format_name` and `duration` are read as they are written here; the keys
/// of the tags are read without regard to case, and where a key stands
/// more than once, in one spelling or in several, its last pair counts.
pub open spec fn fill_format(
    video: VideoView,
    section: SectionView,
    duration: Option<TimeSpan>,
) -> Result<VideoView, MetadataFault> {
    match section.get("format_name"@) {
        None => Err(MetadataFault::FormatNameMissing),
        Some(name) => match container_of_format_name(name) {
            None => Err(MetadataFault::UnsupportedFormat(name)),
            Some(container) => match section.get("duration"@) {
                None => Err(MetadataFault::DurationMissing),
                Some(text) => match duration {
                    None => Err(MetadataFault::InvalidDuration(text)),
                    Some(span) => Ok(
                        VideoView {
                            container_type: container,
                            duration: span,
                            title: or_kept(tagged_title(section), video.title),
                            desc: or_kept(tagged_description(section), video.desc),
                            artist: or_kept(tagged_artist(section), video.artist),
                            ..video
                        },
                    ),
                },
            },
        },
    }
}

/// What the sections from number `from` on make of a record; `seen` says
/// whether a `FORMAT` section stood before them.
pub open spec fn fill_from(
    video: VideoView,
    sections: Seq<SectionView>,
    durations: Seq<Option<TimeSpan>>,
    from: int,
    seen: bool,
) -> Result<VideoView, MetadataFault>
    decreases sections.len() - from,
{
    if from < 0 || from >= sections.len() {
        if seen {
            Ok(video)
        } else {
            Err(MetadataFault::FormatMissing)
        }
    } else if sections[from].name != "FORMAT"@ {
        fill_from(video, sections, durations, from + 1, seen)
    } else {
        match fill_format(video, sections[from], reading_at(durations, from)) {
            Ok(filled) => fill_from(filled, sections, durations, from + 1, true),
            Err(fault) => Err(fault),
        }
    }
}

/// What a report makes of a record. The `FORMAT` sections are applied in
/// the order of the report, so where two of them disagree the later one
/// counts; the first that is at fault decides the error. A report without
/// any `FORMAT` section is at fault too.
pub open spec fn fill_probed(
    video: VideoView,
    sections: Seq<SectionView>,
    durations: Seq<Option<TimeSpan>>,
) -> Result<VideoView, MetadataFault> {
    fill_from(video, sections, durations, 0, false)
}

/// The text of a string that may be missing.
pub open spec fn option_view(text: Option<String>) -> Option<Seq<char>> {
    match text {
        Some(text) => Some(text@),
        None => None,
    }
}

/// The texts of a list of strings that may be missing.
pub open spec fn options_view(texts: Seq<Option<String>>) -> Seq<Option<Seq<char>>> {
    texts.map_values(|text: Option<String>| option_view(text))
}

/// The texts whose readings [`fillProbedMetadata`] needs: for each section
/// of the report in turn, the `duration` of a `FORMAT` section, and nothing
/// for a section that is not one or has none.
pub fn durationTexts(metadata: &Vec<ProbedMetadataSection>) -> (texts: Vec<Option<String>>)
    ensures
        options_view(texts@) == duration_texts(sections_view(metadata@)),
{
    let mut texts: Vec<Option<String>> = Vec::new();
    let mut i: usize = 0;
    while i < metadata.len()
        invariant
            i <= metadata.len(),
            texts.len() == i,
            forall|k: int|
                0 <= k < i ==> option_view(#[trigger] texts[k]) == duration_text(metadata[k]@),
        decreases metadata.len() - i,
    {
        let section = &metadata[i];
        let text = if sameText(section.name.as_str(), "FORMAT") {
            match section.get("duration") {
                Some(value) => Some(value.clone()),
                None => None,
            }
        } else {
            None
        };
        texts.push(text);
        i += 1;
    }
    texts
}

/// The error that reports `fault`.
pub open spec fn metadata_error(fault: MetadataFault) -> ErrorView {
    ErrorView::RuntimeError(fault.message())
}

/// Applies one `FORMAT` section to a record.
fn fillFormat(video: Video, section: &ProbedMetadataSection, duration: Option<TimeSpan>) -> (result:
    Result<Video, Error>)
    ensures
        match fill_format(video@, section@, duration) {
            Ok(filled) => result matches Ok(found) && found@ == filled,
            Err(fault) => result matches Err(error) && error@ == metadata_error(fault),
        },
{
    let mut filled = video;
    let name = match section.get("format_name") {
        Some(name) => name,
        None => {
            return Err(Error::RuntimeError(String::from_str("format_name not found")));
        },
    };
    let container = match ContainerType::fromFormatName(name.as_str()) {
        Some(container) => container,
        None => {
            return Err(
                Error::RuntimeError(concatText("Unsupported format_name: ", name.as_str())),
            );
        },
    };
    let text = match section.get("duration") {
        Some(text) => text,
        None => {
            return Err(Error::RuntimeError(String::from_str("Duration not found")));
        },
    };
    let span = match duration {
        Some(span) => span,
        None => {
            return Err(Error::RuntimeError(concatText("Invalid duration: ", text.as_str())));
        },
    };
    filled.container_type = container;
    filled.duration = span;
    match section.getFolded("tag:title") {
        Some(title) => {
            filled.title = title.clone();
        },
        None => {},
    }
    match section.getFolded("tag:comment") {
        Some(description) => {
            filled.desc = description.clone();
        },
        None => {},
    }
    match section.getFolded("tag:artist") {
        Some(artist) => {
            filled.artist = artist.clone();
        },
        None => match section.getFolded("tag:author") {
            Some(author) => {
                filled.artist = author.clone();
            },
            None => {},
        },
    }
    Ok(filled)
}

/// Fills the descriptive fields of a record from the probe's report.
///
/// `durations` holds the readings of the texts that [`durationTexts`]
/// gives for `metadata`, entry by entry: the length of time that the text
/// denotes, or `None` where it denotes none. An entry that is missing
/// counts as `None`.
///
/// Every `FORMAT` section must name a format the library takes in and hold
/// a duration that could be read, and there must be at least one such
/// section; otherwise the error says what is wrong with the first section
/// at fault. Title, description and artist are left as they are where no
/// tag holds them.
pub fn fillProbedMetadata(
    video: Video,
    metadata: Vec<ProbedMetadataSection>,
    durations: Vec<Option<TimeSpan>>,
) -> (result: Result<Video, Error>)
    ensures
        match fill_probed(video@, sections_view(metadata@), durations@) {
            Ok(filled) => result matches Ok(found) && found@ == filled,
            Err(fault) => result matches Err(error) && error@ == metadata_error(fault),
        },
{
    let ghost sections = sections_view(metadata@);
    let mut filled = video;
    let mut seen = false;
    let mut i: usize = 0;
    while i < metadata.len()
        invariant
            i <= metadata.len(),
            sections == sections_view(metadata@),
            fill_from(filled@, sections, durations@, i as int, seen) == fill_probed(
                video@,
                sections,
                durations@,
            ),
        decreases metadata.len() - i,
    {
        let section = &metadata[i];
        assert(sections[i as int] == section@);
        if sameText(section.name.as_str(), "FORMAT") {
            let duration = if i < durations.len() {
                durations[i]
            } else {
                None
            };
            match fillFormat(filled, section, duration) {
                Ok(next) => {
                    filled = next;
                    seen = true;
                },
                Err(error) => {
                    return Err(error);
                },
            }
        }
        i += 1;
    }
    if seen {
        Ok(filled)
    } else {
        Err(Error::RuntimeError(String::from_str("FORMAT section not found")))
    }
}

/// How a run of the media probe ended.
#[derive(Debug)]
pub enum ProbeRun {
    /// The probe ran and reported success; this is what it printed.
    Output(String),
    /// The probe ran and reported failure with this exit code.
    ExitCode(i32),
    /// The probe was ended by a signal.
    Signal,
    /// The probe could not be run.
    Unavailable(String),
}

/// The mathematical value of a [`ProbeRun`].
pub enum ProbeRunView {
    Output(Seq<char>),
    ExitCode(i32),
    Signal,
    Unavailable(Seq<char>),
}

impl View for ProbeRun {
    type V = ProbeRunView;

    open spec fn view(&self) -> ProbeRunView {
        match self {
            ProbeRun::Output(text) => ProbeRunView::Output(text@),
            ProbeRun::ExitCode(code) => ProbeRunView::ExitCode(*code),
            ProbeRun::Signal => ProbeRunView::Signal,
            ProbeRun::Unavailable(reason) => ProbeRunView::Unavailable(reason@),
        }
    }
}

/// The sections that a run of the probe reported, or the error that says
/// why there are none: the probe could not be run, it failed, or what it
/// printed is no report.
pub open spec fn probed_sections(run: ProbeRunView) -> Result<Seq<SectionView>, ErrorView> {
    match run {
        ProbeRunView::Output(text) => match parse_probe(text) {
            Ok(sections) => Ok(sections),
            Err(fault) => Err(ErrorView::RuntimeError(fault.message())),
        },
        ProbeRunView::ExitCode(code) => Err(
            ErrorView::RuntimeError(
                "Ffprobe failed with code "@ + signed_decimal(code as int) + "."@,
            ),
        ),
        ProbeRunView::Signal => Err(ErrorView::RuntimeError("Ffprobe terminated with signal."@)),
        ProbeRunView::Unavailable(reason) => Err(
            ErrorView::RuntimeError("Failed to run ffprobe: "@ + reason),
        ),
    }
}

/// The arguments with which the media probe is run on the file at `path`.
pub fn probeArguments(path: &str) -> (arguments: Vec<String>)
    ensures
        texts_view(arguments@) == seq!["-show_format"@, path@],
{
    let mut arguments: Vec<String> = Vec::new();
    arguments.push(String::from_str("-show_format"));
    arguments.push(String::from_str(path));
    arguments
}

/// The sections that a run of the media probe reported.
pub fn probeVideo(run: ProbeRun) -> (result: Result<Vec<ProbedMetadataSection>, Error>)
    ensures
        match probed_sections(run@) {
            Ok(sections) => result matches Ok(found) && sections_view(found@) == sections,
            Err(expected) => result matches Err(error) && error@ == expected,
        },
{
    match run {
        ProbeRun::Output(text) => parseProbeOutput(text.as_str()),
        ProbeRun::ExitCode(code) => {
            let number = signedDecimalText(code as i64);
            let mut message = concatText("Ffprobe failed with code ", number.as_str());
            message.append(".");
            Err(Error::RuntimeError(message))
        },
        ProbeRun::Signal => Err(
            Error::RuntimeError(String::from_str("Ffprobe terminated with signal.")),
        ),
        ProbeRun::Unavailable(reason) => Err(
            Error::RuntimeError(concatText("Failed to run ffprobe: ", reason.as_str())),
        ),
    }
}

/// A file of the library together with what the media probe reported of
/// it, before the report has been applied.
#[derive(Debug)]
pub struct ProbedVideo {
    pub video: Video,
    pub sections: Vec<ProbedMetadataSection>,
}

/// The mathematical value of a [`ProbedVideo`].
pub struct ProbedVideoView {
    pub video: VideoView,
    pub sections: Seq<SectionView>,
}

impl View for ProbedVideo {
    type V = ProbedVideoView;

    open spec fn view(&self) -> ProbedVideoView {
        ProbedVideoView { video: self.video@, sections: sections_view(self.sections@) }
    }
}

/// The record of a file of the library as it stands before the probe's
/// report is applied: taken in at `now` under the name the client gave.
pub open spec fn unprobed_record(raw: RawVideoView, now: i64) -> VideoView {
    VideoView {
        original_filename: raw.original_filename,
        upload_time: now,
        ..VideoView::fresh(raw.hash, raw.path)
    }
}

/// What a run of the probe makes of a file of the library whose directory
/// is `root`. Where there is no report, the file is to be removed.
pub open spec fn probed(raw: RawVideoView, root: Seq<char>, now: i64, run: ProbeRunView)
    -> Result<ProbedVideoView, AbortView> {
    match probed_sections(run) {
        Ok(sections) => Ok(ProbedVideoView { video: unprobed_record(raw, now), sections }),
        Err(error) => Err(AbortView { error, remove: seq![library_path(root, raw.path)] }),
    }
}

/// What the readings of the durations make of a probed file of the
/// library whose directory is `root`. Where the report does not describe a
/// video the library takes in, the file is to be removed.
pub open spec fn filled(
    probed: ProbedVideoView,
    root: Seq<char>,
    durations: Seq<Option<TimeSpan>>,
) -> Result<VideoView, AbortView> {
    match fill_probed(probed.video, probed.sections, durations) {
        Ok(video) => Ok(video),
        Err(fault) => Err(
            AbortView {
                error: metadata_error(fault),
                remove: seq![library_path(root, probed.video.path)],
            },
        ),
    }
}

impl RawVideo {
    /// Where the file lies, for a file whose path is relative to the
    /// library's directory.
    pub fn mediaFile(&self, config: &Configuration) -> (path: String)
        ensures
            path@ == library_path(config.video_dir@, self.path@),
    {
        joinPath(config.video_dir.as_str(), self.path.as_str())
    }

    /// Starts the record of a file that has found its place in the
    /// library.
    ///
    /// The media probe is to be run on [`RawVideo::mediaFile`] with
    /// [`probeArguments`]; `run` says how that ended and `now` is the time,
    /// which becomes the upload time of the record. Where the probe gave no
    /// report that can be read, the file is to be removed.
    pub fn probeMetadata(self, config: &Configuration, now: i64, run: ProbeRun) -> (result: Result<
        ProbedVideo,
        Abort,
    >)
        ensures
            match probed(self@, config.video_dir@, now, run@) {
                Ok(expected) => result matches Ok(found) && found@ == expected,
                Err(expected) => result matches Err(abort) && abort@ == expected,
            },
    {
        let media = self.mediaFile(config);
        match probeVideo(run) {
            Ok(sections) => {
                let mut video = Video::new(self.hash, self.path);
                video.original_filename = self.original_filename;
                video.upload_time = now;
                Ok(ProbedVideo { video, sections })
            },
            Err(error) => Err(Abort { error, remove: oneFile(media) }),
        }
    }
}

impl ProbedVideo {
    /// The texts whose readings [`ProbedVideo::fillMetadata`] needs, see
    /// [`durationTexts`].
    pub fn durationTexts(&self) -> (texts: Vec<Option<String>>)
        ensures
            options_view(texts@) == duration_texts(self@.sections),
    {
        durationTexts(&self.sections)
    }

    /// Applies the probe's report to the record, see
    /// [`fillProbedMetadata`]. Where the report does not describe a video
    /// the library takes in, the file is to be removed.
    pub fn fillMetadata(self, config: &Configuration, durations: Vec<Option<TimeSpan>>) -> (result:
        Result<Video, Abort>)
        ensures
            match filled(self@, config.video_dir@, durations@) {
                Ok(expected) => result matches Ok(found) && found@ == expected,
                Err(expected) => result matches Err(abort) && abort@ == expected,
            },
    {
        let media = joinPath(config.video_dir.as_str(), self.video.path.as_str());
        match fillProbedMetadata(self.video, self.sections, durations) {
            Ok(video) => Ok(video),
            Err(error) => Err(Abort { error, remove: oneFile(media) }),
        }
    }
}

} // verus!
