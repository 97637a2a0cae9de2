//! The way of an upload into the library, as a state machine.
//!
//! An upload is received, addressed by its content, probed, given a
//! preview and committed to the index, in that order and without leaving a
//! step out. The machine does no work on the outside itself. In each state
//! it says what is to be done ([`Pipeline::nextAction`]), and it moves on
//! when it is told how that went ([`Pipeline::advance`]). A step that
//! fails ends the upload, and names the files that are to be removed so
//! that the library holds no file that the index does not know.

use vstd::prelude::*;
use vstd::string::*;

use crate::config::Configuration;
use crate::error::{Error, ErrorView};
use crate::index::{
    committed, insertOutcome, insert_outcome, rows_view, VideoRow, VideoRowView,
};
use crate::ingest::{
    noFilename, noFiles, no_filename, oneFile, outcome_view, renaming, tempPath, temp_path,
    texts_view, Abort, AbortView, RawIngest, RawIngestView, RawVideo, RawVideoView, Relocation,
    RelocationView, Resolution, ResolutionView, UploadingVideo,
};
use crate::metadata::{
    duration_texts, filled, option_view, options_view, probeArguments, probed, ProbeRun,
    ProbeRunView, ProbedVideo, ProbedVideoView,
};
use crate::paths::library_path;
use crate::thumbnail::{thumbnailed, ThumbnailJobView};
use crate::video::{TimeSpan, Video, VideoView};

verus! {

/// How far an upload has come.
#[derive(Debug, Clone, Copy, PartialEq, Eq, Structural)]
pub enum Stage {
    /// The bytes are on their way into the library's directory.
    Receiving,
    /// The file lies in the library under the name of its content.
    Addressed,
    /// The record holds what the media probe found.
    Probed,
    /// The preview has been taken, or given up.
    Thumbnailed,
    /// The record is in the index.
    Committed,
    /// The upload has failed and is over.
    Aborted,
}

/// How often a name for the temporary file is drawn before the upload is
/// given up.
pub const TEMP_NAME_ATTEMPTS: u32 = 16;

/// An upload on its way into the library.
pub enum Pipeline {
    /// A free path for the temporary file is being sought, for an upload
    /// that names the file `filename`.
    Naming { filename: String, candidate: String, attempts: u32 },
    /// The bytes are being written to the temporary file.
    Receiving(RawIngest),
    /// The temporary file is complete; whether its place in the library
    /// is free is being found out.
    Relocating(RawVideo),
    /// The place in the library is free; the file is being renamed.
    Renaming(RawVideo),
    /// The file has its name; its place in the library is being made out.
    Resolving(RawVideo),
    /// The file is being probed.
    Probing(RawVideo),
    /// The probe's report is being read.
    Reading(ProbedVideo),
    /// The preview is being taken.
    Thumbnailing(Video),
    /// The record is being entered into the index.
    Committing(Video),
    /// The record is in the index.
    Committed(Video),
    /// The upload has failed.
    Aborted(Error),
}

/// The mathematical value of a [`Pipeline`].
pub enum PipelineView {
    Naming { filename: Seq<char>, candidate: Seq<char>, attempts: u32 },
    Receiving(RawIngestView),
    Relocating(RawVideoView),
    Renaming(RawVideoView),
    Resolving(RawVideoView),
    Probing(RawVideoView),
    Reading(ProbedVideoView),
    Thumbnailing(VideoView),
    Committing(VideoView),
    Committed(VideoView),
    Aborted(ErrorView),
}

impl View for Pipeline {
    type V = PipelineView;

    open spec fn view(&self) -> PipelineView {
        match self {
            Pipeline::Naming { filename, candidate, attempts } => PipelineView::Naming {
                filename: filename@,
                candidate: candidate@,
                attempts: *attempts,
            },
            Pipeline::Receiving(ingest) => PipelineView::Receiving(ingest@),
            Pipeline::Relocating(raw) => PipelineView::Relocating(raw@),
            Pipeline::Renaming(raw) => PipelineView::Renaming(raw@),
            Pipeline::Resolving(raw) => PipelineView::Resolving(raw@),
            Pipeline::Probing(raw) => PipelineView::Probing(raw@),
            Pipeline::Reading(probed) => PipelineView::Reading(probed@),
            Pipeline::Thumbnailing(video) => PipelineView::Thumbnailing(video@),
            Pipeline::Committing(video) => PipelineView::Committing(video@),
            Pipeline::Committed(video) => PipelineView::Committed(video@),
            Pipeline::Aborted(error) => PipelineView::Aborted(error@),
        }
    }
}

/// What is to be done for an upload next.
#[derive(Debug)]
pub enum Action {
    /// Find out whether a file lies at this path, and tell with
    /// [`Event::Exists`].
    CheckFree(String),
    /// Create the file at this path if it is not there yet and wait for
    /// the next piece of the upload. Tell of the piece with
    /// [`Event::Chunk`] and then append it to the file; tell of the end of
    /// the upload with [`Event::EndOfStream`], and of a failure with
    /// [`Event::CreateFailed`], [`Event::StreamFailed`] or
    /// [`Event::WriteFailed`].
    Receive { into: String },
    /// Rename the file, and tell with [`Event::Renamed`].
    Rename { from: String, to: String },
    /// Find out where the file and the library's directory really lie and
    /// whether the file exists, and tell with [`Event::Resolved`].
    Resolve { file: String, root: String },
    /// Run the media probe with these arguments, and tell with
    /// [`Event::Probed`].
    Probe { arguments: Vec<String> },
    /// Read each of these texts as a duration in seconds, and tell with
    /// [`Event::Durations`].
    ReadDurations(Vec<Option<String>>),
    /// Run the transcoder with these arguments, and tell with
    /// [`Event::ThumbnailTaken`] whether it reported success.
    Thumbnail { arguments: Vec<String> },
    /// Add this row to the index, and tell with [`Event::Inserted`], or
    /// with [`Event::IndexFailed`] where the index could not be asked.
    Insert(VideoRow),
    /// Nothing: the upload is over.
    Finish,
}

/// The mathematical value of an [`Action`].
pub enum ActionView {
    CheckFree(Seq<char>),
    Receive { into: Seq<char> },
    Rename { from: Seq<char>, to: Seq<char> },
    Resolve { file: Seq<char>, root: Seq<char> },
    Probe { arguments: Seq<Seq<char>> },
    ReadDurations(Seq<Option<Seq<char>>>),
    Thumbnail { arguments: Seq<Seq<char>> },
    Insert(VideoRowView),
    Finish,
}

impl View for Action {
    type V = ActionView;

    open spec fn view(&self) -> ActionView {
        match self {
            Action::CheckFree(path) => ActionView::CheckFree(path@),
            Action::Receive { into } => ActionView::Receive { into: into@ },
            Action::Rename { from, to } => ActionView::Rename { from: from@, to: to@ },
            Action::Resolve { file, root } => ActionView::Resolve { file: file@, root: root@ },
            Action::Probe { arguments } => ActionView::Probe { arguments: texts_view(arguments@) },
            Action::ReadDurations(texts) => ActionView::ReadDurations(options_view(texts@)),
            Action::Thumbnail { arguments } => ActionView::Thumbnail {
                arguments: texts_view(arguments@),
            },
            Action::Insert(row) => ActionView::Insert(row@),
            Action::Finish => ActionView::Finish,
        }
    }
}

/// What happened on the outside.
#[derive(Debug)]
pub enum Event {
    /// Whether a file lies at the path asked about.
    Exists(bool),
    /// The temporary file could not be created.
    CreateFailed(String),
    /// A piece of the upload has arrived.
    Chunk(Vec<u8>),
    /// The piece that arrived last could not be written.
    WriteFailed(String),
    /// The upload broke off.
    StreamFailed(String),
    /// The upload has arrived in full.
    EndOfStream,
    /// What became of the renaming.
    Renamed(Result<(), String>),
    /// What became of the resolving.
    Resolved(Resolution),
    /// How the run of the media probe ended.
    Probed(ProbeRun),
    /// The durations read, one for each text asked about.
    Durations(Vec<Option<TimeSpan>>),
    /// Whether the transcoder ran and reported success.
    ThumbnailTaken(bool),
    /// The number of rows that the index added, or why it added none.
    Inserted(Result<usize, String>),
    /// The index could not be asked to add the row.
    IndexFailed(Error),
}

/// The mathematical value of an [`Event`].
pub enum EventView {
    Exists(bool),
    CreateFailed(Seq<char>),
    Chunk(Seq<u8>),
    WriteFailed(Seq<char>),
    StreamFailed(Seq<char>),
    EndOfStream,
    Renamed(Result<(), Seq<char>>),
    Resolved(ResolutionView),
    Probed(ProbeRunView),
    Durations(Seq<Option<TimeSpan>>),
    ThumbnailTaken(bool),
    Inserted(Result<usize, Seq<char>>),
    IndexFailed(ErrorView),
}

impl View for Event {
    type V = EventView;

    open spec fn view(&self) -> EventView {
        match self {
            Event::Exists(exists) => EventView::Exists(*exists),
            Event::CreateFailed(reason) => EventView::CreateFailed(reason@),
            Event::Chunk(bytes) => EventView::Chunk(bytes@),
            Event::WriteFailed(reason) => EventView::WriteFailed(reason@),
            Event::StreamFailed(reason) => EventView::StreamFailed(reason@),
            Event::EndOfStream => EventView::EndOfStream,
            Event::Renamed(outcome) => EventView::Renamed(outcome_view(*outcome)),
            Event::Resolved(resolution) => EventView::Resolved(resolution@),
            Event::Probed(run) => EventView::Probed(run@),
            Event::Durations(durations) => EventView::Durations(durations@),
            Event::ThumbnailTaken(succeeded) => EventView::ThumbnailTaken(*succeeded),
            Event::Inserted(rows) => EventView::Inserted(rows_view(*rows)),
            Event::IndexFailed(error) => EventView::IndexFailed(error@),
        }
    }
}

/// What the machine cannot know by itself: a number drawn at random, for
/// the name of the temporary file, and the time, in seconds since the Unix
/// epoch, for the upload time of the record.
#[derive(Debug, Clone, Copy)]
pub struct Chance {
    pub draw: u32,
    pub now: i64,
}

/// A step of the machine: where the upload stands then, and the files that
/// are to be removed, as far as they exist.
pub struct Step {
    pub next: Pipeline,
    pub remove: Vec<String>,
}

/// The mathematical value of a [`Step`].
pub struct StepView {
    pub next: PipelineView,
    pub remove: Seq<Seq<char>>,
}

impl View for Step {
    type V = StepView;

    open spec fn view(&self) -> StepView {
        StepView { next: self.next@, remove: texts_view(self.remove@) }
    }
}

impl StepView {
    /// The step to `next` that removes nothing.
    pub open spec fn to(next: PipelineView) -> StepView {
        StepView { next, remove: Seq::empty() }
    }

    /// The step that ends the upload.
    pub open spec fn abort(abort: AbortView) -> StepView {
        StepView { next: PipelineView::Aborted(abort.error), remove: abort.remove }
    }
}

/// The error for an upload for which no name of a temporary file was free.
pub open spec fn no_temp_name() -> ErrorView {
    ErrorView::RuntimeError("Failed to find a free name for the temp file"@)
}

/// The error for news that does not answer what was asked.
pub open spec fn unexpected_event() -> ErrorView {
    ErrorView::RuntimeError("Unexpected event for the state of the upload"@)
}

impl PipelineView {
    /// How far the upload has come.
    pub open spec fn stage(self) -> Stage {
        match self {
            PipelineView::Naming { .. } => Stage::Receiving,
            PipelineView::Receiving(_) => Stage::Receiving,
            PipelineView::Relocating(_) => Stage::Receiving,
            PipelineView::Renaming(_) => Stage::Receiving,
            PipelineView::Resolving(_) => Stage::Receiving,
            PipelineView::Probing(_) => Stage::Addressed,
            PipelineView::Reading(_) => Stage::Addressed,
            PipelineView::Thumbnailing(_) => Stage::Probed,
            PipelineView::Committing(_) => Stage::Thumbnailed,
            PipelineView::Committed(_) => Stage::Committed,
            PipelineView::Aborted(_) => Stage::Aborted,
        }
    }

    /// Whether the upload is over.
    pub open spec fn is_over(self) -> bool {
        self is Committed || self is Aborted
    }

    /// The files that the upload has brought into the directory `root` so
    /// far and that no record of the index stands for.
    pub open spec fn files(self, root: Seq<char>) -> Seq<Seq<char>> {
        match self {
            PipelineView::Naming { .. } => Seq::empty(),
            PipelineView::Receiving(ingest) => seq![ingest.temp_path],
            PipelineView::Relocating(raw) => seq![raw.path],
            PipelineView::Renaming(raw) => seq![raw.path],
            PipelineView::Resolving(raw) => seq![raw.path],
            PipelineView::Probing(raw) => seq![library_path(root, raw.path)],
            PipelineView::Reading(probed) => seq![library_path(root, probed.video.path)],
            PipelineView::Thumbnailing(video) => seq![library_path(root, video.path)],
            PipelineView::Committing(video) => seq![library_path(root, video.path)],
            PipelineView::Committed(_) => Seq::empty(),
            PipelineView::Aborted(_) => Seq::empty(),
        }
    }

    /// The identifier under which the upload is stored, once its content
    /// is known.
    pub open spec fn id(self) -> Option<Seq<char>> {
        match self {
            PipelineView::Naming { .. } => None,
            PipelineView::Receiving(_) => None,
            PipelineView::Relocating(raw) => Some(raw.hash),
            PipelineView::Renaming(raw) => Some(raw.hash),
            PipelineView::Resolving(raw) => Some(raw.hash),
            PipelineView::Probing(raw) => Some(raw.hash),
            PipelineView::Reading(probed) => Some(probed.video.id),
            PipelineView::Thumbnailing(video) => Some(video.id),
            PipelineView::Committing(video) => Some(video.id),
            PipelineView::Committed(video) => Some(video.id),
            PipelineView::Aborted(_) => None,
        }
    }

    /// Where an upload that names the file `filename` starts, in the
    /// library whose directory is `root`: with the search for a name for
    /// its temporary file, or at its end where it names no file.
    pub open spec fn start(filename: Option<Seq<char>>, root: Seq<char>, draw: u32)
        -> PipelineView {
        match filename {
            Some(name) => PipelineView::Naming {
                filename: name,
                candidate: temp_path(root, draw, name),
                attempts: 0,
            },
            None => PipelineView::Aborted(no_filename()),
        }
    }

    /// What is to be done next, in the library whose directory is `root`
    /// and whose previews have the given quality.
    pub open spec fn action(self, root: Seq<char>, quality: u8) -> ActionView {
        match self {
            PipelineView::Naming { candidate, .. } => ActionView::CheckFree(candidate),
            PipelineView::Receiving(ingest) => ActionView::Receive { into: ingest.temp_path },
            PipelineView::Relocating(raw) => ActionView::CheckFree(raw.library_file(root)),
            PipelineView::Renaming(raw) => ActionView::Rename {
                from: raw.path,
                to: raw.library_file(root),
            },
            PipelineView::Resolving(raw) => ActionView::Resolve { file: raw.path, root },
            PipelineView::Probing(raw) => ActionView::Probe {
                arguments: seq!["-show_format"@, library_path(root, raw.path)],
            },
            PipelineView::Reading(probed) => ActionView::ReadDurations(
                duration_texts(probed.sections),
            ),
            PipelineView::Thumbnailing(video) => ActionView::Thumbnail {
                arguments: ThumbnailJobView::of(video, root, quality).arguments(),
            },
            PipelineView::Committing(video) => ActionView::Insert(video.row()),
            PipelineView::Committed(_) => ActionView::Finish,
            PipelineView::Aborted(_) => ActionView::Finish,
        }
    }

    /// Where the upload stands after `event`, in the library whose
    /// directory is `root`.
    ///
    /// An upload that is over stays as it is. News that does not answer
    /// what was asked ends the upload, and the files it has brought into
    /// the library so far are to be removed.
    pub open spec fn step(self, root: Seq<char>, event: EventView, chance: Chance) -> StepView {
        match (self, event) {
            (PipelineView::Committed(_), _) => StepView::to(self),
            (PipelineView::Aborted(_), _) => StepView::to(self),
            (PipelineView::Naming { filename, candidate, attempts }, EventView::Exists(taken)) => {
                if taken {
                    if attempts + 1 < TEMP_NAME_ATTEMPTS {
                        StepView::to(
                            PipelineView::Naming {
                                filename,
                                candidate: temp_path(root, chance.draw, filename),
                                attempts: (attempts + 1) as u32,
                            },
                        )
                    } else {
                        StepView::to(PipelineView::Aborted(no_temp_name()))
                    }
                } else {
                    StepView::to(
                        PipelineView::Receiving(
                            RawIngestView {
                                temp_path: candidate,
                                original_filename: filename,
                                received: Seq::empty(),
                            },
                        ),
                    )
                }
            },
            (PipelineView::Receiving(ingest), EventView::Chunk(bytes)) => StepView::to(
                PipelineView::Receiving(ingest.with_chunk(bytes)),
            ),
            (PipelineView::Receiving(ingest), EventView::EndOfStream) => StepView::to(
                PipelineView::Relocating(ingest.finished()),
            ),
            (PipelineView::Receiving(ingest), EventView::CreateFailed(reason)) => StepView::abort(
                AbortView::runtime("Failed to open temp file: "@, reason, Seq::empty()),
            ),
            (PipelineView::Receiving(ingest), EventView::StreamFailed(reason)) => StepView::abort(
                AbortView::runtime(
                    "Failed to acquire buffer from form data: "@,
                    reason,
                    seq![ingest.temp_path],
                ),
            ),
            (PipelineView::Receiving(ingest), EventView::WriteFailed(reason)) => StepView::abort(
                AbortView::runtime("Failed to write temp file: "@, reason, seq![ingest.temp_path]),
            ),
            (PipelineView::Relocating(raw), EventView::Exists(taken)) => {
                if taken {
                    match raw.moved(root, RelocationView::Taken) {
                        Ok(moved) => StepView::to(PipelineView::Resolving(moved)),
                        Err(abort) => StepView::abort(abort),
                    }
                } else {
                    StepView::to(PipelineView::Renaming(raw))
                }
            },
            (PipelineView::Renaming(raw), EventView::Renamed(outcome)) => match raw.moved(
                root,
                renaming(outcome),
            ) {
                Ok(moved) => StepView::to(PipelineView::Resolving(moved)),
                Err(abort) => StepView::abort(abort),
            },
            (PipelineView::Resolving(raw), EventView::Resolved(resolution)) => match raw.relative(
                root,
                resolution,
            ) {
                Ok(relative) => StepView::to(PipelineView::Probing(relative)),
                Err(abort) => StepView::abort(abort),
            },
            (PipelineView::Probing(raw), EventView::Probed(run)) => match probed(
                raw,
                root,
                chance.now,
                run,
            ) {
                Ok(found) => StepView::to(PipelineView::Reading(found)),
                Err(abort) => StepView::abort(abort),
            },
            (PipelineView::Reading(found), EventView::Durations(durations)) => match filled(
                found,
                root,
                durations,
            ) {
                Ok(video) => StepView::to(PipelineView::Thumbnailing(video)),
                Err(abort) => StepView::abort(abort),
            },
            (PipelineView::Thumbnailing(video), EventView::ThumbnailTaken(succeeded)) => {
                let taken = thumbnailed(video, root, succeeded);
                StepView { next: PipelineView::Committing(taken.video), remove: taken.remove }
            },
            (PipelineView::Committing(video), EventView::Inserted(rows)) => match committed(
                video,
                root,
                insert_outcome(rows),
            ) {
                Ok(video) => StepView::to(PipelineView::Committed(video)),
                Err(abort) => StepView::abort(abort),
            },
            (PipelineView::Committing(video), EventView::IndexFailed(error)) => match committed(
                video,
                root,
                Err(error),
            ) {
                Ok(video) => StepView::to(PipelineView::Committed(video)),
                Err(abort) => StepView::abort(abort),
            },
            _ => StepView { next: PipelineView::Aborted(unexpected_event()), remove: self.files(
                root,
            ) },
        }
    }
}

/// A number drawn at random.
///
/// Trusted: `rand::random`; nothing is known of the number.
#[verifier::external_body]
fn randomDraw() -> u32 {
    rand::random::<u32>()
}

/// The time, in seconds since the Unix epoch.
///
/// Trusted: the clock as `time::OffsetDateTime::now_utc` reads it; nothing
/// is known of the time.
#[verifier::external_body]
fn unixNow() -> i64 {
    time::OffsetDateTime::now_utc().unix_timestamp()
}

/// The step to `next` that removes nothing.
fn stepTo(next: Pipeline) -> (step: Step)
    ensures
        step@ == StepView::to(next@),
{
    Step { next, remove: noFiles() }
}

/// The step that ends the upload.
fn stepAbort(abort: Abort) -> (step: Step)
    ensures
        step@ == StepView::abort(abort@),
{
    Step { next: Pipeline::Aborted(abort.error), remove: abort.remove }
}

impl Chance {
    /// A number drawn at random, and the time as the clock reads it.
    pub fn take() -> Chance {
        Chance { draw: randomDraw(), now: unixNow() }
    }
}

impl Pipeline {
    /// How far the upload has come.
    pub fn stage(&self) -> (stage: Stage)
        ensures
            stage == self@.stage(),
    {
        match self {
            Pipeline::Naming { .. } => Stage::Receiving,
            Pipeline::Receiving(_) => Stage::Receiving,
            Pipeline::Relocating(_) => Stage::Receiving,
            Pipeline::Renaming(_) => Stage::Receiving,
            Pipeline::Resolving(_) => Stage::Receiving,
            Pipeline::Probing(_) => Stage::Addressed,
            Pipeline::Reading(_) => Stage::Addressed,
            Pipeline::Thumbnailing(_) => Stage::Probed,
            Pipeline::Committing(_) => Stage::Thumbnailed,
            Pipeline::Committed(_) => Stage::Committed,
            Pipeline::Aborted(_) => Stage::Aborted,
        }
    }

    /// Whether the upload is over.
    pub fn isOver(&self) -> (over: bool)
        ensures
            over == self@.is_over(),
    {
        match self {
            Pipeline::Committed(_) => true,
            Pipeline::Aborted(_) => true,
            _ => false,
        }
    }

    /// The files that the upload has brought into the library's directory
    /// so far and that no record of the index stands for.
    pub fn files(&self, config: &Configuration) -> (files: Vec<String>)
        ensures
            texts_view(files@) == self@.files(config.video_dir@),
    {
        match self {
            Pipeline::Receiving(ingest) => oneFile(String::from_str(ingest.tempPath())),
            Pipeline::Relocating(raw) => oneFile(raw.path.clone()),
            Pipeline::Renaming(raw) => oneFile(raw.path.clone()),
            Pipeline::Resolving(raw) => oneFile(raw.path.clone()),
            Pipeline::Probing(raw) => oneFile(raw.mediaFile(config)),
            Pipeline::Reading(probed) => oneFile(crate::paths::videoPath(&probed.video, config)),
            Pipeline::Thumbnailing(video) => oneFile(crate::paths::videoPath(video, config)),
            Pipeline::Committing(video) => oneFile(crate::paths::videoPath(video, config)),
            _ => noFiles(),
        }
    }

    /// Starts an upload with the number `draw` for the name of its
    /// temporary file. An upload that names no file is over at once: it is
    /// turned down as a bad request.
    pub fn beginWith(upload: UploadingVideo, config: &Configuration, draw: u32) -> (pipeline:
        Pipeline)
        ensures
            pipeline@ == PipelineView::start(
                option_view(upload.filename),
                config.video_dir@,
                draw,
            ),
    {
        match upload.filename {
            Some(filename) => {
                let candidate = tempPath(config.video_dir.as_str(), draw, filename.as_str());
                Pipeline::Naming { filename, candidate, attempts: 0 }
            },
            None => Pipeline::Aborted(noFilename()),
        }
    }

    /// Starts an upload, with a number drawn at random for the name of its
    /// temporary file.
    pub fn begin(upload: UploadingVideo, config: &Configuration) -> (pipeline: Pipeline)
        ensures
            exists|draw: u32|
                pipeline@ == PipelineView::start(
                    option_view(upload.filename),
                    config.video_dir@,
                    draw,
                ),
    {
        let draw = randomDraw();
        Pipeline::beginWith(upload, config, draw)
    }

    /// What is to be done for the upload next.
    pub fn nextAction(&self, config: &Configuration) -> (action: Action)
        ensures
            action@ == self@.action(config.video_dir@, config.thumbnail_quality),
    {
        match self {
            Pipeline::Naming { candidate, .. } => Action::CheckFree(candidate.clone()),
            Pipeline::Receiving(ingest) => Action::Receive {
                into: String::from_str(ingest.tempPath()),
            },
            Pipeline::Relocating(raw) => Action::CheckFree(raw.libraryFile(config)),
            Pipeline::Renaming(raw) => Action::Rename {
                from: raw.path.clone(),
                to: raw.libraryFile(config),
            },
            Pipeline::Resolving(raw) => Action::Resolve {
                file: raw.path.clone(),
                root: config.video_dir.clone(),
            },
            Pipeline::Probing(raw) => {
                let media = raw.mediaFile(config);
                Action::Probe { arguments: probeArguments(media.as_str()) }
            },
            Pipeline::Reading(probed) => Action::ReadDurations(probed.durationTexts()),
            Pipeline::Thumbnailing(video) => Action::Thumbnail {
                arguments: video.thumbnailJob(config).arguments(),
            },
            Pipeline::Committing(video) => Action::Insert(video.toRow()),
            Pipeline::Committed(_) => Action::Finish,
            Pipeline::Aborted(_) => Action::Finish,
        }
    }

    /// Moves the upload on after `event`, with `chance` for what the
    /// machine cannot know by itself.
    pub fn advanceWith(self, config: &Configuration, event: Event, chance: Chance) -> (step: Step)
        ensures
            step@ == self@.step(config.video_dir@, event@, chance),
    {
        match (self, event) {
            (Pipeline::Committed(video), _) => stepTo(Pipeline::Committed(video)),
            (Pipeline::Aborted(error), _) => stepTo(Pipeline::Aborted(error)),
            (Pipeline::Naming { filename, candidate, attempts }, Event::Exists(taken)) => {
                if taken {
                    if attempts < TEMP_NAME_ATTEMPTS - 1 {
                        let next = tempPath(
                            config.video_dir.as_str(),
                            chance.draw,
                            filename.as_str(),
                        );
                        stepTo(
                            Pipeline::Naming { filename, candidate: next, attempts: attempts + 1 },
                        )
                    } else {
                        stepTo(
                            Pipeline::Aborted(
                                Error::RuntimeError(
                                    String::from_str(
                                        "Failed to find a free name for the temp file",
                                    ),
                                ),
                            ),
                        )
                    }
                } else {
                    let upload = UploadingVideo { filename: Some(filename) };
                    match upload.saveToTemp(candidate.as_str()) {
                        Ok(ingest) => stepTo(Pipeline::Receiving(ingest)),
                        Err(error) => stepTo(Pipeline::Aborted(error)),
                    }
                }
            },
            (Pipeline::Receiving(ingest), Event::Chunk(bytes)) => {
                let mut ingest = ingest;
                ingest.absorb(bytes.as_slice());
                stepTo(Pipeline::Receiving(ingest))
            },
            (Pipeline::Receiving(ingest), Event::EndOfStream) => stepTo(
                Pipeline::Relocating(ingest.finish()),
            ),
            (Pipeline::Receiving(ingest), Event::CreateFailed(reason)) => stepAbort(
                ingest.createFailed(reason.as_str()),
            ),
            (Pipeline::Receiving(ingest), Event::StreamFailed(reason)) => stepAbort(
                ingest.streamFailed(reason.as_str()),
            ),
            (Pipeline::Receiving(ingest), Event::WriteFailed(reason)) => stepAbort(
                ingest.writeFailed(reason.as_str()),
            ),
            (Pipeline::Relocating(raw), Event::Exists(taken)) => {
                if taken {
                    match raw.moveToLibrary(config, Relocation::Taken) {
                        Ok(moved) => stepTo(Pipeline::Resolving(moved)),
                        Err(abort) => stepAbort(abort),
                    }
                } else {
                    stepTo(Pipeline::Renaming(raw))
                }
            },
            (Pipeline::Renaming(raw), Event::Renamed(outcome)) => {
                let relocation = match outcome {
                    Ok(_) => Relocation::Renamed,
                    Err(reason) => Relocation::Failed(reason),
                };
                match raw.moveToLibrary(config, relocation) {
                    Ok(moved) => stepTo(Pipeline::Resolving(moved)),
                    Err(abort) => stepAbort(abort),
                }
            },
            (Pipeline::Resolving(raw), Event::Resolved(resolution)) => {
                match raw.makeRelativePath(config, resolution) {
                    Ok(relative) => stepTo(Pipeline::Probing(relative)),
                    Err(abort) => stepAbort(abort),
                }
            },
            (Pipeline::Probing(raw), Event::Probed(run)) => {
                match raw.probeMetadata(config, chance.now, run) {
                    Ok(found) => stepTo(Pipeline::Reading(found)),
                    Err(abort) => stepAbort(abort),
                }
            },
            (Pipeline::Reading(found), Event::Durations(durations)) => {
                match found.fillMetadata(config, durations) {
                    Ok(video) => stepTo(Pipeline::Thumbnailing(video)),
                    Err(abort) => stepAbort(abort),
                }
            },
            (Pipeline::Thumbnailing(video), Event::ThumbnailTaken(succeeded)) => {
                let taken = video.generateThumbnail(config, succeeded);
                Step { next: Pipeline::Committing(taken.video), remove: taken.remove }
            },
            (Pipeline::Committing(video), Event::Inserted(rows)) => {
                match video.addToDatabase(config, insertOutcome(rows)) {
                    Ok(video) => stepTo(Pipeline::Committed(video)),
                    Err(abort) => stepAbort(abort),
                }
            },
            (Pipeline::Committing(video), Event::IndexFailed(error)) => {
                match video.addToDatabase(config, Err(error)) {
                    Ok(video) => stepTo(Pipeline::Committed(video)),
                    Err(abort) => stepAbort(abort),
                }
            },
            (state, _) => {
                let remove = state.files(config);
                Step {
                    next: Pipeline::Aborted(
                        Error::RuntimeError(
                            String::from_str("Unexpected event for the state of the upload"),
                        ),
                    ),
                    remove,
                }
            },
        }
    }

    /// Moves the upload on after `event`. Where a number is to be drawn at
    /// random or the time is to be read, that is done here.
    pub fn advance(self, config: &Configuration, event: Event) -> (step: Step)
        ensures
            exists|chance: Chance| step@ == self@.step(config.video_dir@, event@, chance),
    {
        let chance = Chance::take();
        self.advanceWith(config, event, chance)
    }
}

/// Whether `next` is the stage that comes after `stage`.
pub open spec fn follows(stage: Stage, next: Stage) -> bool {
    ||| stage == Stage::Receiving && next == Stage::Addressed
    ||| stage == Stage::Addressed && next == Stage::Probed
    ||| stage == Stage::Probed && next == Stage::Thumbnailed
    ||| stage == Stage::Thumbnailed && next == Stage::Committed
}

/// No stage is left out: a step stays in its stage, reaches the stage that
/// comes next, or ends the upload.
pub proof fn lemma_no_stage_skipped(
    state: PipelineView,
    root: Seq<char>,
    event: EventView,
    chance: Chance,
)
    ensures
        ({
            let next = state.step(root, event, chance).next;
            ||| next.stage() == state.stage()
            ||| follows(state.stage(), next.stage())
            ||| next is Aborted
        }),
{
}

/// An upload that is over stays as it is, whatever happens, and nothing is
/// removed on its account.
pub proof fn lemma_over_is_over(
    state: PipelineView,
    root: Seq<char>,
    event: EventView,
    chance: Chance,
)
    requires
        state.is_over(),
    ensures
        state.step(root, event, chance) == StepView::to(state),
        state.action(root, 0) is Finish,
{
}

/// Whether the files of an upload have outlived the temporary file's
/// writing: the upload is being renamed, resolved, probed, read, given a
/// preview or committed.
pub open spec fn past_temp_write(state: PipelineView) -> bool {
    ||| state is Relocating
    ||| state is Renaming
    ||| state is Resolving
    ||| state is Probing
    ||| state is Reading
    ||| state is Thumbnailing
    ||| state is Committing
}

/// A failure after the temporary file was written leaves no file behind:
/// the step that ends the upload names the file of the upload for removal,
/// under the path by which the state knows it or, where its real place had
/// just been made out, under that.
pub proof fn lemma_failure_removes_file(
    state: PipelineView,
    root: Seq<char>,
    event: EventView,
    chance: Chance,
)
    requires
        past_temp_write(state),
        state.step(root, event, chance).next is Aborted,
    ensures
        ({
            let remove = state.step(root, event, chance).remove;
            ||| remove.contains(state.files(root)[0])
            ||| event matches EventView::Resolved(ResolutionView::Resolved { file, .. })
                && state is Resolving && remove == seq![file]
        }),
{
    let remove = state.step(root, event, chance).remove;
    match (state, event) {
        (PipelineView::Relocating(raw), EventView::Exists(taken)) => {
            assert(remove[0] == raw.path);
        },
        (PipelineView::Renaming(raw), EventView::Renamed(outcome)) => {
            assert(remove[0] == raw.path);
        },
        (PipelineView::Resolving(raw), EventView::Resolved(resolution)) => {
            match resolution {
                ResolutionView::Resolved { file, root: real_root } => {},
                _ => {
                    assert(remove[0] == raw.path);
                },
            }
        },
        (PipelineView::Probing(raw), EventView::Probed(run)) => {
            assert(remove[0] == library_path(root, raw.path));
        },
        (PipelineView::Reading(found), EventView::Durations(durations)) => {
            assert(remove[0] == library_path(root, found.video.path));
        },
        (PipelineView::Thumbnailing(video), EventView::ThumbnailTaken(succeeded)) => {},
        (PipelineView::Committing(video), EventView::Inserted(rows)) => {
            assert(remove[0] == library_path(root, video.path));
        },
        (PipelineView::Committing(video), EventView::IndexFailed(error)) => {
            assert(remove[0] == library_path(root, video.path));
        },
        _ => {
            assert(remove == state.files(root));
            assert(remove[0] == state.files(root)[0]);
        },
    }
}

/// A record reaches the index in one way only: the upload was being
/// committed, and the index added one row. The row is asked to be added in
/// no other state.
pub proof fn lemma_committed_by_insert_only(
    state: PipelineView,
    root: Seq<char>,
    event: EventView,
    chance: Chance,
)
    requires
        !(state is Committed),
    ensures
        state.step(root, event, chance).next is Committed <==> state is Committing && event
            == EventView::Inserted(Ok(1)),
        forall|quality: u8| state.action(root, quality) is Insert <==> state is Committing,
{
}

/// A place in the library that is taken is left alone. Before a file is
/// renamed, the machine asks whether its destination is free; where a file
/// lies there already, the upload ends with an error and only the file
/// that was to be moved is named for removal. The renaming is asked for in
/// one state only, and that state is reached in one way only: the
/// destination was found free.
pub proof fn lemma_taken_destination_is_left_alone(
    raw: RawVideoView,
    root: Seq<char>,
    state: PipelineView,
    event: EventView,
    chance: Chance,
)
    ensures
        forall|quality: u8|
            PipelineView::Relocating(raw).action(root, quality) == ActionView::CheckFree(
                raw.library_file(root),
            ),
        PipelineView::Relocating(raw).step(root, EventView::Exists(true), chance).next is Aborted,
        PipelineView::Relocating(raw).step(root, EventView::Exists(true), chance).remove
            == seq![raw.path],
        forall|quality: u8| state.action(root, quality) is Rename <==> state is Renaming,
        state.step(root, event, chance).next is Renaming ==> state is Relocating && event
            == EventView::Exists(false),
{
}

impl PipelineView {
    /// What holds of every upload on its way: its record has not been
    /// viewed; it has no preview before the preview is taken; and the
    /// preview it has after that lies beside the video, under the same name
    /// with the extension of preview images.
    pub open spec fn inv(self) -> bool {
        match self {
            PipelineView::Reading(found) => found.video.thumbnail_path is None
                && found.video.views == 0,
            PipelineView::Thumbnailing(video) => video.thumbnail_path is None && video.views == 0,
            PipelineView::Committing(video) => preview_in_place(video) && video.views == 0,
            PipelineView::Committed(video) => preview_in_place(video) && video.views == 0,
            _ => true,
        }
    }
}

/// Whether the preview of a record, if it has one, lies beside the video
/// under the same name with the extension of preview images.
pub open spec fn preview_in_place(video: VideoView) -> bool {
    video.thumbnail_path is None || video.thumbnail_path == Some(
        crate::paths::thumbnail_of(video.path),
    )
}

/// A record keeps its preview, or its lack of one, when the probe's report
/// is applied to it.
proof fn lemma_fill_keeps_thumbnail(
    video: VideoView,
    sections: Seq<crate::probe::SectionView>,
    durations: Seq<Option<TimeSpan>>,
    from: int,
    seen: bool,
)
    ensures
        crate::metadata::fill_from(video, sections, durations, from, seen) matches Ok(filled)
            ==> filled.thumbnail_path == video.thumbnail_path && filled.id == video.id
            && filled.path == video.path && filled.views == video.views,
    decreases sections.len() - from,
{
    if from < 0 || from >= sections.len() {
    } else if sections[from].name != "FORMAT"@ {
        lemma_fill_keeps_thumbnail(video, sections, durations, from + 1, seen);
    } else {
        match crate::metadata::fill_format(
            video,
            sections[from],
            crate::metadata::reading_at(durations, from),
        ) {
            Ok(filled) => {
                lemma_fill_keeps_thumbnail(filled, sections, durations, from + 1, true);
            },
            Err(_) => {},
        }
    }
}

/// The invariant holds when an upload starts, and every step keeps it.
pub proof fn lemma_inv_kept(
    state: PipelineView,
    root: Seq<char>,
    event: EventView,
    chance: Chance,
)
    ensures
        forall|filename: Option<Seq<char>>, draw: u32|
            (#[trigger] PipelineView::start(filename, root, draw)).inv(),
        state.inv() ==> state.step(root, event, chance).next.inv(),
{
    match (state, event) {
        (PipelineView::Reading(found), EventView::Durations(durations)) => {
            lemma_fill_keeps_thumbnail(found.video, found.sections, durations, 0, false);
        },
        _ => {},
    }
}

/// The preview is no condition of the record: a video whose preview
/// could not be taken goes on to be committed as it is, without one, and
/// nothing in the taking of a preview ever ends an upload.
pub proof fn lemma_thumbnail_failure_commits(video: VideoView, root: Seq<char>, chance: Chance)
    requires
        PipelineView::Thumbnailing(video).inv(),
    ensures
        PipelineView::Thumbnailing(video).step(root, EventView::ThumbnailTaken(false), chance).next
            == PipelineView::Committing(video),
        video.thumbnail_path is None,
        PipelineView::Committing(video).step(root, EventView::Inserted(Ok(1)), chance).next
            == PipelineView::Committed(video),
        forall|succeeded: bool|
            (#[trigger] PipelineView::Thumbnailing(video).step(
                root,
                EventView::ThumbnailTaken(succeeded),
                chance,
            )).next is Committing,
{
}

/// The way of an upload from `state` through the events `news`, each with
/// what chance had in store when it arrived.
pub open spec fn run(state: PipelineView, root: Seq<char>, news: Seq<(EventView, Chance)>)
    -> PipelineView
    decreases news.len(),
{
    if news.len() == 0 {
        state
    } else {
        run(state.step(root, news[0].0, news[0].1).next, root, news.drop_first())
    }
}

/// The bytes of the pieces of an upload that the events `news` tell of
/// before they tell of its end, in the order of their arrival.
pub open spec fn bytes_told(news: Seq<(EventView, Chance)>) -> Seq<u8>
    decreases news.len(),
{
    if news.len() == 0 {
        Seq::empty()
    } else {
        match news[0].0 {
            EventView::Chunk(bytes) => bytes + bytes_told(news.drop_first()),
            EventView::EndOfStream => Seq::empty(),
            _ => bytes_told(news.drop_first()),
        }
    }
}

/// Whether an upload in `state` is the upload of `content`, of which the
/// pieces `rest` are yet to arrive: while it is received, what it has
/// received and `rest` make up `content`; once it has an identifier, that
/// is the address of `content`.
pub open spec fn carries(state: PipelineView, content: Seq<u8>, rest: Seq<u8>) -> bool {
    match state {
        PipelineView::Naming { .. } => rest == content,
        PipelineView::Receiving(ingest) => ingest.received + rest == content,
        PipelineView::Aborted(_) => true,
        _ => state.id() == Some(crate::digest::content_id(crate::digest::sha256(content))),
    }
}

/// An upload that carries `content` and is committed after the events
/// `news` have arrived is stored under the address of `content`.
proof fn lemma_run_keeps_content(
    state: PipelineView,
    root: Seq<char>,
    news: Seq<(EventView, Chance)>,
    content: Seq<u8>,
)
    requires
        carries(state, content, bytes_told(news)),
        run(state, root, news) is Committed,
    ensures
        run(state, root, news).id() == Some(
            crate::digest::content_id(crate::digest::sha256(content)),
        ),
    decreases news.len(),
{
    if news.len() == 0 {
    } else {
        let event = news[0].0;
        let chance = news[0].1;
        let next = state.step(root, event, chance).next;
        let rest = news.drop_first();
        if next is Aborted {
            lemma_run_of_aborted(next, root, rest);
        } else {
            match (state, event) {
                (PipelineView::Receiving(ingest), EventView::Chunk(bytes)) => {
                    assert(ingest.received + bytes + bytes_told(rest) == ingest.received + (bytes
                        + bytes_told(rest)));
                },
                (PipelineView::Receiving(ingest), EventView::EndOfStream) => {
                    assert(ingest.received + Seq::<u8>::empty() == ingest.received);
                },
                (PipelineView::Naming { .. }, EventView::Exists(taken)) => {
                    assert(Seq::<u8>::empty() + bytes_told(rest) == bytes_told(rest));
                },
                (PipelineView::Reading(found), EventView::Durations(durations)) => {
                    lemma_fill_keeps_thumbnail(found.video, found.sections, durations, 0, false);
                },
                _ => {},
            }
            lemma_run_keeps_content(next, root, rest, content);
        }
    }
}

/// An upload that has failed stays failed.
proof fn lemma_run_of_aborted(state: PipelineView, root: Seq<char>, news: Seq<(EventView, Chance)>)
    requires
        state is Aborted,
    ensures
        run(state, root, news) == state,
    decreases news.len(),
{
    if news.len() > 0 {
        lemma_run_of_aborted(state, root, news.drop_first());
    }
}

/// The record of a committed upload is stored under the address of its
/// content: its identifier is the first six bytes, in hexadecimal, of the
/// SHA-256 digest of the bytes that arrived, in the order of arrival.
pub proof fn lemma_committed_id_is_content_address(
    filename: Option<Seq<char>>,
    root: Seq<char>,
    draw: u32,
    news: Seq<(EventView, Chance)>,
)
    requires
        run(PipelineView::start(filename, root, draw), root, news) is Committed,
    ensures
        run(PipelineView::start(filename, root, draw), root, news) matches PipelineView::Committed(
            video,
        ) && video.id == crate::digest::content_id(crate::digest::sha256(bytes_told(news))),
{
    lemma_run_keeps_content(PipelineView::start(filename, root, draw), root, news, bytes_told(news));
}

/// Two uploads of the same bytes, however they were cut into pieces and
/// whatever else differed, are stored under the same identifier. An index
/// that holds one record for each identifier takes only one of them.
pub proof fn lemma_same_content_same_id(
    root: Seq<char>,
    first_name: Option<Seq<char>>,
    first_draw: u32,
    first_news: Seq<(EventView, Chance)>,
    second_name: Option<Seq<char>>,
    second_draw: u32,
    second_news: Seq<(EventView, Chance)>,
)
    requires
        run(PipelineView::start(first_name, root, first_draw), root, first_news) is Committed,
        run(PipelineView::start(second_name, root, second_draw), root, second_news) is Committed,
        bytes_told(first_news) == bytes_told(second_news),
    ensures
        run(PipelineView::start(first_name, root, first_draw), root, first_news).id() == run(
            PipelineView::start(second_name, root, second_draw),
            root,
            second_news,
        ).id(),
{
    lemma_committed_id_is_content_address(first_name, root, first_draw, first_news);
    lemma_committed_id_is_content_address(second_name, root, second_draw, second_news);
}

} // verus!
