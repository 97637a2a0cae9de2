//! Taking an upload in: from the bytes that arrive to a file of the
//! library that is named after its content.
//!
//! The library does not touch the file system. Each step here says what is
//! to be done, takes the outcome of what was done, and says where the
//! upload stands then. A step that fails names the files that are to be
//! removed so that nothing of the upload is left behind.

use vstd::prelude::*;
use vstd::string::*;

use crate::config::Configuration;
use crate::digest::{contentId, content_id, hasher_input, is_hex_char, sha256, ContentHasher};
use crate::error::{Error, ErrorView};
use crate::paths::{
    extensionOrNone, extension_or_none, joinPath, path_join, path_quoted, path_strip_prefix,
    path_with_extension, quotePath, stripPrefix, withExtension,
};
use crate::text::{concatText, decimal, decimalText};

verus! {

/// The end of an upload that failed: why, and which files are to be
/// removed, as far as they exist.
#[derive(Debug)]
pub struct Abort {
    pub error: Error,
    pub remove: Vec<String>,
}

/// The mathematical value of an [`Abort`].
pub struct AbortView {
    pub error: ErrorView,
    pub remove: Seq<Seq<char>>,
}

/// The texts of a list of strings.
pub open spec fn texts_view(texts: Seq<String>) -> Seq<Seq<char>> {
    texts.map_values(|text: String| text@)
}

impl View for Abort {
    type V = AbortView;

    open spec fn view(&self) -> AbortView {
        AbortView { error: self.error@, remove: texts_view(self.remove@) }
    }
}

impl AbortView {
    /// A failure of the server with the message `prefix` followed by
    /// `reason`, after which `remove` is to be removed.
    pub open spec fn runtime(prefix: Seq<char>, reason: Seq<char>, remove: Seq<Seq<char>>)
        -> AbortView {
        AbortView { error: ErrorView::RuntimeError(prefix + reason), remove }
    }
}

/// No files.
pub(crate) fn noFiles() -> (files: Vec<String>)
    ensures
        texts_view(files@) == Seq::<Seq<char>>::empty(),
{
    Vec::new()
}

/// The one file `path`.
pub(crate) fn oneFile(path: String) -> (files: Vec<String>)
    ensures
        texts_view(files@) == seq![path@],
{
    let mut files: Vec<String> = Vec::new();
    files.push(path);
    files
}

/// The two files `first` and `second`.
fn twoFiles(first: String, second: String) -> (files: Vec<String>)
    ensures
        texts_view(files@) == seq![first@, second@],
{
    let mut files: Vec<String> = Vec::new();
    files.push(first);
    files.push(second);
    files
}

impl Abort {
    /// A failure of the server with the message `prefix` followed by
    /// `reason`, after which `remove` is to be removed.
    pub(crate) fn runtime(prefix: &str, reason: &str, remove: Vec<String>) -> (abort: Abort)
        ensures
            abort@ == AbortView::runtime(prefix@, reason@, texts_view(remove@)),
    {
        Abort { error: Error::RuntimeError(concatText(prefix, reason)), remove }
    }
}

/// The name of the temporary file for the draw `draw`.
pub open spec fn temp_name(draw: u32) -> Seq<char> {
    "temp-"@ + decimal(draw as nat)
}

/// Where the temporary file for the draw `draw` lies in `dir`, before it
/// takes the extension of the uploaded file.
pub open spec fn temp_candidate(dir: Seq<char>, draw: u32) -> Seq<char> {
    path_join(dir, temp_name(draw))
}

/// Where the temporary file for the draw `draw` lies in `dir`, before it
/// takes the extension of the uploaded file.
pub fn tempCandidate(dir: &str, draw: u32) -> (path: String)
    ensures
        path@ == temp_candidate(dir@, draw),
{
    let number = decimalText(draw as u128);
    let name = concatText("temp-", number.as_str());
    joinPath(dir, name.as_str())
}

/// Where the temporary file for the draw `draw` lies in `dir` for an
/// upload that names the file `filename`: under the name of the draw, with
/// the extension of the uploaded file.
pub open spec fn temp_path(dir: Seq<char>, draw: u32, filename: Seq<char>) -> Seq<char> {
    path_with_extension(temp_candidate(dir, draw), extension_or_none(filename))
}

/// Where the temporary file for the draw `draw` lies in `dir` for an
/// upload that names the file `filename`.
pub fn tempPath(dir: &str, draw: u32, filename: &str) -> (path: String)
    ensures
        path@ == temp_path(dir@, draw, filename@),
{
    let candidate = tempCandidate(dir, draw);
    let ext = extensionOrNone(filename);
    withExtension(candidate.as_str(), ext.as_str())
}

/// An upload as it arrives: the name that the client gave the file, if it
/// gave one. The bytes follow piece by piece.
#[derive(Debug)]
pub struct UploadingVideo {
    pub filename: Option<String>,
}

/// An upload while its bytes are written to a temporary file.
pub struct RawIngest {
    temp_path: String,
    original_filename: String,
    hasher: ContentHasher,
}

/// The mathematical value of a [`RawIngest`].
pub struct RawIngestView {
    /// Where the bytes are written to.
    pub temp_path: Seq<char>,
    /// The name that the client gave the file.
    pub original_filename: Seq<char>,
    /// The bytes received so far.
    pub received: Seq<u8>,
}

impl View for RawIngest {
    type V = RawIngestView;

    closed spec fn view(&self) -> RawIngestView {
        RawIngestView {
            temp_path: self.temp_path@,
            original_filename: self.original_filename@,
            received: hasher_input(self.hasher),
        }
    }
}

/// A video file that has been received in full.
#[derive(Debug)]
pub struct RawVideo {
    /// Where the file lies.
    pub path: String,
    /// The identifier derived from the content of the file.
    pub hash: String,
    /// The name that the client gave the file.
    pub original_filename: String,
}

/// The mathematical value of a [`RawVideo`].
pub struct RawVideoView {
    pub path: Seq<char>,
    pub hash: Seq<char>,
    pub original_filename: Seq<char>,
}

impl View for RawVideo {
    type V = RawVideoView;

    open spec fn view(&self) -> RawVideoView {
        RawVideoView {
            path: self.path@,
            hash: self.hash@,
            original_filename: self.original_filename@,
        }
    }
}

/// The error for an upload that names no file.
pub open spec fn no_filename() -> ErrorView {
    ErrorView::HTTPStatus(400, "No filename in upload"@)
}

/// The error for an upload that names no file.
pub(crate) fn noFilename() -> (error: Error)
    ensures
        error@ == no_filename(),
{
    Error::HTTPStatus(400, String::from_str("No filename in upload"))
}

impl UploadingVideo {
    /// Starts to take the upload in.
    ///
    /// `temp_path` is a path in the library's directory at which no file
    /// lies, see [`tempPath`]. The bytes are to be written to that path, so
    /// that the file can later be renamed without leaving the volume. An
    /// upload that names no file is turned down as a bad request, and
    /// nothing is to be written.
    pub fn saveToTemp(self, temp_path: &str) -> (result: Result<RawIngest, Error>)
        ensures
            match self.filename {
                Some(given) => result matches Ok(ingest) && ingest@ == (RawIngestView {
                    temp_path: temp_path@,
                    original_filename: given@,
                    received: Seq::empty(),
                }),
                None => result matches Err(error) && error@ == no_filename(),
            },
    {
        match self.filename {
            Some(given) => {
                Ok(
                    RawIngest {
                        temp_path: String::from_str(temp_path),
                        original_filename: given,
                        hasher: ContentHasher::new(),
                    },
                )
            },
            None => Err(noFilename()),
        }
    }
}

impl RawIngestView {
    /// The upload after `chunk` has arrived.
    pub open spec fn with_chunk(self, chunk: Seq<u8>) -> RawIngestView {
        RawIngestView { received: self.received + chunk, ..self }
    }

    /// The file that the upload has become once all of it has arrived:
    /// named after the first bytes of the digest of what was received.
    pub open spec fn finished(self) -> RawVideoView {
        RawVideoView {
            path: self.temp_path,
            hash: content_id(sha256(self.received)),
            original_filename: self.original_filename,
        }
    }
}

impl RawIngest {
    /// Where the bytes are written to.
    pub fn tempPath(&self) -> (path: &str)
        ensures
            path@ == self@.temp_path,
    {
        self.temp_path.as_str()
    }

    /// The name that the client gave the file.
    pub fn originalFilename(&self) -> (name: &str)
        ensures
            name@ == self@.original_filename,
    {
        self.original_filename.as_str()
    }

    /// Takes note of a piece of the upload. It is to be appended to the
    /// temporary file next, so that the digest covers what the file holds.
    pub fn absorb(&mut self, chunk: &[u8])
        ensures
            final(self)@ == old(self)@.with_chunk(chunk@),
    {
        self.hasher.update(chunk);
    }

    /// The upload has arrived in full: the file at the temporary path is a
    /// video file, identified by the digest of the bytes received. The
    /// identifier has twelve lower-case hexadecimal digits.
    pub fn finish(self) -> (raw: RawVideo)
        ensures
            raw@ == self@.finished(),
            raw.hash@.len() == 12,
            forall|i: int| 0 <= i < 12 ==> is_hex_char(#[trigger] raw.hash@[i]),
    {
        let digest = self.hasher.finalize();
        RawVideo {
            path: self.temp_path,
            hash: contentId(&digest),
            original_filename: self.original_filename,
        }
    }

    /// The temporary file could not be created. There is nothing to remove.
    pub fn createFailed(self, reason: &str) -> (abort: Abort)
        ensures
            abort@ == AbortView::runtime("Failed to open temp file: "@, reason@, Seq::empty()),
    {
        Abort::runtime("Failed to open temp file: ", reason, noFiles())
    }

    /// The upload broke off. The temporary file is to be removed.
    pub fn streamFailed(self, reason: &str) -> (abort: Abort)
        ensures
            abort@ == AbortView::runtime(
                "Failed to acquire buffer from form data: "@,
                reason@,
                seq![self@.temp_path],
            ),
    {
        Abort::runtime(
            "Failed to acquire buffer from form data: ",
            reason,
            oneFile(self.temp_path),
        )
    }

    /// A piece of the upload could not be written. The temporary file is to
    /// be removed.
    pub fn writeFailed(self, reason: &str) -> (abort: Abort)
        ensures
            abort@ == AbortView::runtime(
                "Failed to write temp file: "@,
                reason@,
                seq![self@.temp_path],
            ),
    {
        Abort::runtime("Failed to write temp file: ", reason, oneFile(self.temp_path))
    }
}

/// What became of the attempt to find out where a file really lies.
#[derive(Debug)]
pub enum Resolution {
    /// The file exists; it and the library's directory really lie here.
    Resolved { file: String, root: String },
    /// Where the file really lies could not be found out.
    FileUnresolved(String),
    /// Where the library's directory really lies could not be found out.
    RootUnresolved(String),
    /// The file really lies here, but is gone.
    Missing { file: String },
}

/// The mathematical value of a [`Resolution`].
pub enum ResolutionView {
    Resolved { file: Seq<char>, root: Seq<char> },
    FileUnresolved(Seq<char>),
    RootUnresolved(Seq<char>),
    Missing { file: Seq<char> },
}

impl View for Resolution {
    type V = ResolutionView;

    open spec fn view(&self) -> ResolutionView {
        match self {
            Resolution::Resolved { file, root } => ResolutionView::Resolved {
                file: file@,
                root: root@,
            },
            Resolution::FileUnresolved(reason) => ResolutionView::FileUnresolved(reason@),
            Resolution::RootUnresolved(reason) => ResolutionView::RootUnresolved(reason@),
            Resolution::Missing { file } => ResolutionView::Missing { file: file@ },
        }
    }
}

/// What became of the attempt to move a file to its place in the library.
#[derive(Debug)]
pub enum Relocation {
    /// A file lies at the destination already; nothing was renamed.
    Taken,
    /// The file was renamed.
    Renamed,
    /// The renaming failed.
    Failed(String),
}

/// The mathematical value of a [`Relocation`].
pub enum RelocationView {
    Taken,
    Renamed,
    Failed(Seq<char>),
}

impl View for Relocation {
    type V = RelocationView;

    open spec fn view(&self) -> RelocationView {
        match self {
            Relocation::Taken => RelocationView::Taken,
            Relocation::Renamed => RelocationView::Renamed,
            Relocation::Failed(reason) => RelocationView::Failed(reason@),
        }
    }
}

/// What became of a renaming, as the system told it.
pub open spec fn renaming(outcome: Result<(), Seq<char>>) -> RelocationView {
    match outcome {
        Ok(_) => RelocationView::Renamed,
        Err(reason) => RelocationView::Failed(reason),
    }
}

/// The message for a path whose real place could not be found out.
pub open spec fn unresolved_message(path: Seq<char>, reason: Seq<char>) -> Seq<char> {
    "Failed to canonicalize path "@ + path_quoted(path) + ": "@ + reason
}

impl RawVideoView {
    /// Where the file is to lie in the library whose directory is `root`:
    /// under the name of its identifier, with the extension it has now.
    pub open spec fn library_file(self, root: Seq<char>) -> Seq<char> {
        path_with_extension(path_join(root, self.hash), extension_or_none(self.path))
    }

    /// The same file at another path.
    pub open spec fn at(self, path: Seq<char>) -> RawVideoView {
        RawVideoView { path, ..self }
    }

    /// Where the file stands after the attempt to move it into the library
    /// whose directory is `root`. A destination that is taken is an error:
    /// the file that lies there stays, and the file that was to be moved
    /// is to be removed. Where the renaming failed, both the file and
    /// whatever it left at the destination are to be removed.
    pub open spec fn moved(self, root: Seq<char>, relocation: RelocationView) -> Result<
        RawVideoView,
        AbortView,
    > {
        match relocation {
            RelocationView::Taken => Err(
                AbortView::runtime(
                    "Failed to rename temp file: "@,
                    path_quoted(self.library_file(root)) + " exists"@,
                    seq![self.path],
                ),
            ),
            RelocationView::Renamed => Ok(self.at(self.library_file(root))),
            RelocationView::Failed(reason) => Err(
                AbortView::runtime(
                    "Failed to rename temp file: "@,
                    reason,
                    seq![self.path, self.library_file(root)],
                ),
            ),
        }
    }

    /// Where the file stands after the attempt to find its place relative
    /// to the library whose directory is `root`. In every case of failure
    /// the file is to be removed.
    pub open spec fn relative(self, root: Seq<char>, resolution: ResolutionView) -> Result<
        RawVideoView,
        AbortView,
    > {
        match resolution {
            ResolutionView::FileUnresolved(reason) => Err(
                AbortView {
                    error: ErrorView::RuntimeError(unresolved_message(self.path, reason)),
                    remove: seq![self.path],
                },
            ),
            ResolutionView::RootUnresolved(reason) => Err(
                AbortView {
                    error: ErrorView::RuntimeError(unresolved_message(root, reason)),
                    remove: seq![self.path],
                },
            ),
            ResolutionView::Missing { file } => Err(
                AbortView {
                    error: ErrorView::RuntimeError("Video not found: "@ + path_quoted(file)),
                    remove: seq![self.path],
                },
            ),
            ResolutionView::Resolved { file, root: real_root } => match path_strip_prefix(
                file,
                real_root,
            ) {
                Some(rest) => Ok(self.at(rest)),
                None => Err(
                    AbortView {
                        error: ErrorView::RuntimeError("Video is not in the video directory."@),
                        remove: seq![file],
                    },
                ),
            },
        }
    }
}

/// The text of a failure that an operation of the system reported.
pub open spec fn outcome_view(outcome: Result<(), String>) -> Result<(), Seq<char>> {
    match outcome {
        Ok(_) => Ok(()),
        Err(reason) => Err(reason@),
    }
}

/// What a step made of a file: the file at its next stand, or the end of
/// the upload.
pub open spec fn raw_step_view(step: Result<RawVideo, Abort>) -> Result<RawVideoView, AbortView> {
    match step {
        Ok(raw) => Ok(raw@),
        Err(abort) => Err(abort@),
    }
}

/// The message for a path whose real place could not be found out.
fn unresolvedMessage(path: &str, reason: &str) -> (message: String)
    ensures
        message@ == unresolved_message(path@, reason@),
{
    let quoted = quotePath(path);
    let mut message = concatText("Failed to canonicalize path ", quoted.as_str());
    message.append(": ");
    message.append(reason);
    message
}

impl RawVideo {
    /// Where the file is to lie in the library: in the library's directory,
    /// under the name of its identifier, with the extension it has now.
    pub fn libraryFile(&self, config: &Configuration) -> (path: String)
        ensures
            path@ == self@.library_file(config.video_dir@),
    {
        let ext = extensionOrNone(self.path.as_str());
        let stem = joinPath(config.video_dir.as_str(), self.hash.as_str());
        withExtension(stem.as_str(), ext.as_str())
    }

    /// Moves the file into the library.
    ///
    /// The file is to be renamed to [`RawVideo::libraryFile`] unless a
    /// file lies there already, and `relocation` says what became of that.
    /// A destination that is taken is an error, and the file that lies
    /// there is left alone: the file that was to be moved is to be
    /// removed. Where the renaming failed, the file and whatever it left at
    /// the destination are to be removed.
    pub fn moveToLibrary(self, config: &Configuration, relocation: Relocation) -> (result: Result<
        RawVideo,
        Abort,
    >)
        ensures
            raw_step_view(result) == self@.moved(config.video_dir@, relocation@),
    {
        let destination = self.libraryFile(config);
        match relocation {
            Relocation::Taken => {
                let quoted = quotePath(destination.as_str());
                let reason = concatText(quoted.as_str(), " exists");
                Err(
                    Abort::runtime(
                        "Failed to rename temp file: ",
                        reason.as_str(),
                        oneFile(self.path),
                    ),
                )
            },
            Relocation::Renamed => Ok(
                RawVideo {
                    path: destination,
                    hash: self.hash,
                    original_filename: self.original_filename,
                },
            ),
            Relocation::Failed(reason) => Err(
                Abort::runtime(
                    "Failed to rename temp file: ",
                    reason.as_str(),
                    twoFiles(self.path, destination),
                ),
            ),
        }
    }

    /// Replaces the path of the file by its path relative to the library's
    /// directory.
    ///
    /// Where the file and the library's directory really lie is to be
    /// found out first, and `resolution` says what became of that. A file
    /// that does not lie under the library's directory is an error, and so
    /// is each failure to find out; the file is to be removed then.
    pub fn makeRelativePath(self, config: &Configuration, resolution: Resolution) -> (result:
        Result<RawVideo, Abort>)
        ensures
            raw_step_view(result) == self@.relative(config.video_dir@, resolution@),
    {
        match resolution {
            Resolution::FileUnresolved(reason) => {
                let message = unresolvedMessage(self.path.as_str(), reason.as_str());
                Err(Abort { error: Error::RuntimeError(message), remove: oneFile(self.path) })
            },
            Resolution::RootUnresolved(reason) => {
                let message = unresolvedMessage(config.video_dir.as_str(), reason.as_str());
                Err(Abort { error: Error::RuntimeError(message), remove: oneFile(self.path) })
            },
            Resolution::Missing { file } => {
                let quoted = quotePath(file.as_str());
                let message = concatText("Video not found: ", quoted.as_str());
                Err(Abort { error: Error::RuntimeError(message), remove: oneFile(self.path) })
            },
            Resolution::Resolved { file, root } => {
                match stripPrefix(file.as_str(), root.as_str()) {
                    Some(rest) => Ok(
                        RawVideo {
                            path: rest,
                            hash: self.hash,
                            original_filename: self.original_filename,
                        },
                    ),
                    None => Err(
                        Abort {
                            error: Error::RuntimeError(
                                String::from_str("Video is not in the video directory."),
                            ),
                            remove: oneFile(file),
                        },
                    ),
                }
            },
        }
    }
}

} // verus!
