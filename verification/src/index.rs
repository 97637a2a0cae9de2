//! The index of records: what is stored of a video, what is read back, and
//! what the outcome of a statement means.
//!
//! The library does not talk to the database. It says what is to be
//! stored, and judges what came back.

use vstd::prelude::*;
use vstd::string::*;

use crate::config::Configuration;
use crate::error::{Error, ErrorView};
use crate::ingest::{oneFile, Abort, AbortView};
use crate::paths::{library_path, videoPath};
use crate::text::{concatText, decimal, decimalText};
use crate::video::{container_of_extension, ContainerType, TimeSpan, Video, VideoView};

verus! {

/// Where the index is kept.
#[derive(Debug, Clone)]
pub enum Source {
    /// In the file at this path.
    File(String),
    /// In memory, for as long as the process lives.
    Memory,
}

/// The orders in which a list of videos can be asked for.
#[derive(Debug, Clone, Copy, PartialEq, Eq, Structural)]
pub enum VideoOrder {
    NewFirst,
}

impl VideoOrder {
    /// The clause that puts a query into this order.
    pub open spec fn clause(self) -> Seq<char> {
        match self {
            VideoOrder::NewFirst => "ORDER BY upload_time DESC"@,
        }
    }

    /// The clause that puts a query into this order.
    pub fn orderClause(&self) -> (clause: &'static str)
        ensures
            clause@ == self.clause(),
    {
        match self {
            VideoOrder::NewFirst => "ORDER BY upload_time DESC",
        }
    }
}

/// Whether `time::OffsetDateTime` can hold the moment that lies `seconds`
/// seconds after the Unix epoch.
pub uninterp spec fn is_unix_timestamp(seconds: i64) -> bool;

/// Whether `seconds` after the Unix epoch is a moment that can be held.
///
/// Trusted: `time::OffsetDateTime::from_unix_timestamp`, which succeeds or
/// fails by the number alone.
#[verifier::external_body]
pub(crate) fn isUnixTimestamp(seconds: i64) -> (valid: bool)
    ensures
        valid == is_unix_timestamp(seconds),
{
    time::OffsetDateTime::from_unix_timestamp(seconds).is_ok()
}

/// A record as the index holds it.
#[derive(Debug)]
pub struct VideoRow {
    pub id: String,
    pub path: String,
    pub title: String,
    pub desc: String,
    pub artist: String,
    pub views: u32,
    pub upload_time: i64,
    /// The container, by its extension.
    pub container_type: String,
    pub original_filename: String,
    pub duration: TimeSpan,
    pub thumbnail_path: Option<String>,
}

/// The mathematical value of a [`VideoRow`].
pub struct VideoRowView {
    pub id: Seq<char>,
    pub path: Seq<char>,
    pub title: Seq<char>,
    pub desc: Seq<char>,
    pub artist: Seq<char>,
    pub views: u32,
    pub upload_time: i64,
    pub container_type: Seq<char>,
    pub original_filename: Seq<char>,
    pub duration: TimeSpan,
    pub thumbnail_path: Option<Seq<char>>,
}

impl View for VideoRow {
    type V = VideoRowView;

    open spec fn view(&self) -> VideoRowView {
        VideoRowView {
            id: self.id@,
            path: self.path@,
            title: self.title@,
            desc: self.desc@,
            artist: self.artist@,
            views: self.views,
            upload_time: self.upload_time,
            container_type: self.container_type@,
            original_filename: self.original_filename@,
            duration: self.duration,
            thumbnail_path: match self.thumbnail_path {
                Some(path) => Some(path@),
                None => None,
            },
        }
    }
}

/// Why a row of the index is no record.
#[derive(Debug)]
pub enum RowFault {
    /// The upload time is no moment that can be held.
    UploadTimeOutOfRange(i64),
    /// The container is none the library knows.
    InvalidContainer(String),
}

/// The mathematical value of a [`RowFault`].
pub enum RowFaultView {
    UploadTimeOutOfRange(i64),
    InvalidContainer(Seq<char>),
}

impl View for RowFault {
    type V = RowFaultView;

    open spec fn view(&self) -> RowFaultView {
        match self {
            RowFault::UploadTimeOutOfRange(seconds) => RowFaultView::UploadTimeOutOfRange(*seconds),
            RowFault::InvalidContainer(ext) => RowFaultView::InvalidContainer(ext@),
        }
    }
}

/// The error for a row whose container is written as `ext`.
pub fn invalidContainer(ext: &str) -> (error: Error)
    ensures
        error@ == ErrorView::RuntimeError("Invalid extension name from database: "@ + ext@),
{
    Error::RuntimeError(concatText("Invalid extension name from database: ", ext))
}

impl VideoView {
    /// The row under which the record enters the index: as it is, but
    /// with no views yet.
    pub open spec fn row(self) -> VideoRowView {
        VideoRowView {
            id: self.id,
            path: self.path,
            title: self.title,
            desc: self.desc,
            artist: self.artist,
            views: 0,
            upload_time: self.upload_time,
            container_type: self.container_type.extension(),
            original_filename: self.original_filename,
            duration: self.duration,
            thumbnail_path: self.thumbnail_path,
        }
    }
}

impl VideoRowView {
    /// The record that the row holds. The upload time is looked at first.
    pub open spec fn record(self) -> Result<VideoView, RowFaultView> {
        if !is_unix_timestamp(self.upload_time) {
            Err(RowFaultView::UploadTimeOutOfRange(self.upload_time))
        } else {
            match container_of_extension(self.container_type) {
                None => Err(RowFaultView::InvalidContainer(self.container_type)),
                Some(container) => Ok(
                    VideoView {
                        id: self.id,
                        path: self.path,
                        title: self.title,
                        desc: self.desc,
                        artist: self.artist,
                        views: self.views,
                        upload_time: self.upload_time,
                        container_type: container,
                        original_filename: self.original_filename,
                        duration: self.duration,
                        thumbnail_path: self.thumbnail_path,
                    },
                ),
            }
        }
    }
}

impl Video {
    /// The row under which the record enters the index: as it is, but
    /// with no views yet.
    pub fn toRow(&self) -> (row: VideoRow)
        ensures
            row@ == self@.row(),
    {
        VideoRow {
            id: self.id.clone(),
            path: self.path.clone(),
            title: self.title.clone(),
            desc: self.desc.clone(),
            artist: self.artist.clone(),
            views: 0,
            upload_time: self.upload_time,
            container_type: String::from_str(self.container_type.toExtension()),
            original_filename: self.original_filename.clone(),
            duration: self.duration,
            thumbnail_path: match &self.thumbnail_path {
                Some(path) => Some(path.clone()),
                None => None,
            },
        }
    }

    /// The record that a row of the index holds. A row whose upload time
    /// is no moment that can be held, or whose container is none the
    /// library knows, holds none.
    pub fn fromRow(row: VideoRow) -> (result: Result<Video, RowFault>)
        ensures
            match row@.record() {
                Ok(expected) => result matches Ok(video) && video@ == expected,
                Err(expected) => result matches Err(fault) && fault@ == expected,
            },
    {
        if !isUnixTimestamp(row.upload_time) {
            return Err(RowFault::UploadTimeOutOfRange(row.upload_time));
        }
        match ContainerType::fromExtension(row.container_type.as_str()) {
            None => Err(RowFault::InvalidContainer(row.container_type)),
            Some(container) => Ok(
                Video {
                    id: row.id,
                    path: row.path,
                    title: row.title,
                    desc: row.desc,
                    artist: row.artist,
                    views: row.views,
                    upload_time: row.upload_time,
                    container_type: container,
                    original_filename: row.original_filename,
                    duration: row.duration,
                    thumbnail_path: row.thumbnail_path,
                },
            ),
        }
    }
}

/// What enters the index is what is read back: the row of a record holds
/// that record, with no views, as long as its upload time is a moment that
/// can be held.
pub proof fn lemma_row_holds_record(video: VideoView)
    requires
        is_unix_timestamp(video.upload_time),
    ensures
        video.row().record() == Ok::<VideoView, RowFaultView>(VideoView { views: 0, ..video }),
{
    crate::video::lemma_extension_names_container(video.container_type);
}

/// What a statement of the index did: the number of rows it changed, or
/// the reason for which it failed.
pub open spec fn rows_view(rows: Result<usize, String>) -> Result<usize, Seq<char>> {
    match rows {
        Ok(count) => Ok(count),
        Err(reason) => Err(reason@),
    }
}

/// What the outcome of the statement that adds a record means: the record
/// is in the index exactly where one row was added.
pub open spec fn insert_outcome(rows: Result<usize, Seq<char>>) -> Result<(), ErrorView> {
    match rows {
        Err(reason) => Err(ErrorView::DataError("Failed to add video: "@ + reason)),
        Ok(count) => if count == 1 {
            Ok(())
        } else {
            Err(ErrorView::DataError("Invalid insert happened"@))
        },
    }
}

/// The view of the outcome of a step that yields nothing.
pub open spec fn unit_outcome_view(outcome: Result<(), Error>) -> Result<(), ErrorView> {
    match outcome {
        Ok(_) => Ok(()),
        Err(error) => Err(error@),
    }
}

/// What the outcome of the statement that adds a record means: the record
/// is in the index exactly where one row was added. An index that already
/// holds a record under the same identifier refuses the statement.
pub fn insertOutcome(rows: Result<usize, String>) -> (outcome: Result<(), Error>)
    ensures
        unit_outcome_view(outcome) == insert_outcome(rows_view(rows)),
{
    match rows {
        Err(reason) => Err(Error::DataError(concatText("Failed to add video: ", reason.as_str()))),
        Ok(count) => {
            if count == 1 {
                Ok(())
            } else {
                Err(Error::DataError(String::from_str("Invalid insert happened")))
            }
        },
    }
}

/// What the outcome of the statement that notes a login means: the
/// login is noted exactly where one row was added.
pub open spec fn session_outcome(rows: Result<usize, Seq<char>>) -> Result<(), ErrorView> {
    match rows {
        Err(reason) => Err(ErrorView::DataError("Failed to create session: "@ + reason)),
        Ok(count) => if count == 1 {
            Ok(())
        } else {
            Err(ErrorView::DataError("Invalid insert happened"@))
        },
    }
}

/// What the outcome of the statement that notes a login means: the
/// login is noted exactly where one row was added.
pub fn sessionOutcome(rows: Result<usize, String>) -> (outcome: Result<(), Error>)
    ensures
        unit_outcome_view(outcome) == session_outcome(rows_view(rows)),
{
    match rows {
        Err(reason) => Err(
            Error::DataError(concatText("Failed to create session: ", reason.as_str())),
        ),
        Ok(count) => {
            if count == 1 {
                Ok(())
            } else {
                Err(Error::DataError(String::from_str("Invalid insert happened")))
            }
        },
    }
}

/// The message for a view that could not be counted.
pub open spec fn view_count_message(id: Seq<char>, detail: Seq<char>) -> Seq<char> {
    "Failed to increase view count for video "@ + id + ": "@ + detail
}

/// What the outcome of the statement that counts a view of the video `id`
/// means: the view is counted exactly where one row was changed.
pub open spec fn view_count_outcome(id: Seq<char>, rows: Result<usize, Seq<char>>) -> Result<
    (),
    ErrorView,
> {
    match rows {
        Err(reason) => Err(ErrorView::DataError(view_count_message(id, reason))),
        Ok(count) => if count == 1 {
            Ok(())
        } else {
            Err(
                ErrorView::DataError(
                    view_count_message(
                        id,
                        "number of affected rows: "@ + decimal(count as nat) + " != 1."@,
                    ),
                ),
            )
        },
    }
}

/// What the outcome of the statement that counts a view of the video `id`
/// means: the view is counted exactly where one row was changed. No row is
/// changed where the index holds no such video.
pub fn viewCountOutcome(id: &str, rows: Result<usize, String>) -> (outcome: Result<(), Error>)
    ensures
        unit_outcome_view(outcome) == view_count_outcome(id@, rows_view(rows)),
{
    let mut message = concatText("Failed to increase view count for video ", id);
    message.append(": ");
    match rows {
        Err(reason) => {
            message.append(reason.as_str());
            Err(Error::DataError(message))
        },
        Ok(count) => {
            if count == 1 {
                Ok(())
            } else {
                let number = decimalText(count as u128);
                let mut detail = concatText("number of affected rows: ", number.as_str());
                detail.append(" != 1.");
                message.append(detail.as_str());
                Err(Error::DataError(message))
            }
        },
    }
}

/// What the attempt to enter a record into the index makes of it, in the
/// library whose directory is `root`. Where the index did not take the
/// record, the file of the video is to be removed, so that no file lies in
/// the library that the index does not know.
pub open spec fn committed(video: VideoView, root: Seq<char>, inserted: Result<(), ErrorView>)
    -> Result<VideoView, AbortView> {
    match inserted {
        Ok(_) => Ok(video),
        Err(error) => Err(AbortView { error, remove: seq![library_path(root, video.path)] }),
    }
}

impl Video {
    /// Takes note of the attempt to enter the record into the index.
    ///
    /// The row [`Video::toRow`] is to be added to the index first, and
    /// `inserted` says what became of that, see [`insertOutcome`]. Where
    /// the index did not take the record, the file of the video is to be
    /// removed.
    pub fn addToDatabase(self, config: &Configuration, inserted: Result<(), Error>) -> (result:
        Result<Video, Abort>)
        ensures
            match committed(self@, config.video_dir@, unit_outcome_view(inserted)) {
                Ok(expected) => result matches Ok(video) && video@ == expected,
                Err(expected) => result matches Err(abort) && abort@ == expected,
            },
    {
        match inserted {
            Ok(_) => Ok(self),
            Err(error) => {
                let media = videoPath(&self, config);
                Err(Abort { error, remove: oneFile(media) })
            },
        }
    }
}

/// The moment before which a login has run out: `life_time` seconds
/// before `now`.
pub open spec fn session_cutoff(now: i64, life_time: u64) -> Option<u64> {
    if 0 <= now && life_time <= now {
        Some((now - life_time) as u64)
    } else {
        None
    }
}

/// The moment before which a login has run out: `life_time` seconds
/// before `now`, both counted from the Unix epoch. There is none where
/// that would lie before the epoch; no login has run out then.
pub fn sessionCutoff(now: i64, life_time: u64) -> (cutoff: Option<u64>)
    ensures
        cutoff == session_cutoff(now, life_time),
{
    if now >= 0 && life_time <= now as u64 {
        Some(now as u64 - life_time)
    } else {
        None
    }
}

/// What the look-up of a login means: the time of the login, where the
/// index holds it and it is a moment that can be held.
pub open spec fn session_time(found: Option<i64>) -> Result<i64, ErrorView> {
    match found {
        None => Err(ErrorView::RuntimeError("Session not found"@)),
        Some(seconds) => if is_unix_timestamp(seconds) {
            Ok(seconds)
        } else {
            Err(ErrorView::RuntimeError("Invalid auth time"@))
        },
    }
}

/// What the look-up of a login means: the time of the login, where the
/// index holds it and it is a moment that can be held.
pub fn sessionTime(found: Option<i64>) -> (result: Result<i64, Error>)
    ensures
        match session_time(found) {
            Ok(seconds) => result == Ok::<i64, Error>(seconds),
            Err(expected) => result matches Err(error) && error@ == expected,
        },
{
    match found {
        None => Err(Error::RuntimeError(String::from_str("Session not found"))),
        Some(seconds) => {
            if isUnixTimestamp(seconds) {
                Ok(seconds)
            } else {
                Err(Error::RuntimeError(String::from_str("Invalid auth time")))
            }
        },
    }
}

} // verus!
