use metube::config::Configuration;
use metube::error::Error;
use metube::ingest::{
    tempCandidate, tempPath, Abort, RawVideo, Relocation, Resolution, UploadingVideo,
};
use metube::paths::{expectedThumbnailPath, extensionOrNone, thumbnailOf, videoPath};
use metube::video::Video;

fn config() -> Configuration {
    let mut config = Configuration::default();
    config.video_dir = "/srv/videos".to_owned();
    config
}

fn raw(path: &str) -> RawVideo {
    RawVideo {
        path: path.to_owned(),
        hash: "ba7816bf8f01".to_owned(),
        original_filename: "clip.webm".to_owned(),
    }
}

fn runtime(abort: &Abort) -> &str {
    match &abort.error {
        Error::RuntimeError(message) => message,
        other => panic!("unexpected kind of error: {:?}", other),
    }
}

#[test]
fn temp_candidates() {
    assert_eq!(tempCandidate("/srv/videos", 0), "/srv/videos/temp-0");
    assert_eq!(tempCandidate("/srv/videos/", 42), "/srv/videos/temp-42");
    assert_eq!(tempCandidate(".", u32::MAX), "./temp-4294967295");
}

#[test]
fn extension_of_file_names() {
    assert_eq!(extensionOrNone("clip.webm"), "webm");
    assert_eq!(extensionOrNone("clip.tar.GZ"), "GZ");
    assert_eq!(extensionOrNone("clip"), "");
    assert_eq!(extensionOrNone(".hidden"), "");
    assert_eq!(extensionOrNone("dir.d/clip"), "");
    assert_eq!(extensionOrNone("clip."), "");
    assert_eq!(extensionOrNone(""), "");
}

#[test]
fn upload_without_name_is_bad_request() {
    let upload = UploadingVideo { filename: None };
    match upload.saveToTemp("/srv/videos/temp-1") {
        Err(Error::HTTPStatus(400, message)) => assert_eq!(message, "No filename in upload"),
        Err(other) => panic!("unexpected error: {:?}", other),
        Ok(_) => panic!("took an upload without a name"),
    }
}

#[test]
fn temp_paths_take_the_extension_of_the_upload() {
    assert_eq!(tempPath("/srv/videos", 7, "clip.webm"), "/srv/videos/temp-7.webm");
    assert_eq!(tempPath("/srv/videos", 7, "clip.tar.GZ"), "/srv/videos/temp-7.GZ");
    assert_eq!(tempPath("/srv/videos", 7, "clip"), "/srv/videos/temp-7");
    assert_eq!(tempPath("/srv/videos", 7, ""), "/srv/videos/temp-7");
    assert_eq!(tempPath(".", 0, ".hidden"), "./temp-0");
}

#[test]
fn upload_goes_to_the_temp_file() {
    let upload = UploadingVideo { filename: Some("clip.webm".to_owned()) };
    let ingest = upload.saveToTemp("/srv/videos/temp-7.webm").ok().unwrap();
    assert_eq!(ingest.tempPath(), "/srv/videos/temp-7.webm");
    assert_eq!(ingest.originalFilename(), "clip.webm");

    let upload = UploadingVideo { filename: Some(String::new()) };
    let ingest = upload.saveToTemp("/srv/videos/temp-7").ok().unwrap();
    assert_eq!(ingest.tempPath(), "/srv/videos/temp-7");
    assert_eq!(ingest.originalFilename(), "");
}

#[test]
fn ingest_is_named_after_its_content() {
    let upload = UploadingVideo { filename: Some("clip.webm".to_owned()) };
    let mut ingest = upload.saveToTemp("/srv/videos/temp-7.webm").ok().unwrap();
    ingest.absorb(b"a");
    ingest.absorb(b"");
    ingest.absorb(b"bc");
    let raw = ingest.finish();
    assert_eq!(raw.hash, "ba7816bf8f01");
    assert_eq!(raw.hash.len(), 12);
    assert!(raw.hash.bytes().all(|b| b.is_ascii_hexdigit() && !b.is_ascii_uppercase()));
    assert_eq!(raw.path, "/srv/videos/temp-7.webm");
    assert_eq!(raw.original_filename, "clip.webm");

    let upload = UploadingVideo { filename: Some("empty.mp4".to_owned()) };
    let raw = upload.saveToTemp("temp-1").ok().unwrap().finish();
    assert_eq!(raw.hash, "e3b0c44298fc");
}

#[test]
fn same_bytes_same_id_however_cut() {
    let whole = UploadingVideo { filename: Some("a.webm".to_owned()) };
    let mut first = whole.saveToTemp("temp-1").ok().unwrap();
    first.absorb(b"hello world");
    let pieces = UploadingVideo { filename: Some("b.mp4".to_owned()) };
    let mut second = pieces.saveToTemp("temp-2").ok().unwrap();
    second.absorb(b"hello");
    second.absorb(b" ");
    second.absorb(b"world");
    let first = first.finish();
    let second = second.finish();
    assert_eq!(first.hash, "b94d27b9934d");
    assert_eq!(first.hash, second.hash);
}

#[test]
fn ingest_failures_name_the_temp_file() {
    let start = || {
        UploadingVideo { filename: Some("clip.webm".to_owned()) }
            .saveToTemp("/srv/videos/temp-7.webm")
            .ok()
            .unwrap()
    };
    let abort = start().createFailed("Permission denied");
    assert_eq!(runtime(&abort), "Failed to open temp file: Permission denied");
    assert!(abort.remove.is_empty());
    let abort = start().streamFailed("connection reset");
    assert_eq!(runtime(&abort), "Failed to acquire buffer from form data: connection reset");
    assert_eq!(abort.remove, vec!["/srv/videos/temp-7.webm"]);
    let abort = start().writeFailed("No space left on device");
    assert_eq!(runtime(&abort), "Failed to write temp file: No space left on device");
    assert_eq!(abort.remove, vec!["/srv/videos/temp-7.webm"]);
}

#[test]
fn library_file_is_id_with_extension() {
    assert_eq!(raw("/srv/videos/temp-7.webm").libraryFile(&config()), "/srv/videos/ba7816bf8f01.webm");
    assert_eq!(raw("/srv/videos/temp-7.MP4").libraryFile(&config()), "/srv/videos/ba7816bf8f01.MP4");
    assert_eq!(raw("/srv/videos/temp-7").libraryFile(&config()), "/srv/videos/ba7816bf8f01");
}

#[test]
fn move_to_library() {
    let moved =
        raw("/srv/videos/temp-7.webm").moveToLibrary(&config(), Relocation::Renamed).unwrap();
    assert_eq!(moved.path, "/srv/videos/ba7816bf8f01.webm");
    assert_eq!(moved.hash, "ba7816bf8f01");
    assert_eq!(moved.original_filename, "clip.webm");

    let abort = raw("/srv/videos/temp-7.webm")
        .moveToLibrary(&config(), Relocation::Failed("Invalid cross-device link".to_owned()))
        .unwrap_err();
    assert_eq!(runtime(&abort), "Failed to rename temp file: Invalid cross-device link");
    assert_eq!(
        abort.remove,
        vec!["/srv/videos/temp-7.webm", "/srv/videos/ba7816bf8f01.webm"]
    );
}

#[test]
fn move_to_a_taken_place_fails_and_leaves_it_alone() {
    let abort =
        raw("/srv/videos/temp-7.webm").moveToLibrary(&config(), Relocation::Taken).unwrap_err();
    assert_eq!(
        runtime(&abort),
        "Failed to rename temp file: \"/srv/videos/ba7816bf8f01.webm\" exists"
    );
    assert_eq!(abort.remove, vec!["/srv/videos/temp-7.webm"]);
}

#[test]
fn make_relative_path() {
    let resolved = Resolution::Resolved {
        file: "/mnt/disk/videos/ba7816bf8f01.webm".to_owned(),
        root: "/mnt/disk/videos".to_owned(),
    };
    let relative =
        raw("/srv/videos/ba7816bf8f01.webm").makeRelativePath(&config(), resolved).unwrap();
    assert_eq!(relative.path, "ba7816bf8f01.webm");
    assert_eq!(relative.hash, "ba7816bf8f01");
    assert_eq!(relative.original_filename, "clip.webm");
}

#[test]
fn make_relative_path_failures() {
    let file = "/srv/videos/ba7816bf8f01.webm";
    let outside = Resolution::Resolved {
        file: "/elsewhere/ba7816bf8f01.webm".to_owned(),
        root: "/mnt/disk/videos".to_owned(),
    };
    let abort = raw(file).makeRelativePath(&config(), outside).unwrap_err();
    assert_eq!(runtime(&abort), "Video is not in the video directory.");
    assert_eq!(abort.remove, vec!["/elsewhere/ba7816bf8f01.webm"]);

    let abort = raw(file)
        .makeRelativePath(&config(), Resolution::FileUnresolved("No such file".to_owned()))
        .unwrap_err();
    assert_eq!(
        runtime(&abort),
        "Failed to canonicalize path \"/srv/videos/ba7816bf8f01.webm\": No such file"
    );
    assert_eq!(abort.remove, vec![file]);

    let abort = raw(file)
        .makeRelativePath(&config(), Resolution::RootUnresolved("Permission denied".to_owned()))
        .unwrap_err();
    assert_eq!(
        runtime(&abort),
        "Failed to canonicalize path \"/srv/videos\": Permission denied"
    );
    assert_eq!(abort.remove, vec![file]);

    let abort = raw(file)
        .makeRelativePath(
            &config(),
            Resolution::Missing { file: "/mnt/disk/videos/ba7816bf8f01.webm".to_owned() },
        )
        .unwrap_err();
    assert_eq!(runtime(&abort), "Video not found: \"/mnt/disk/videos/ba7816bf8f01.webm\"");
    assert_eq!(abort.remove, vec![file]);
}

#[test]
fn paths_of_a_video() {
    let video = Video::new("ba7816bf8f01".to_owned(), "ba7816bf8f01.webm".to_owned());
    assert_eq!(videoPath(&video, &config()), "/srv/videos/ba7816bf8f01.webm");
    assert_eq!(expectedThumbnailPath(&video, &config()), "/srv/videos/ba7816bf8f01.webp");
    assert_eq!(thumbnailOf("ba7816bf8f01.webm"), "ba7816bf8f01.webp");
    assert_eq!(thumbnailOf("ba7816bf8f01"), "ba7816bf8f01.webp");
    assert_eq!(raw("ba7816bf8f01.webm").mediaFile(&config()), "/srv/videos/ba7816bf8f01.webm");
}
