use metube::error::Error;
use metube::metadata::{durationTexts, fillProbedMetadata, probeArguments, probeVideo, ProbeRun};
use metube::probe::{parseProbeOutput, ProbedMetadataSection};
use metube::video::{ContainerType, TimeSpan, Video};

fn section(name: &str, pairs: &[(&str, &str)]) -> ProbedMetadataSection {
    let mut section = ProbedMetadataSection::new();
    section.name = name.to_owned();
    for (key, value) in pairs {
        section.insert((*key).to_owned(), (*value).to_owned());
    }
    section
}

fn blank() -> Video {
    Video::new("id".to_owned(), "id.webm".to_owned())
}

fn ten_seconds() -> Option<TimeSpan> {
    Some(TimeSpan::fromSeconds(10))
}

fn runtime_message(result: Result<Video, Error>) -> String {
    match result {
        Ok(video) => panic!("filled a record from a bad report: {:?}", video),
        Err(Error::RuntimeError(message)) => message,
        Err(other) => panic!("unexpected kind of error: {:?}", other),
    }
}

#[test]
fn fill_from_format_section() {
    let format = section(
        "FORMAT",
        &[
            ("format_name", "matroska,webm"),
            ("duration", "10.000000"),
            ("TAG:title", "T"),
            ("TAG:artist", "A"),
            ("TAG:comment", "C"),
        ],
    );
    let video = fillProbedMetadata(blank(), vec![format], vec![ten_seconds()]).unwrap();
    assert_eq!(video.container_type, ContainerType::WebM);
    assert_eq!(video.duration, TimeSpan::fromSeconds(10));
    assert_eq!(video.title, "T");
    assert_eq!(video.artist, "A");
    assert_eq!(video.desc, "C");
    assert_eq!(video.id, "id");
    assert_eq!(video.path, "id.webm");
    assert_eq!(video.thumbnail_path, None);
    assert_eq!(video.views, 0);
}

#[test]
fn fill_leaves_missing_tags_alone() {
    let format = section(
        "FORMAT",
        &[("format_name", "mov,mp4,m4a,3gp,3g2,mj2"), ("duration", "1.5")],
    );
    let mut start = blank();
    start.title = "kept".to_owned();
    start.container_type = ContainerType::WebM;
    let span = TimeSpan { nanoseconds: 1_500_000_000 };
    let video = fillProbedMetadata(start, vec![format], vec![Some(span)]).unwrap();
    assert_eq!(video.container_type, ContainerType::Mp4);
    assert_eq!(video.duration, span);
    assert_eq!(video.title, "kept");
    assert_eq!(video.desc, "");
    assert_eq!(video.artist, "");
}

#[test]
fn fill_reads_tag_keys_in_any_case() {
    let format = section(
        "FORMAT",
        &[
            ("format_name", "matroska,webm"),
            ("duration", "10.0"),
            ("TAG:Artist", "A"),
            ("tag:TiTlE", "T"),
            ("Tag:Comment", "C"),
        ],
    );
    let video = Video::new("abc".to_owned(), "abc.webm".to_owned());
    let video = fillProbedMetadata(video, vec![format], vec![ten_seconds()]).unwrap();
    assert_eq!(video.artist, "A");
    assert_eq!(video.title, "T");
    assert_eq!(video.desc, "C");
}

#[test]
fn fill_reads_upper_and_lower_case_tags() {
    for (title, comment, artist) in [
        ("TAG:title", "TAG:comment", "TAG:artist"),
        ("TAG:TITLE", "TAG:COMMENT", "TAG:ARTIST"),
        ("TAG:title", "TAG:comment", "TAG:author"),
        ("TAG:TITLE", "TAG:COMMENT", "TAG:AUTHOR"),
    ] {
        let format = section(
            "FORMAT",
            &[
                ("format_name", "matroska,webm"),
                ("duration", "10"),
                (title, "the title"),
                (comment, "the comment"),
                (artist, "the artist"),
            ],
        );
        let video = fillProbedMetadata(blank(), vec![format], vec![ten_seconds()]).unwrap();
        assert_eq!(video.title, "the title");
        assert_eq!(video.desc, "the comment");
        assert_eq!(video.artist, "the artist");
    }
}

#[test]
fn fill_takes_the_last_spelling_of_a_tag() {
    let format = section(
        "FORMAT",
        &[
            ("format_name", "matroska,webm"),
            ("duration", "10"),
            ("TAG:TITLE", "first title"),
            ("TAG:title", "second title"),
            ("TAG:Title", "third title"),
            ("TAG:comment", "first comment"),
            ("TAG:COMMENT", "second comment"),
        ],
    );
    let video = fillProbedMetadata(blank(), vec![format], vec![ten_seconds()]).unwrap();
    assert_eq!(video.title, "third title");
    assert_eq!(video.desc, "second comment");
}

#[test]
fn fill_prefers_artist_over_author() {
    let base = [("format_name", "matroska,webm"), ("duration", "10")];
    let cases: [(&[(&str, &str)], &str); 5] = [
        (&[("TAG:artist", "1"), ("TAG:author", "2")], "1"),
        (&[("TAG:author", "2"), ("TAG:artist", "1")], "1"),
        (&[("TAG:AUTHOR", "4"), ("TAG:ARTIST", "3"), ("TAG:author", "2")], "3"),
        (&[("TAG:author", "2"), ("TAG:AUTHOR", "4")], "4"),
        (&[("TAG:Author", "5")], "5"),
    ];
    for (tags, expected) in cases {
        let mut pairs = base.to_vec();
        pairs.extend_from_slice(tags);
        let video =
            fillProbedMetadata(blank(), vec![section("FORMAT", &pairs)], vec![ten_seconds()])
                .unwrap();
        assert_eq!(video.artist, expected);
    }
}

#[test]
fn fill_reads_other_keys_as_written() {
    let format = section("FORMAT", &[("Format_Name", "matroska,webm"), ("duration", "10")]);
    assert_eq!(
        runtime_message(fillProbedMetadata(blank(), vec![format], vec![ten_seconds()])),
        "format_name not found"
    );
    let format = section("FORMAT", &[("format_name", "matroska,webm"), ("DURATION", "10")]);
    assert_eq!(
        runtime_message(fillProbedMetadata(blank(), vec![format], vec![ten_seconds()])),
        "Duration not found"
    );
    let format = section(
        "FORMAT",
        &[("format_name", "matroska,webm"), ("duration", "10"), ("title", "no tag")],
    );
    let video = fillProbedMetadata(blank(), vec![format], vec![ten_seconds()]).unwrap();
    assert_eq!(video.title, "");
}

#[test]
fn fill_ignores_other_sections() {
    let stream = section("STREAM", &[("format_name", "avi"), ("TAG:title", "stream title")]);
    let format = section("FORMAT", &[("format_name", "matroska,webm"), ("duration", "10")]);
    let video =
        fillProbedMetadata(blank(), vec![stream, format], vec![None, ten_seconds()]).unwrap();
    assert_eq!(video.container_type, ContainerType::WebM);
    assert_eq!(video.title, "");
}

#[test]
fn fill_later_format_section_counts() {
    let first = section(
        "FORMAT",
        &[("format_name", "matroska,webm"), ("duration", "10"), ("TAG:title", "first")],
    );
    let second = section(
        "FORMAT",
        &[("format_name", "mov,mp4,m4a,3gp,3g2,mj2"), ("duration", "20"), ("TAG:artist", "second")],
    );
    let video = fillProbedMetadata(
        blank(),
        vec![first, second],
        vec![ten_seconds(), Some(TimeSpan::fromSeconds(20))],
    )
    .unwrap();
    assert_eq!(video.container_type, ContainerType::Mp4);
    assert_eq!(video.duration, TimeSpan::fromSeconds(20));
    assert_eq!(video.title, "first");
    assert_eq!(video.artist, "second");
}

#[test]
fn fill_rejects_report_without_format() {
    let stream = section("STREAM", &[("index", "0")]);
    assert_eq!(
        runtime_message(fillProbedMetadata(blank(), vec![stream], vec![None])),
        "FORMAT section not found"
    );
    assert_eq!(
        runtime_message(fillProbedMetadata(blank(), vec![], vec![])),
        "FORMAT section not found"
    );
}

#[test]
fn fill_rejects_missing_format_name() {
    let format = section("FORMAT", &[("duration", "10")]);
    assert_eq!(
        runtime_message(fillProbedMetadata(blank(), vec![format], vec![ten_seconds()])),
        "format_name not found"
    );
}

#[test]
fn fill_rejects_unknown_format() {
    let format = section("FORMAT", &[("format_name", "avi"), ("duration", "10")]);
    assert_eq!(
        runtime_message(fillProbedMetadata(blank(), vec![format], vec![ten_seconds()])),
        "Unsupported format_name: avi"
    );
}

#[test]
fn fill_rejects_missing_duration() {
    let format = section("FORMAT", &[("format_name", "matroska,webm")]);
    assert_eq!(
        runtime_message(fillProbedMetadata(blank(), vec![format], vec![ten_seconds()])),
        "Duration not found"
    );
}

#[test]
fn fill_rejects_unread_duration() {
    let format = section("FORMAT", &[("format_name", "matroska,webm"), ("duration", "N/A")]);
    assert_eq!(
        runtime_message(fillProbedMetadata(blank(), vec![format], vec![None])),
        "Invalid duration: N/A"
    );
    let format = section("FORMAT", &[("format_name", "matroska,webm"), ("duration", "10")]);
    assert_eq!(
        runtime_message(fillProbedMetadata(blank(), vec![format], vec![])),
        "Invalid duration: 10"
    );
}

#[test]
fn fill_reports_first_fault() {
    let format = section("FORMAT", &[("format_name", "avi")]);
    assert_eq!(
        runtime_message(fillProbedMetadata(blank(), vec![format], vec![None])),
        "Unsupported format_name: avi"
    );
    let good = section("FORMAT", &[("format_name", "matroska,webm"), ("duration", "10")]);
    let bad = section("FORMAT", &[("duration", "10")]);
    assert_eq!(
        runtime_message(fillProbedMetadata(
            blank(),
            vec![good, bad],
            vec![ten_seconds(), ten_seconds()]
        )),
        "format_name not found"
    );
}

#[test]
fn duration_texts_follow_sections() {
    let sections = vec![
        section("STREAM", &[("duration", "1")]),
        section("FORMAT", &[("format_name", "matroska,webm")]),
        section("FORMAT", &[("duration", "10.000000")]),
        section("format", &[("duration", "2")]),
    ];
    assert_eq!(
        durationTexts(&sections),
        vec![None, None, Some("10.000000".to_owned()), None]
    );
    assert_eq!(durationTexts(&vec![]), Vec::<Option<String>>::new());
}

#[test]
fn probe_arguments() {
    assert_eq!(probeArguments("/lib/a.webm"), vec!["-show_format", "/lib/a.webm"]);
}

#[test]
fn probe_run_outcomes() {
    let sections =
        probeVideo(ProbeRun::Output("[FORMAT]\nduration=1\n[/FORMAT]\n".to_owned())).unwrap();
    assert_eq!(sections.len(), 1);
    assert_eq!(sections[0].get("duration").map(|v| v.as_str()), Some("1"));
    let message = |run: ProbeRun| match probeVideo(run) {
        Err(Error::RuntimeError(message)) => message,
        other => panic!("unexpected outcome: {:?}", other),
    };
    assert_eq!(message(ProbeRun::ExitCode(1)), "Ffprobe failed with code 1.");
    assert_eq!(message(ProbeRun::ExitCode(-11)), "Ffprobe failed with code -11.");
    assert_eq!(message(ProbeRun::ExitCode(i32::MIN)), "Ffprobe failed with code -2147483648.");
    assert_eq!(message(ProbeRun::Signal), "Ffprobe terminated with signal.");
    assert_eq!(
        message(ProbeRun::Unavailable("No such file or directory".to_owned())),
        "Failed to run ffprobe: No such file or directory"
    );
    assert_eq!(
        message(ProbeRun::Output("[FORMAT]\n".to_owned())),
        "Unterminated section: FORMAT"
    );
}

#[test]
fn parse_then_fill() {
    let report = "[FORMAT]\nfilename=/lib/id.webm\nnb_streams=2\nformat_name=matroska,webm\nformat_long_name=Matroska / WebM\nstart_time=0.000000\nduration=10.007000\nsize=102400\nTAG:title=AV1 + Opus test\nTAG:ARTIST=MetroWind\nTAG:COMMENT=It's a test\n[/FORMAT]\n";
    let sections = parseProbeOutput(report).unwrap();
    assert_eq!(durationTexts(&sections), vec![Some("10.007000".to_owned())]);
    let span = TimeSpan { nanoseconds: 10_007_000_000 };
    let video = fillProbedMetadata(blank(), sections, vec![Some(span)]).unwrap();
    assert_eq!(video.title, "AV1 + Opus test");
    assert_eq!(video.artist, "MetroWind");
    assert_eq!(video.desc, "It's a test");
    assert_eq!(video.container_type, ContainerType::WebM);
    assert_eq!(video.duration, span);
}
