use metube::error::Error;
use metube::probe::{classifyLine, parseProbeOutput, ProbeLine, ProbedMetadataSection};
use metube::text::splitLines;

fn message_of(result: Result<Vec<ProbedMetadataSection>, Error>) -> String {
    match result {
        Ok(sections) => panic!("read {} sections from a broken report", sections.len()),
        Err(Error::RuntimeError(message)) => message,
        Err(other) => panic!("unexpected kind of error: {:?}", other),
    }
}

#[test]
fn lines_are_cut_like_str_lines() {
    let samples = [
        "",
        "\n",
        "a",
        "a\n",
        "a\r\n",
        "a\rb\n",
        "a\n\nb",
        "a\r\n\r\nb\r",
        "\r",
        "\r\n\r",
        "one\ntwo\r\nthree\n",
        "tr\u{e9}s\nbien\n",
    ];
    for sample in samples {
        let expected: Vec<String> = sample.lines().map(|line| line.to_owned()).collect();
        assert_eq!(splitLines(sample), expected, "lines of {:?}", sample);
    }
}

#[test]
fn classify_tags_and_pairs() {
    assert!(matches!(classifyLine(""), ProbeLine::Blank));
    assert!(matches!(classifyLine("[FORMAT]"), ProbeLine::Begin(name) if name == "FORMAT"));
    assert!(matches!(classifyLine("[/FORMAT]"), ProbeLine::End(name) if name == "FORMAT"));
    assert!(matches!(classifyLine("[a=b]"), ProbeLine::Begin(name) if name == "a=b"));
    assert!(matches!(classifyLine("[a]b]"), ProbeLine::Begin(name) if name == "a]b"));
    assert!(matches!(
        classifyLine("TAG:title=a=b"),
        ProbeLine::Pair(key, value) if key == "TAG:title" && value == "a=b"
    ));
    assert!(matches!(classifyLine("=x"), ProbeLine::Pair(key, value) if key == "" && value == "x"));
    assert!(matches!(classifyLine("x="), ProbeLine::Pair(key, value) if key == "x" && value == ""));
    assert!(matches!(classifyLine("[]"), ProbeLine::Malformed));
    assert!(matches!(classifyLine("[/]"), ProbeLine::Malformed));
    assert!(matches!(classifyLine("[a/b]"), ProbeLine::Malformed));
    assert!(matches!(classifyLine("[/a/b]"), ProbeLine::Malformed));
    assert!(matches!(classifyLine("no equals sign"), ProbeLine::Malformed));
    assert!(matches!(classifyLine("[a/b]=c"), ProbeLine::Pair(key, value) if key == "[a/b]" && value == "c"));
}

#[test]
fn parse_format_section() {
    let report = "[FORMAT]\nfilename=/tmp/a.webm\nformat_name=matroska,webm\nduration=10.000000\n\nTAG:title=T\n[/FORMAT]\n";
    let sections = parseProbeOutput(report).unwrap();
    assert_eq!(sections.len(), 1);
    assert_eq!(sections[0].name, "FORMAT");
    assert_eq!(sections[0].get("format_name").map(|v| v.as_str()), Some("matroska,webm"));
    assert_eq!(sections[0].get("duration").map(|v| v.as_str()), Some("10.000000"));
    assert_eq!(sections[0].get("TAG:title").map(|v| v.as_str()), Some("T"));
    assert_eq!(sections[0].get("filename").map(|v| v.as_str()), Some("/tmp/a.webm"));
    assert!(sections[0].get("TAG:artist").is_none());
}

#[test]
fn parse_keeps_order_of_sections() {
    let report = "[STREAM]\r\nindex=0\r\n[/STREAM]\r\n\r\n[FORMAT]\r\nnb_streams=1\r\n[/FORMAT]\r\n";
    let sections = parseProbeOutput(report).unwrap();
    assert_eq!(sections.len(), 2);
    assert_eq!(sections[0].name, "STREAM");
    assert_eq!(sections[0].get("index").map(|v| v.as_str()), Some("0"));
    assert_eq!(sections[1].name, "FORMAT");
    assert_eq!(sections[1].get("nb_streams").map(|v| v.as_str()), Some("1"));
    assert!(sections[1].get("index").is_none());
}

#[test]
fn parse_empty_report() {
    assert!(parseProbeOutput("").unwrap().is_empty());
    assert!(parseProbeOutput("\n\n\r\n").unwrap().is_empty());
}

#[test]
fn parse_last_value_of_a_key_counts() {
    let sections = parseProbeOutput("[FORMAT]\na=1\nb=2\na=3\n[/FORMAT]").unwrap();
    assert_eq!(sections[0].get("a").map(|v| v.as_str()), Some("3"));
    assert_eq!(sections[0].get("b").map(|v| v.as_str()), Some("2"));
}

#[test]
fn parse_rejects_unmatched_end() {
    let message = message_of(parseProbeOutput("[FORMAT]\na=1\n[/STREAM]\n"));
    assert_eq!(message, "Unmatched section end: expect FORMAT, found STREAM.");
}

#[test]
fn parse_rejects_end_without_begin() {
    let message = message_of(parseProbeOutput("[/FORMAT]\n"));
    assert_eq!(message, "Unmatched section end: expect , found FORMAT.");
    let message = message_of(parseProbeOutput("[FORMAT]\n[/FORMAT]\n[/FORMAT]\n"));
    assert_eq!(message, "Unmatched section end: expect , found FORMAT.");
}

#[test]
fn parse_rejects_line_without_equals() {
    let message = message_of(parseProbeOutput("[FORMAT]\nduration\n[/FORMAT]\n"));
    assert_eq!(message, "Invalid metadata line: duration");
}

#[test]
fn parse_rejects_pair_outside_section() {
    let message = message_of(parseProbeOutput("a=1\n[FORMAT]\n[/FORMAT]\n"));
    assert_eq!(message, "Invalid metadata line: a=1");
    let message = message_of(parseProbeOutput("[FORMAT]\n[/FORMAT]\nb=2\n"));
    assert_eq!(message, "Invalid metadata line: b=2");
}

#[test]
fn parse_rejects_truncated_report() {
    let message = message_of(parseProbeOutput("[FORMAT]\nformat_name=matroska,webm\n"));
    assert_eq!(message, "Unterminated section: FORMAT");
}

#[test]
fn parse_rejects_section_inside_section() {
    let message = message_of(parseProbeOutput("[STREAM]\n[FORMAT]\n[/FORMAT]\n[/STREAM]\n"));
    assert_eq!(message, "Unterminated section: STREAM");
}

#[test]
fn section_insert_and_get() {
    let mut section = ProbedMetadataSection::new();
    assert_eq!(section.name, "");
    assert!(section.get("k").is_none());
    section.insert("k".to_owned(), "v1".to_owned());
    section.insert("other".to_owned(), "x".to_owned());
    assert_eq!(section.get("k").map(|v| v.as_str()), Some("v1"));
    section.insert("k".to_owned(), "v2".to_owned());
    assert_eq!(section.get("k").map(|v| v.as_str()), Some("v2"));
    assert_eq!(section.get("other").map(|v| v.as_str()), Some("x"));
}

#[test]
fn section_get_without_regard_to_case() {
    let mut section = ProbedMetadataSection::named("FORMAT".to_owned());
    assert_eq!(section.name, "FORMAT");
    assert!(section.getFolded("tag:artist").is_none());
    section.insert("TAG:Artist".to_owned(), "A".to_owned());
    section.insert("TAG:title".to_owned(), "T".to_owned());
    assert_eq!(section.getFolded("tag:artist").map(|v| v.as_str()), Some("A"));
    assert_eq!(section.getFolded("tag:title").map(|v| v.as_str()), Some("T"));
    assert!(section.get("TAG:artist").is_none());
    assert!(section.getFolded("TAG:Artist").is_none());
    section.insert("tag:ARTIST".to_owned(), "B".to_owned());
    assert_eq!(section.getFolded("tag:artist").map(|v| v.as_str()), Some("B"));
    assert_eq!(section.get("TAG:Artist").map(|v| v.as_str()), Some("A"));
    section.insert("TAG:\u{c4}rtist".to_owned(), "C".to_owned());
    assert!(section.getFolded("tag:\u{e4}rtist").is_none());
}
