use metube::config::{Configuration, SiteInfo};
use metube::error::Error;
use metube::site::{
    basicCredential, challengeHeader, checkLogin, createToken, makeCookie, pathPrefix,
    serveSegments, siteUrl, splitOn, tokenOf, urlFor, Login,
};
use metube::video::{ContainerType, TimeSpan, Video};

#[test]
fn url_for_pages() {
    assert_eq!(urlFor("index", "x"), "/");
    assert_eq!(urlFor("video", "ba7816bf8f01"), "/v/ba7816bf8f01");
    assert_eq!(urlFor("upload", "x"), "/upload/");
    assert_eq!(urlFor("login", ""), "/login/");
    assert_eq!(urlFor("static", "style.css"), "/static/style.css");
    assert_eq!(urlFor("video_file", "ba7816bf8f01.webm"), "/video/ba7816bf8f01.webm");
    assert_eq!(urlFor("nonsense", "x"), "/");
    assert_eq!(urlFor("", "x"), "/");
    assert_eq!(urlFor("Video", "x"), "/");
}

#[test]
fn path_prefix() {
    assert_eq!(pathPrefix(""), "");
    assert_eq!(pathPrefix("/"), "");
    assert_eq!(pathPrefix("/tube"), "/tube");
    assert_eq!(pathPrefix("tube"), "/tube");
    assert_eq!(pathPrefix("/a/b"), "/a/b");
    assert_eq!(siteUrl("/tube", "video", "abc"), "/tube/v/abc");
    assert_eq!(siteUrl("/", "video", "abc"), "/v/abc");
    assert_eq!(siteUrl("tube", "index", ""), "/tube/");
}

#[test]
fn split_like_str_split() {
    for sample in ["", "/", "a", "a/b", "/a/b", "a/", "//", "a//b/", "\u{e9}/\u{e8}"] {
        let expected: Vec<String> = sample.split('/').map(|piece| piece.to_owned()).collect();
        assert_eq!(splitOn(sample, '/'), expected, "pieces of {:?}", sample);
    }
    assert_eq!(splitOn("a=b=c", '='), vec!["a", "b", "c"]);
}

#[test]
fn serve_segments() {
    assert_eq!(serveSegments(""), Vec::<String>::new());
    assert_eq!(serveSegments("/"), Vec::<String>::new());
    assert_eq!(serveSegments("/tube"), vec!["tube"]);
    assert_eq!(serveSegments("tube"), vec!["tube"]);
    assert_eq!(serveSegments("/a/b"), vec!["a", "b"]);
    assert_eq!(serveSegments("a/b"), vec!["a", "b"]);
    assert_eq!(serveSegments("/a/"), vec!["a", ""]);
    assert_eq!(serveSegments("//"), vec!["", ""]);
}

#[test]
fn cookie_text() {
    assert_eq!(
        makeCookie("abc".to_owned(), 2_592_000),
        "metube-token=abc; Max-Age=2592000; Path=/"
    );
    assert_eq!(makeCookie(String::new(), 0), "metube-token=; Max-Age=0; Path=/");
}

#[test]
fn tokens() {
    let seed: [u8; 16] = [0, 1, 2, 3, 4, 5, 6, 7, 8, 9, 10, 11, 12, 13, 14, 15];
    assert_eq!(tokenOf(&seed), "AAECAwQFBgcICQoLDA0ODw");
    assert_eq!(tokenOf(&[0u8; 16]), "AAAAAAAAAAAAAAAAAAAAAA");
    let token = createToken();
    assert_eq!(token.len(), 22);
    assert!(token.bytes().all(|b| b.is_ascii_alphanumeric() || b == b'+' || b == b'/'));
}

#[test]
fn credential() {
    assert_eq!(basicCredential("metube").as_deref(), Some("dXNlcjptZXR1YmU="));
    assert_eq!(basicCredential("secret").as_deref(), Some("dXNlcjpzZWNyZXQ="));
}

#[test]
fn login_decisions() {
    assert_eq!(checkLogin(None, "metube").unwrap(), Login::Challenge);
    assert_eq!(checkLogin(Some("Basic dXNlcjptZXR1YmU="), "metube").unwrap(), Login::Granted);
    let refused = |header: &str, password: &str| match checkLogin(Some(header), password) {
        Err(Error::HTTPStatus(401, message)) => message,
        other => panic!("unexpected outcome: {:?}", other),
    };
    assert_eq!(refused("Basic dXNlcjpzZWNyZXQ=", "metube"), "Invalid credential");
    assert_eq!(refused("Basic ", "metube"), "Invalid credential");
    assert_eq!(refused("Basic dXNlcjptZXR1YmU", "metube"), "Invalid credential");
    assert_eq!(refused("Basic dXNlcjptZXR1YmU= ", "metube"), "Invalid credential");
    assert_eq!(refused("basic dXNlcjptZXR1YmU=", "metube"), "Not using basic authentication");
    assert_eq!(refused("Digest abc", "metube"), "Not using basic authentication");
    assert_eq!(refused("Basic", "metube"), "Not using basic authentication");
    assert_eq!(refused("", "metube"), "Not using basic authentication");
    assert_eq!(challengeHeader(), "Basic realm=\"metube\", charset=\"UTF-8\"");
}

#[test]
fn fields_of_a_record() {
    let mut video = Video::new("ba7816bf8f01".to_owned(), "ba7816bf8f01.webm".to_owned());
    video.original_filename = "clip.webm".to_owned();
    video.desc = "C".to_owned();
    video.artist = "A".to_owned();
    video.views = 4;
    video.upload_time = 1_546_300_800;
    video.container_type = ContainerType::WebM;
    video.duration = TimeSpan { nanoseconds: 3_725_500_000_000 };
    let fields = video.fields().unwrap();
    assert_eq!(fields.id, "ba7816bf8f01");
    assert_eq!(fields.path, "ba7816bf8f01.webm");
    assert_eq!(fields.title, "clip.webm");
    assert_eq!(fields.desc, "C");
    assert_eq!(fields.artist, "A");
    assert_eq!(fields.views, 4);
    assert_eq!(fields.upload_time, 1_546_300_800);
    assert_eq!(fields.upload_time_utc_str, "2019-01-01 00:00:00 UTC");
    assert_eq!(fields.container_type, "webm");
    assert_eq!(fields.content_type, "video/webm");
    assert_eq!(fields.duration_str, "1:02:05");
    assert_eq!(fields.thumbnail_path, None);

    video.title = "T".to_owned();
    video.upload_time = 0;
    video.thumbnail_path = Some("ba7816bf8f01.webp".to_owned());
    video.duration = TimeSpan::fromSeconds(10);
    let fields = video.fields().unwrap();
    assert_eq!(fields.title, "T");
    assert_eq!(fields.upload_time_utc_str, "1970-01-01 00:00:00 UTC");
    assert_eq!(fields.duration_str, "00:10");
    assert_eq!(fields.thumbnail_path.as_deref(), Some("ba7816bf8f01.webp"));
}

#[test]
fn fields_of_a_record_with_bad_upload_time() {
    let mut video = Video::new("id".to_owned(), "id.mp4".to_owned());
    video.upload_time = i64::MAX;
    match video.fields() {
        Err(Error::RuntimeError(message)) => assert_eq!(message, "Invalid upload time"),
        other => panic!("unexpected outcome: {:?}", other),
    }
}

#[test]
fn defaults() {
    let config = Configuration::default();
    assert_eq!(config.video_dir, ".");
    assert_eq!(config.static_dir, "static");
    assert_eq!(config.data_dir, ".");
    assert_eq!(config.listen_address, "127.0.0.1");
    assert_eq!(config.listen_port, 8080);
    assert_eq!(config.serve_under_path, "/");
    assert_eq!(config.upload_size_max, 10_737_418_240);
    assert_eq!(config.password, "metube");
    assert_eq!(config.session_life_time_sec, 2_592_000);
    assert_eq!(config.thumbnail_quality, 85);
    assert_eq!(config.site_info.site_title, "MeTube");
    assert_eq!(config.site_info.footnote, "");
    assert_eq!(config.site_info.url_domain, "http://example.org");
    let info = SiteInfo::default();
    assert_eq!(info.site_title, "MeTube");
    assert_eq!(info.footnote, "");
    assert_eq!(info.url_domain, "http://example.org");
}

#[test]
fn error_texts() {
    let error = Error::DataError("no table".to_owned());
    assert_eq!(error.toString(), "Data error: no table");
    assert_eq!(error.statusCode(), 500);
    assert_eq!(error.message(), "no table");
    let error = Error::RuntimeError("Failed to run ffprobe".to_owned());
    assert_eq!(error.toString(), "Runtime error: Failed to run ffprobe");
    assert_eq!(error.statusCode(), 500);
    let error = Error::HTTPStatus(400, "No filename in upload".to_owned());
    assert_eq!(error.toString(), "HTTP status with code 400 Bad Request: No filename in upload");
    assert_eq!(error.statusCode(), 400);
    let error = Error::HTTPStatus(401, String::new());
    assert_eq!(error.toString(), "HTTP status with code 401 Unauthorized: ");
    let error = Error::HTTPStatus(799, "odd".to_owned());
    assert_eq!(error.toString(), "HTTP status with code 799 <unknown status code>: odd");
    let error = Error::HTTPStatus(42, "odd".to_owned());
    assert_eq!(error.toString(), "HTTP status with code 42: odd");
    assert_eq!(error.statusCode(), 42);
}
