//! What the pages of a site need from the library: addresses, the login,
//! and the fields of a record as a page shows them.

use base64::engine::Engine;
use vstd::prelude::*;
use vstd::string::*;

use crate::error::{Error, ErrorView};
use crate::text::{
    charsOf, concatText, decimal, decimalText, findFrom, first_index_of, sameText,
    sliceText,
};
use crate::video::{clock_text, Video, VideoView};

verus! {

/// The address of the page or file called `name`, with `arg` for the
/// video or file that is meant; the front page for a name that is none.
pub open spec fn url_for(name: Seq<char>, arg: Seq<char>) -> Seq<char> {
    if name == "index"@ {
        "/"@
    } else if name == "video"@ {
        "/v/"@ + arg
    } else if name == "upload"@ {
        "/upload/"@
    } else if name == "login"@ {
        "/login/"@
    } else if name == "static"@ {
        "/static/"@ + arg
    } else if name == "video_file"@ {
        "/video/"@ + arg
    } else {
        "/"@
    }
}

/// The address of the page or file called `name`, with `arg` for the
/// video or file that is meant; the front page for a name that is none.
pub fn urlFor(name: &str, arg: &str) -> (url: String)
    ensures
        url@ == url_for(name@, arg@),
{
    if sameText(name, "index") {
        String::from_str("/")
    } else if sameText(name, "video") {
        concatText("/v/", arg)
    } else if sameText(name, "upload") {
        String::from_str("/upload/")
    } else if sameText(name, "login") {
        String::from_str("/login/")
    } else if sameText(name, "static") {
        concatText("/static/", arg)
    } else if sameText(name, "video_file") {
        concatText("/video/", arg)
    } else {
        String::from_str("/")
    }
}

/// Whether a site served under `path` is served at the root.
pub open spec fn at_root(path: Seq<char>) -> bool {
    path.len() == 0 || path == "/"@
}

/// What stands before the addresses of a site served under `path`:
/// nothing at the root, the path with a slash in front otherwise.
pub open spec fn path_prefix(path: Seq<char>) -> Seq<char> {
    if at_root(path) {
        Seq::empty()
    } else if path[0] == '/' {
        path
    } else {
        "/"@ + path
    }
}

/// What stands before the addresses of a site served under `path`:
/// nothing at the root, the path with a slash in front otherwise.
pub fn pathPrefix(path: &str) -> (prefix: String)
    ensures
        prefix@ == path_prefix(path@),
{
    let chars = charsOf(path);
    if chars.len() == 0 || sameText(path, "/") {
        String::new()
    } else if chars[0] == '/' {
        String::from_str(path)
    } else {
        concatText("/", path)
    }
}

/// The address under a site served under `path` of the page or file
/// called `name`.
pub fn siteUrl(path: &str, name: &str, arg: &str) -> (url: String)
    ensures
        url@ == path_prefix(path@) + url_for(name@, arg@),
{
    let prefix = pathPrefix(path);
    let url = urlFor(name, arg);
    concatText(prefix.as_str(), url.as_str())
}

/// The pieces of `text` between the characters `mark`, of which there is
/// one more than there are marks.
pub open spec fn split_on(text: Seq<char>, mark: char) -> Seq<Seq<char>>
    decreases text.len(),
{
    let end = first_index_of(text, mark);
    if end < 0 || end >= text.len() {
        seq![text]
    } else {
        seq![text.take(end)] + split_on(text.skip(end + 1), mark)
    }
}

/// The segments of the path that a site is served under: none at the
/// root; otherwise the pieces between the slashes, without the empty one
/// before a slash at the front.
pub open spec fn serve_segments(path: Seq<char>) -> Seq<Seq<char>> {
    if at_root(path) {
        Seq::empty()
    } else if path[0] == '/' {
        split_on(path, '/').drop_first()
    } else {
        split_on(path, '/')
    }
}

/// The pieces of `text` between the characters `mark`.
pub fn splitOn(text: &str, mark: char) -> (pieces: Vec<String>)
    ensures
        pieces.deep_view() == split_on(text@, mark),
{
    let chars = charsOf(text);
    let mut pieces: Vec<String> = Vec::new();
    let mut pos: usize = 0;
    assert(chars@.skip(0) == chars@);
    assert(pieces.deep_view() == Seq::<Seq<char>>::empty());
    loop
        invariant_except_break
            pos <= chars.len(),
            split_on(chars@, mark) == pieces.deep_view() + split_on(chars@.skip(pos as int), mark),
        ensures
            pieces.deep_view() == split_on(chars@, mark),
        decreases chars.len() - pos,
    {
        let ghost tail = chars@.skip(pos as int);
        let ghost before = pieces.deep_view();
        let end = findFrom(&chars, pos, mark);
        let piece = sliceText(&chars, pos, end);
        assert(tail.take(end - pos) == chars@.subrange(pos as int, end as int));
        pieces.push(piece);
        assert(pieces.deep_view() == before.push(piece@));
        if end == chars.len() {
            assert(tail.take(end - pos) == tail);
            assert(before + seq![tail] == before.push(tail));
            break ;
        }
        assert(tail.skip(end - pos + 1) == chars@.skip(end + 1));
        assert(before + (seq![piece@] + split_on(chars@.skip(end + 1), mark)) == before.push(
            piece@,
        ) + split_on(chars@.skip(end + 1), mark));
        pos = end + 1;
    }
    pieces
}

/// The segments of the path that a site is served under.
pub fn serveSegments(path: &str) -> (segments: Vec<String>)
    ensures
        segments.deep_view() == serve_segments(path@),
{
    let chars = charsOf(path);
    if chars.len() == 0 || sameText(path, "/") {
        let none: Vec<String> = Vec::new();
        assert(none.deep_view() == Seq::<Seq<char>>::empty());
        return none;
    }
    let mut segments = splitOn(path, '/');
    if chars[0] == '/' {
        let ghost all = segments.deep_view();
        assert(split_on(path@, '/').len() >= 1);
        assert(segments.deep_view().len() == segments.len());
        segments.remove(0);
        assert(segments.deep_view() == all.drop_first());
    }
    segments
}

/// The name of the cookie that holds the token of a login.
pub open spec fn token_cookie() -> Seq<char> {
    "metube-token"@
}

/// The cookie that hands `token` to the browser for `life_time` seconds.
pub open spec fn cookie(token: Seq<char>, life_time: u64) -> Seq<char> {
    token_cookie() + "="@ + token + "; Max-Age="@ + decimal(life_time as nat) + "; Path=/"@
}

/// The cookie that hands `token` to the browser for `life_time` seconds.
pub fn makeCookie(token: String, life_time: u64) -> (text: String)
    ensures
        text@ == cookie(token@, life_time),
{
    let seconds = decimalText(life_time as u128);
    let mut text = concatText("metube-token", "=");
    text.append(token.as_str());
    text.append("; Max-Age=");
    text.append(seconds.as_str());
    text.append("; Path=/");
    text
}

/// The bytes in Base64 with the standard alphabet and with padding, as
/// `base64::engine::general_purpose::STANDARD` encodes them.
pub uninterp spec fn base64_standard(bytes: Seq<u8>) -> Seq<char>;

/// The bytes in Base64 with the standard alphabet and without padding, as
/// `base64::engine::general_purpose::STANDARD_NO_PAD` encodes them.
pub uninterp spec fn base64_unpadded(bytes: Seq<u8>) -> Seq<char>;

/// The bytes that `text` stands for in Base64 with the standard alphabet
/// and without padding, as `base64::engine::general_purpose::STANDARD_NO_PAD`
/// decodes it; `None` where it stands for none.
pub uninterp spec fn base64_unpadded_decoded(text: Seq<char>) -> Option<Seq<u8>>;

/// The longest input that is handed to the Base64 encoder.
pub const BASE64_INPUT_MAX: usize = 0x3fff_ffff;

/// The bytes in Base64, with padding.
///
/// Trusted: `Engine::encode` of `base64`, with the standard engine. It
/// panics where the length of the result does not fit in `usize`, which
/// the bound on the input rules out.
#[verifier::external_body]
fn encodeStandard(bytes: &[u8]) -> (text: String)
    requires
        bytes@.len() <= BASE64_INPUT_MAX,
    ensures
        text@ == base64_standard(bytes@),
{
    base64::engine::general_purpose::STANDARD.encode(bytes)
}

/// The bytes in Base64, without padding.
///
/// Trusted: `Engine::encode` of `base64`, with the standard engine
/// without padding. It panics where the length of the result does not fit
/// in `usize`, which the bound on the input rules out. What it yields, the
/// same engine decodes to the bytes again.
#[verifier::external_body]
pub(crate) fn encodeUnpadded(bytes: &[u8]) -> (text: String)
    requires
        bytes@.len() <= BASE64_INPUT_MAX,
    ensures
        text@ == base64_unpadded(bytes@),
        base64_unpadded_decoded(text@) == Some(bytes@),
{
    base64::engine::general_purpose::STANDARD_NO_PAD.encode(bytes)
}

/// Sixteen bytes drawn at random.
///
/// Trusted: `rand::random`; nothing is known of the bytes.
#[verifier::external_body]
fn randomBytes() -> [u8; 16] {
    rand::random::<i128>().to_ne_bytes()
}

/// The token that stands for the sixteen bytes `seed`.
pub fn tokenOf(seed: &[u8; 16]) -> (token: String)
    ensures
        token@ == base64_unpadded(seed@),
{
    encodeUnpadded(seed.as_slice())
}

/// A token for a new login, from sixteen bytes drawn at random.
pub fn createToken() -> (token: String)
    ensures
        exists|seed: Seq<u8>| seed.len() == 16 && token@ == base64_unpadded(seed),
{
    let seed = randomBytes();
    let token = tokenOf(&seed);
    assert(seed@.len() == 16 && token@ == base64_unpadded(seed@));
    token
}

/// What a browser that knows `password` sends to log in: the user name
/// `user`, a colon and the password, in Base64.
pub open spec fn basic_credential(password: Seq<char>) -> Seq<char> {
    base64_standard(vstd::utf8::encode_utf8("user:"@ + password))
}

/// Whether the credential for `password` can be worked out: the password
/// is not longer than the encoder takes.
pub open spec fn credential_fits(password: Seq<char>) -> bool {
    vstd::utf8::encode_utf8("user:"@ + password).len() <= BASE64_INPUT_MAX
}

/// What a browser that knows `password` sends to log in, where that can
/// be worked out.
pub fn basicCredential(password: &str) -> (credential: Option<String>)
    ensures
        match credential {
            Some(text) => credential_fits(password@) && text@ == basic_credential(password@),
            None => !credential_fits(password@),
        },
{
    let plain = concatText("user:", password);
    let bytes = plain.as_str().as_bytes();
    if bytes.len() <= BASE64_INPUT_MAX {
        Some(encodeStandard(bytes))
    } else {
        None
    }
}

/// What is made of a request to log in.
#[derive(Debug, Clone, Copy, PartialEq, Eq, Structural)]
pub enum Login {
    /// The browser is asked for the password.
    Challenge,
    /// The password was right: a login begins.
    Granted,
}

/// The error for a request that may not be.
pub open spec fn unauthorized(message: Seq<char>) -> ErrorView {
    ErrorView::HTTPStatus(401, message)
}

/// What is made of a request to log in that came with the header
/// `authorization`, at a site with the given password. A request without
/// the header is answered with a challenge. One with a header must use the
/// basic scheme and hold the credential for the password.
pub open spec fn login(authorization: Option<Seq<char>>, password: Seq<char>) -> Result<
    Login,
    ErrorView,
> {
    match authorization {
        None => Ok(Login::Challenge),
        Some(value) => if !crate::text::starts_with(value, "Basic "@) {
            Err(unauthorized("Not using basic authentication"@))
        } else if credential_fits(password) && value.skip(6) == basic_credential(password) {
            Ok(Login::Granted)
        } else {
            Err(unauthorized("Invalid credential"@))
        },
    }
}

/// The header with which the browser is asked for the password.
pub fn challengeHeader() -> (header: &'static str)
    ensures
        header@ == "Basic realm=\"metube\", charset=\"UTF-8\""@,
{
    "Basic realm=\"metube\", charset=\"UTF-8\""
}

/// What is made of a request to log in that came with the header
/// `authorization`, at a site with the given password.
pub fn checkLogin(authorization: Option<&str>, password: &str) -> (result: Result<Login, Error>)
    ensures
        match login(
            match authorization {
                Some(value) => Some(value@),
                None => None,
            },
            password@,
        ) {
            Ok(expected) => result == Ok::<Login, Error>(expected),
            Err(expected) => result matches Err(error) && error@ == expected,
        },
{
    let value = match authorization {
        Some(value) => value,
        None => {
            return Ok(Login::Challenge);
        },
    };
    let chars = charsOf(value);
    let scheme = charsOf("Basic ");
    proof {
        reveal_strlit("Basic ");
    }
    if !crate::text::startsWith(&chars, &scheme) {
        return Err(
            Error::HTTPStatus(401, String::from_str("Not using basic authentication")),
        );
    }
    let presented = sliceText(&chars, 6, chars.len());
    let granted = match basicCredential(password) {
        Some(expected) => sameText(expected.as_str(), presented.as_str()),
        None => false,
    };
    if granted {
        Ok(Login::Granted)
    } else {
        Err(Error::HTTPStatus(401, String::from_str("Invalid credential")))
    }
}

/// How `time` writes the moment `seconds` after the Unix epoch, in UTC,
/// after the format description `description`; `None` where the moment
/// cannot be held or the description is none.
pub uninterp spec fn utc_formatted(seconds: i64, description: Seq<char>) -> Option<Seq<char>>;

/// The moment `seconds` after the Unix epoch, in UTC, written after the
/// format description `description`.
///
/// Trusted: `time::format_description::parse`,
/// `time::OffsetDateTime::from_unix_timestamp` and
/// `time::OffsetDateTime::format`; what is written depends on the number
/// and the description alone.
#[verifier::external_body]
fn formatUtc(seconds: i64, description: &str) -> (text: Option<String>)
    ensures
        match text {
            Some(written) => utc_formatted(seconds, description@) == Some(written@),
            None => utc_formatted(seconds, description@) is None,
        },
{
    let format = time::format_description::parse(description).ok()?;
    let moment = time::OffsetDateTime::from_unix_timestamp(seconds).ok()?;
    moment.format(&format).ok()
}

/// The description after which upload times are written.
pub open spec fn upload_time_format() -> Seq<char> {
    "[year]-[month]-[day] [hour]:[minute]:[second] UTC"@
}

/// A record as a page shows it.
#[derive(Debug)]
pub struct VideoFields {
    pub id: String,
    pub path: String,
    /// The title under which the video is shown.
    pub title: String,
    pub desc: String,
    pub artist: String,
    pub views: u32,
    pub upload_time: i64,
    /// The upload time, written out in UTC.
    pub upload_time_utc_str: String,
    /// The container, by its extension.
    pub container_type: String,
    /// The media type of the file.
    pub content_type: String,
    /// The duration as a clock shows it.
    pub duration_str: String,
    pub thumbnail_path: Option<String>,
}

/// The mathematical value of a [`VideoFields`].
pub struct VideoFieldsView {
    pub id: Seq<char>,
    pub path: Seq<char>,
    pub title: Seq<char>,
    pub desc: Seq<char>,
    pub artist: Seq<char>,
    pub views: u32,
    pub upload_time: i64,
    pub upload_time_utc_str: Seq<char>,
    pub container_type: Seq<char>,
    pub content_type: Seq<char>,
    pub duration_str: Seq<char>,
    pub thumbnail_path: Option<Seq<char>>,
}

impl View for VideoFields {
    type V = VideoFieldsView;

    open spec fn view(&self) -> VideoFieldsView {
        VideoFieldsView {
            id: self.id@,
            path: self.path@,
            title: self.title@,
            desc: self.desc@,
            artist: self.artist@,
            views: self.views,
            upload_time: self.upload_time,
            upload_time_utc_str: self.upload_time_utc_str@,
            container_type: self.container_type@,
            content_type: self.content_type@,
            duration_str: self.duration_str@,
            thumbnail_path: match self.thumbnail_path {
                Some(path) => Some(path@),
                None => None,
            },
        }
    }
}

impl VideoView {
    /// The record as a page shows it; none where its upload time cannot
    /// be written.
    pub open spec fn fields(self) -> Option<VideoFieldsView> {
        match utc_formatted(self.upload_time, upload_time_format()) {
            None => None,
            Some(written) => Some(
                VideoFieldsView {
                    id: self.id,
                    path: self.path,
                    title: self.display_title(),
                    desc: self.desc,
                    artist: self.artist,
                    views: self.views,
                    upload_time: self.upload_time,
                    upload_time_utc_str: written,
                    container_type: self.container_type.extension(),
                    content_type: self.container_type.content_type(),
                    duration_str: clock_text(self.duration.whole_seconds()),
                    thumbnail_path: self.thumbnail_path,
                },
            ),
        }
    }
}

impl Video {
    /// The record as a page shows it. A record whose upload time cannot
    /// be written is an error.
    pub fn fields(&self) -> (result: Result<VideoFields, Error>)
        ensures
            match self@.fields() {
                Some(expected) => result matches Ok(fields) && fields@ == expected,
                None => result matches Err(error) && error@ == ErrorView::RuntimeError(
                    "Invalid upload time"@,
                ),
            },
    {
        let written = match formatUtc(
            self.upload_time,
            "[year]-[month]-[day] [hour]:[minute]:[second] UTC",
        ) {
            Some(written) => written,
            None => {
                return Err(Error::RuntimeError(String::from_str("Invalid upload time")));
            },
        };
        Ok(
            VideoFields {
                id: self.id.clone(),
                path: self.path.clone(),
                title: String::from_str(self.displayTitle()),
                desc: self.desc.clone(),
                artist: self.artist.clone(),
                views: self.views,
                upload_time: self.upload_time,
                upload_time_utc_str: written,
                container_type: String::from_str(self.container_type.toExtension()),
                content_type: String::from_str(self.container_type.contentType()),
                duration_str: self.duration.clockText(),
                thumbnail_path: match &self.thumbnail_path {
                    Some(path) => Some(path.clone()),
                    None => None,
                },
            },
        )
    }
}

} // verus!
