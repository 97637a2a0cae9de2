//! The settings of a site.

use vstd::prelude::*;
use vstd::string::*;

verus! {

/// The address the server listens at unless told otherwise.
pub fn defaultListenAddr() -> (address: String)
    ensures
        address@ == "127.0.0.1"@,
{
    String::from_str("127.0.0.1")
}

/// The path the site is served under unless told otherwise.
pub fn defaultServePath() -> (path: String)
    ensures
        path@ == "/"@,
{
    String::from_str("/")
}

/// The port the server listens at unless told otherwise.
pub fn defaultListenPort() -> (port: u16)
    ensures
        port == 8080,
{
    8080
}

/// The largest upload taken unless told otherwise: ten gibibytes.
pub fn defaultUploadSizeMax() -> (bytes: u64)
    ensures
        bytes == 10 * 1024 * 1024 * 1024,
{
    10 * 1024 * 1024 * 1024
}

/// The password for uploads unless told otherwise.
pub fn defaultPassword() -> (password: String)
    ensures
        password@ == "metube"@,
{
    String::from_str("metube")
}

/// How long a login lasts unless told otherwise: thirty days, in seconds.
pub fn defaultSessionLifeTime() -> (seconds: u64)
    ensures
        seconds == 30 * 24 * 60 * 60,
{
    30 * 24 * 60 * 60
}

/// The quality of preview images unless told otherwise.
pub fn defaultThumbnailQuality() -> (quality: u8)
    ensures
        quality == 85,
{
    85
}

/// The title of the site unless told otherwise.
pub fn defaultSiteTitle() -> (title: String)
    ensures
        title@ == "MeTube"@,
{
    String::from_str("MeTube")
}

/// The footnote of the site unless told otherwise: none.
pub fn defaultFootnote() -> (footnote: String)
    ensures
        footnote@ == Seq::<char>::empty(),
{
    String::new()
}

/// The domain of the site unless told otherwise.
pub fn defaultUrlDomain() -> (domain: String)
    ensures
        domain@ == "http://example.org"@,
{
    String::from_str("http://example.org")
}

/// What the pages say about the site.
#[derive(Debug, Clone)]
pub struct SiteInfo {
    pub site_title: String,
    pub footnote: String,
    /// The beginning of the site's URLs: protocol and domain, without a
    /// slash at the end. Example: `http://example.org`.
    pub url_domain: String,
}

impl SiteInfo {
    /// Whether these are the settings of a site that was told nothing.
    pub open spec fn is_default(self) -> bool {
        &&& self.site_title@ == "MeTube"@
        &&& self.footnote@ == Seq::<char>::empty()
        &&& self.url_domain@ == "http://example.org"@
    }
}

impl Default for SiteInfo {
    fn default() -> (info: Self)
        ensures
            info.is_default(),
    {
        Self {
            site_title: defaultSiteTitle(),
            footnote: defaultFootnote(),
            url_domain: defaultUrlDomain(),
        }
    }
}

/// The settings of a site.
#[derive(Debug, Clone)]
pub struct Configuration {
    /// The directory of the library: videos and preview images lie here,
    /// and so do uploads while they come in.
    pub video_dir: String,
    pub static_dir: String,
    pub data_dir: String,
    pub listen_address: String,
    pub listen_port: u16,
    /// Starts with `/` and does not end with `/`, unless it is just `/`.
    pub serve_under_path: String,
    pub upload_size_max: u64,
    pub password: String,
    pub session_life_time_sec: u64,
    /// The quality of preview images, from 0 to 100; higher is better.
    pub thumbnail_quality: u8,
    pub site_info: SiteInfo,
}

impl Configuration {
    /// Whether these are the settings of a site that was told nothing.
    pub open spec fn is_default(self) -> bool {
        &&& self.video_dir@ == "."@
        &&& self.static_dir@ == "static"@
        &&& self.data_dir@ == "."@
        &&& self.listen_address@ == "127.0.0.1"@
        &&& self.listen_port == 8080
        &&& self.serve_under_path@ == "/"@
        &&& self.upload_size_max == 10 * 1024 * 1024 * 1024
        &&& self.password@ == "metube"@
        &&& self.session_life_time_sec == 30 * 24 * 60 * 60
        &&& self.thumbnail_quality == 85
        &&& self.site_info.is_default()
    }
}

impl Default for Configuration {
    fn default() -> (config: Self)
        ensures
            config.is_default(),
    {
        Self {
            video_dir: String::from_str("."),
            static_dir: String::from_str("static"),
            data_dir: String::from_str("."),
            listen_address: defaultListenAddr(),
            listen_port: defaultListenPort(),
            serve_under_path: defaultServePath(),
            upload_size_max: defaultUploadSizeMax(),
            password: defaultPassword(),
            session_life_time_sec: defaultSessionLifeTime(),
            thumbnail_quality: defaultThumbnailQuality(),
            site_info: SiteInfo::default(),
        }
    }
}

} // verus!
