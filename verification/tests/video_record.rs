use metube::video::{ContainerType, TimeSpan, Video};

#[test]
fn container_from_extension() {
    assert_eq!(ContainerType::fromExtension("mp4"), Some(ContainerType::Mp4));
    assert_eq!(ContainerType::fromExtension("MP4"), Some(ContainerType::Mp4));
    assert_eq!(ContainerType::fromExtension("webm"), Some(ContainerType::WebM));
    assert_eq!(ContainerType::fromExtension("WebM"), Some(ContainerType::WebM));
    assert_eq!(ContainerType::fromExtension("mkv"), None);
    assert_eq!(ContainerType::fromExtension(""), None);
    assert_eq!(ContainerType::fromExtension(".mp4"), None);
    assert_eq!(ContainerType::fromExtension("mp4 "), None);
}

#[test]
fn container_from_format_name() {
    assert_eq!(
        ContainerType::fromFormatName("mov,mp4,m4a,3gp,3g2,mj2"),
        Some(ContainerType::Mp4)
    );
    assert_eq!(ContainerType::fromFormatName("matroska,webm"), Some(ContainerType::WebM));
    assert_eq!(ContainerType::fromFormatName("MATROSKA,WEBM"), None);
    assert_eq!(ContainerType::fromFormatName("webm"), None);
    assert_eq!(ContainerType::fromFormatName("mp4"), None);
    assert_eq!(ContainerType::fromFormatName("avi"), None);
    assert_eq!(ContainerType::fromFormatName(""), None);
}

#[test]
fn container_names() {
    assert_eq!(ContainerType::Mp4.toExtension(), "mp4");
    assert_eq!(ContainerType::WebM.toExtension(), "webm");
    assert_eq!(ContainerType::Mp4.contentType(), "video/mp4");
    assert_eq!(ContainerType::WebM.contentType(), "video/webm");
}

#[test]
fn extension_names_its_container() {
    for container in [ContainerType::Mp4, ContainerType::WebM] {
        assert_eq!(ContainerType::fromExtension(container.toExtension()), Some(container));
    }
}

#[test]
fn new_video_is_blank() {
    let video = Video::new("0123456789ab".to_owned(), "0123456789ab.webm".to_owned());
    assert_eq!(video.id, "0123456789ab");
    assert_eq!(video.path, "0123456789ab.webm");
    assert_eq!(video.title, "");
    assert_eq!(video.desc, "");
    assert_eq!(video.artist, "");
    assert_eq!(video.views, 0);
    assert_eq!(video.upload_time, 0);
    assert_eq!(video.container_type, ContainerType::Mp4);
    assert_eq!(video.original_filename, "");
    assert_eq!(video.duration, TimeSpan { nanoseconds: 0 });
    assert_eq!(video.thumbnail_path, None);
}

#[test]
fn display_title_falls_back_to_file_name() {
    let mut video = Video::new("id".to_owned(), "id.mp4".to_owned());
    video.original_filename = "holiday.mp4".to_owned();
    assert_eq!(video.displayTitle(), "holiday.mp4");
    video.title = "Holiday".to_owned();
    assert_eq!(video.displayTitle(), "Holiday");
    video.original_filename = String::new();
    video.title = String::new();
    assert_eq!(video.displayTitle(), "");
}

#[test]
fn time_span_parts() {
    let span = TimeSpan::fromSeconds(10);
    assert_eq!(span.nanoseconds, 10_000_000_000);
    assert_eq!(span.wholeSeconds(), 10);
    assert_eq!(span.subsecNanoseconds(), 0);
    let span = TimeSpan { nanoseconds: 3_999_999_999 };
    assert_eq!(span.wholeSeconds(), 3);
    assert_eq!(span.subsecNanoseconds(), 999_999_999);
    assert_eq!(TimeSpan::fromSeconds(u64::MAX).wholeSeconds(), u64::MAX as u128);
}

#[test]
fn clock_text_of_spans() {
    assert_eq!(TimeSpan::fromSeconds(0).clockText(), "00:00");
    assert_eq!(TimeSpan::fromSeconds(9).clockText(), "00:09");
    assert_eq!(TimeSpan::fromSeconds(10).clockText(), "00:10");
    assert_eq!(TimeSpan::fromSeconds(59).clockText(), "00:59");
    assert_eq!(TimeSpan::fromSeconds(60).clockText(), "01:00");
    assert_eq!(TimeSpan::fromSeconds(3599).clockText(), "59:59");
    assert_eq!(TimeSpan::fromSeconds(3600).clockText(), "1:00:00");
    assert_eq!(TimeSpan::fromSeconds(3661).clockText(), "1:01:01");
    assert_eq!(TimeSpan::fromSeconds(360_000).clockText(), "100:00:00");
    assert_eq!(TimeSpan { nanoseconds: 61_999_999_999 }.clockText(), "01:01");
}
