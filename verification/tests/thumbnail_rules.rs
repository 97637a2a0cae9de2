use metube::config::Configuration;
use metube::thumbnail::{secondsText, thumbnailOffset, ThumbnailJob};
use metube::video::{TimeSpan, Video};

fn config() -> Configuration {
    let mut config = Configuration::default();
    config.video_dir = "/srv/videos".to_owned();
    config
}

fn video(duration: TimeSpan) -> Video {
    let mut video = Video::new("ba7816bf8f01".to_owned(), "ba7816bf8f01.webm".to_owned());
    video.duration = duration;
    video
}

#[test]
fn offset_of_short_videos_is_a_third() {
    assert_eq!(thumbnailOffset(TimeSpan::fromSeconds(0)).nanoseconds, 0);
    assert_eq!(thumbnailOffset(TimeSpan::fromSeconds(9)), TimeSpan::fromSeconds(3));
    assert_eq!(thumbnailOffset(TimeSpan::fromSeconds(10)).nanoseconds, 3_333_333_333);
    assert_eq!(thumbnailOffset(TimeSpan { nanoseconds: 2 }).nanoseconds, 0);
}

#[test]
fn offset_at_exactly_thirty_seconds_is_a_third() {
    assert_eq!(thumbnailOffset(TimeSpan::fromSeconds(30)), TimeSpan::fromSeconds(10));
    assert_eq!(
        thumbnailOffset(TimeSpan { nanoseconds: 29_999_999_999 }).nanoseconds,
        9_999_999_999
    );
}

#[test]
fn offset_of_long_videos_is_ten_seconds() {
    assert_eq!(
        thumbnailOffset(TimeSpan { nanoseconds: 30_000_000_001 }),
        TimeSpan::fromSeconds(10)
    );
    assert_eq!(thumbnailOffset(TimeSpan::fromSeconds(31)), TimeSpan::fromSeconds(10));
    assert_eq!(thumbnailOffset(TimeSpan::fromSeconds(7200)), TimeSpan::fromSeconds(10));
    assert_eq!(thumbnailOffset(TimeSpan { nanoseconds: u128::MAX }), TimeSpan::fromSeconds(10));
}

#[test]
fn seconds_as_text() {
    assert_eq!(secondsText(TimeSpan::fromSeconds(10)), "10");
    assert_eq!(secondsText(TimeSpan::fromSeconds(0)), "0");
    assert_eq!(secondsText(TimeSpan { nanoseconds: 3_333_333_333 }), "3.333333333");
    assert_eq!(secondsText(TimeSpan { nanoseconds: 1_500_000_000 }), "1.500000000");
    assert_eq!(secondsText(TimeSpan { nanoseconds: 1 }), "0.000000001");
}

#[test]
fn job_for_a_ten_second_video() {
    let job = video(TimeSpan::fromSeconds(10)).thumbnailJob(&config());
    assert_eq!(job.input, "/srv/videos/ba7816bf8f01.webm");
    assert_eq!(job.output, "/srv/videos/ba7816bf8f01.webp");
    assert_eq!(job.offset.nanoseconds, 3_333_333_333);
    assert_eq!(job.quality, 85);
}

#[test]
fn arguments_of_a_job() {
    let job = ThumbnailJob {
        input: "/srv/videos/a.mp4".to_owned(),
        offset: TimeSpan::fromSeconds(10),
        quality: 70,
        output: "/srv/videos/a.webp".to_owned(),
    };
    assert_eq!(
        job.arguments(),
        vec![
            "-y",
            "-i",
            "/srv/videos/a.mp4",
            "-ss",
            "10",
            "-frames:v",
            "1",
            "-vf",
            "scale=if(gte(iw\\,ih)\\,min(512\\,iw)\\,-2):if(lt(iw\\,ih)\\,min(512\\,ih)\\,-2)",
            "-c:v",
            "libwebp",
            "-q:v",
            "70",
            "/srv/videos/a.webp",
        ]
    );
}

#[test]
fn thumbnail_success_names_the_preview() {
    let taken = video(TimeSpan::fromSeconds(10)).generateThumbnail(&config(), true);
    assert_eq!(taken.video.thumbnail_path.as_deref(), Some("ba7816bf8f01.webp"));
    assert_eq!(taken.video.path, "ba7816bf8f01.webm");
    assert!(taken.remove.is_empty());
}

#[test]
fn thumbnail_failure_leaves_the_record() {
    let taken = video(TimeSpan::fromSeconds(10)).generateThumbnail(&config(), false);
    assert_eq!(taken.video.thumbnail_path, None);
    assert_eq!(taken.video.id, "ba7816bf8f01");
    assert_eq!(taken.video.path, "ba7816bf8f01.webm");
    assert_eq!(taken.video.duration, TimeSpan::fromSeconds(10));
    assert_eq!(taken.remove, vec!["/srv/videos/ba7816bf8f01.webp"]);
}
