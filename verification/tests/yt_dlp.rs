use vdl::yt_dlp::YtDlp;

fn bare() -> YtDlp {
    let mut y = YtDlp::default();
    y.embed_metadata(false).embed_thumbnail(false).no_progress(false);
    y
}

#[test]
fn option_defaults() {
    let y = YtDlp::default();
    assert!(!y.live_from_start);
    assert!(y.embed_metadata);
    assert!(y.embed_thumbnail);
    assert!(y.no_progress);
    assert_eq!(y.concurrent_fragments, None);
    assert_eq!(y.playlist_items, None);
    assert_eq!(y.remux_video, None);
    assert_eq!(y.cookies_from_browser, None);
}

#[test]
fn default_arguments() {
    assert_eq!(YtDlp::default().args(), vec!["--embed-metadata", "--embed-thumbnail", "--no-progress"]);
}

#[test]
fn no_options_no_arguments() {
    assert!(bare().args().is_empty());
}

#[test]
fn each_setter_sets_its_own_field() {
    let mut y = YtDlp::default();
    y.concurrent_fragments(Some(4));
    assert_eq!(y.concurrent_fragments, Some(4));
    y.playlist_items(Some(1));
    assert_eq!(y.playlist_items, Some(1));
    y.cookies_from_browser(Some("firefox"));
    assert_eq!(y.cookies_from_browser.as_deref(), Some("firefox"));
    y.remux_video(Some("mkv"));
    assert_eq!(y.remux_video.as_deref(), Some("mkv"));
    y.live_from_start(true);
    assert!(y.live_from_start);
    y.embed_metadata(false);
    assert!(!y.embed_metadata);
    y.embed_thumbnail(false);
    assert!(!y.embed_thumbnail);
    y.no_progress(false);
    assert!(!y.no_progress);
    assert_eq!(y.concurrent_fragments, Some(4));
    assert_eq!(y.playlist_items, Some(1));
    assert_eq!(y.cookies_from_browser.as_deref(), Some("firefox"));
    assert_eq!(y.remux_video.as_deref(), Some("mkv"));
}

#[test]
fn setters_unset_again() {
    let mut y = YtDlp::default();
    y.concurrent_fragments(Some(4)).concurrent_fragments(None);
    y.playlist_items(Some(4)).playlist_items(None);
    y.cookies_from_browser(Some("firefox")).cookies_from_browser(None);
    y.remux_video(Some("mkv")).remux_video(None);
    assert_eq!(y.concurrent_fragments, None);
    assert_eq!(y.playlist_items, None);
    assert_eq!(y.cookies_from_browser, None);
    assert_eq!(y.remux_video, None);
}

#[test]
fn all_arguments_in_their_order() {
    let mut y = YtDlp::default();
    y.live_from_start(true)
        .concurrent_fragments(Some(2))
        .playlist_items(Some(18446744073709551615))
        .cookies_from_browser(Some("firefox"))
        .remux_video(Some("mkv"));
    assert_eq!(
        y.args(),
        vec![
            "--live-from-start",
            "--embed-metadata",
            "--embed-thumbnail",
            "--no-progress",
            "--concurrent-fragments",
            "2",
            "--playlist-items",
            "18446744073709551615",
            "--cookies-from-browser",
            "firefox",
            "--remux-video",
            "mkv",
        ]
    );
}

#[test]
fn single_options() {
    let mut y = bare();
    y.concurrent_fragments(Some(255));
    assert_eq!(y.args(), vec!["--concurrent-fragments", "255"]);
    let mut y = bare();
    y.concurrent_fragments(Some(0));
    assert_eq!(y.args(), vec!["--concurrent-fragments", "0"]);
    let mut y = bare();
    y.remux_video(Some(""));
    assert_eq!(y.args(), vec!["--remux-video", ""]);
    let mut y = bare();
    y.live_from_start(true);
    assert_eq!(y.args(), vec!["--live-from-start"]);
}

#[test]
fn clone_keeps_every_option() {
    let mut y = YtDlp::default();
    y.live_from_start(true).concurrent_fragments(Some(3)).remux_video(Some("mp4"));
    let z = y.clone();
    assert_eq!(z.args(), y.args());
    assert_eq!(z.remux_video.as_deref(), Some("mp4"));
}
