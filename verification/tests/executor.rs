use vdl::executor::download_args;
use vdl::executor::filename_args;
use vdl::executor::info_args;
use vdl::executor::live_info;
use vdl::executor::live_info_args;
use vdl::executor::live_url;
use vdl::executor::twitch_is_live;
use vdl::executor::twitch_is_live_args;
use vdl::executor::twitch_url;
use vdl::executor::url;
use vdl::executor::yt_url;
use vdl::id::Id;
use vdl::yt_dlp::YtDlp;

fn bare() -> YtDlp {
    let mut y = YtDlp::default();
    y.embed_metadata(false).embed_thumbnail(false);
    y
}

#[test]
fn addresses() {
    assert_eq!(yt_url("dQw4w9WgXcQ"), "https://www.youtube.com/watch?v=dQw4w9WgXcQ");
    assert_eq!(twitch_url("streamer"), "https://www.twitch.tv/streamer");
    assert_eq!(live_url("@channel"), "https://www.youtube.com/@channel/live");
    assert_eq!(url(&Id::Yt { yt_id: "v".to_string() }), "https://www.youtube.com/watch?v=v");
    assert_eq!(url(&Id::Twitch { twitch_id: "c".to_string() }), "https://www.twitch.tv/c");
    assert_eq!(yt_url(""), "https://www.youtube.com/watch?v=");
}

#[test]
fn command_lines() {
    let y = bare();
    assert_eq!(info_args(&y, "URL"), vec!["--no-progress", "-J", "URL"]);
    assert_eq!(
        live_info_args(&y, "@c"),
        vec!["--no-progress", "-J", "https://www.youtube.com/@c/live"]
    );
    assert_eq!(
        twitch_is_live_args(&y, "s"),
        vec!["--no-progress", "https://www.twitch.tv/s", "--quiet", "--simulate"]
    );
    assert_eq!(filename_args(&y, "URL"), vec!["--no-progress", "URL", "--print", "_filename"]);
    assert_eq!(
        download_args(&y, "URL", "/cache/x/out.mkv"),
        vec!["--no-progress", "URL", "--output", "/cache/x/out.mkv", "--write-info-json"]
    );
}

#[test]
fn an_empty_answer_to_a_liveness_probe_means_not_live() {
    assert_eq!(live_info(true, ""), None);
    assert_eq!(live_info(true, " \n\t"), None);
    assert_eq!(live_info(true, "  {\"id\": \"v\"}\n"), Some("{\"id\": \"v\"}"));
    assert_eq!(live_info(true, "null"), Some("null"));
}

#[test]
fn a_failed_liveness_probe_means_not_live() {
    assert_eq!(live_info(false, "{\"id\": \"v\"}"), None);
    assert_eq!(live_info(false, ""), None);
}

#[test]
fn a_twitch_channel_is_live_where_the_probe_succeeds_and_does_not_say_otherwise() {
    assert!(twitch_is_live(true, Some("")));
    assert!(twitch_is_live(true, Some("WARNING: something else")));
    assert!(twitch_is_live(true, Some("The channel is not currently liv")));
    assert!(!twitch_is_live(true, Some("ERROR: [twitch:stream] s: The channel is not currently live\n")));
    assert!(!twitch_is_live(true, Some("The channel is not currently live")));
    assert!(!twitch_is_live(true, None));
}

#[test]
fn a_failed_twitch_probe_means_not_live() {
    assert!(!twitch_is_live(false, Some("")));
    assert!(!twitch_is_live(false, Some("ERROR: Unable to download webpage: network is unreachable")));
    assert!(!twitch_is_live(false, Some("ERROR: The channel is not currently live")));
    assert!(!twitch_is_live(false, None));
}
