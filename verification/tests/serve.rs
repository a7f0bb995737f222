use vdl::paths::name;
use vdl::paths::Paths;
use vdl::paths::StartupError;
use vdl::serve::exit_code;
use vdl::serve::supervise;
use vdl::serve::Supervision;
use vdl::serve::SUPERVISOR_TICK_MILLIS;
use vdl::id::Id;
use vdl::update::NoTags;
use vdl::update::Update;
use vdl::yt_dlp::YtDlp;

#[test]
fn the_supervisor_ticks_every_half_second() {
    assert_eq!(SUPERVISOR_TICK_MILLIS, 500);
}

#[test]
fn a_crash_comes_before_a_shutdown_and_that_before_a_reload() {
    assert_eq!(supervise(false, false, false), Supervision::Idle);
    assert_eq!(supervise(false, false, true), Supervision::Reload);
    assert_eq!(supervise(false, true, false), Supervision::Shutdown);
    assert_eq!(supervise(false, true, true), Supervision::Shutdown);
    assert_eq!(supervise(true, false, false), Supervision::Crashed);
    assert_eq!(supervise(true, false, true), Supervision::Crashed);
    assert_eq!(supervise(true, true, false), Supervision::Crashed);
    assert_eq!(supervise(true, true, true), Supervision::Crashed);
}

#[test]
fn exit_codes() {
    assert_eq!(exit_code(Supervision::Crashed), Some(1));
    assert_eq!(exit_code(Supervision::Shutdown), Some(0));
    assert_eq!(exit_code(Supervision::Reload), None);
    assert_eq!(exit_code(Supervision::Idle), None);
}

#[test]
fn the_places_of_the_files() {
    assert_eq!(name(), "vdl");
    let p = Paths::new("/home/u/.cache", "/home/u/.config", "/run/user/1000", "/home/u/.local/state");
    assert_eq!(p.cache_dir, "/home/u/.cache/vdl");
    assert_eq!(p.config_path, "/home/u/.config/vdl/config.toml");
    assert_eq!(p.runtime_dir, "/run/user/1000/vdl");
    assert_eq!(p.socket, "/run/user/1000/vdl/ipc.sock");
    assert_eq!(p.exe_path, "/home/u/.local/state/vdl/yt_dlp");
    assert_eq!(p.staging_dir(&Id::Yt { yt_id: "abc".to_string() }), "/home/u/.cache/vdl/yt:abc");
    assert_eq!(p.staging_dir(&Id::Twitch { twitch_id: "s".to_string() }), "/home/u/.cache/vdl/twitch:s");
}

#[test]
fn a_base_directory_that_is_not_named_is_an_error() {
    let s = |t: &str| Some(t.to_string());
    assert_eq!(Paths::from_bases(None, None, None, None).unwrap_err(), StartupError::NoCacheDir);
    assert_eq!(Paths::from_bases(s("/c"), None, None, None).unwrap_err(), StartupError::NoConfigDir);
    assert_eq!(Paths::from_bases(s("/c"), s("/g"), None, s("/s")).unwrap_err(), StartupError::NoRuntimeDir);
    assert_eq!(Paths::from_bases(s("/c"), s("/g"), s("/r"), None).unwrap_err(), StartupError::NoStateDir);
    let p = Paths::from_bases(s("/c"), s("/g"), s("/r"), s("/s")).unwrap();
    assert_eq!(p.socket, "/r/vdl/ipc.sock");
    assert_eq!(StartupError::NoCacheDir.message(), "cache dir");
    assert_eq!(StartupError::NoConfigDir.message(), "config dir");
    assert_eq!(StartupError::NoRuntimeDir.message(), "User runtime dir");
    assert_eq!(StartupError::NoStateDir.message(), "state dir");
}

#[test]
fn the_environment_names_the_places_or_an_error() {
    match Paths::discover() {
        Ok(p) => {
            assert!(p.cache_dir.ends_with("vdl"));
            assert!(p.config_path.ends_with("config.toml"));
            assert_eq!(p.socket, format!("{}/ipc.sock", p.runtime_dir));
            assert!(p.exe_path.ends_with("yt_dlp"));
        }
        Err(e) => assert!(!e.message().is_empty()),
    }
}

#[test]
fn the_latest_release_is_the_first() {
    let tags = vec!["2025.01.02".to_string(), "2024.12.31".to_string()];
    assert_eq!(YtDlp::get_latest_tag(&tags).unwrap(), "2025.01.02");
    assert_eq!(YtDlp::get_latest_tag(&vec![]).unwrap_err(), NoTags);
    assert_eq!(NoTags.message(), "yt-dlp has no tags!?");
}

#[test]
fn where_releases_are_found() {
    assert_eq!(YtDlp::tags_url(), "https://api.github.com/repos/yt-dlp/yt-dlp/tags");
    assert_eq!(YtDlp::user_agent(), "VDL via ureq");
    assert_eq!(
        YtDlp::release_url("2025.01.02"),
        "https://github.com/yt-dlp/yt-dlp/releases/download/2025.01.02/yt-dlp_linux"
    );
}

#[test]
fn the_executor_is_replaced_unless_it_is_the_latest() {
    assert!(matches!(YtDlp::download_latest(Some("2025.01.02\n"), " 2025.01.02 "), Update::UpToDate));
    match YtDlp::download_latest(Some("2024.12.31\n"), "2025.01.02\n") {
        Update::Replace { url } => {
            assert_eq!(url, "https://github.com/yt-dlp/yt-dlp/releases/download/2025.01.02/yt-dlp_linux")
        }
        other => panic!("{other:?}"),
    }
    match YtDlp::download_latest(None, "2025.01.02") {
        Update::Install { url } => {
            assert_eq!(url, "https://github.com/yt-dlp/yt-dlp/releases/download/2025.01.02/yt-dlp_linux")
        }
        other => panic!("{other:?}"),
    }
    assert!(matches!(YtDlp::download_latest(Some(""), ""), Update::UpToDate));
}

#[test]
fn the_command_of_the_executor() {
    assert_eq!(YtDlp::exe_path("/home/u/.local/state"), "/home/u/.local/state/vdl/yt_dlp");
    assert_eq!(YtDlp::command("/bin/yt_dlp"), vec!["/bin/yt_dlp"]);
    let mut y = YtDlp::default();
    y.concurrent_fragments(Some(2));
    assert_eq!(
        y.command_with_args("/bin/yt_dlp"),
        vec![
            "/bin/yt_dlp",
            "--embed-metadata",
            "--embed-thumbnail",
            "--no-progress",
            "--concurrent-fragments",
            "2",
        ]
    );
}
