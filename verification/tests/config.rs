use vdl::config::dir_to_enter;
use vdl::config::enter_failure_from;
use vdl::config::reload;
use vdl::config::working_dir;
use vdl::config::Config;
use vdl::config::Reload;
use vdl::id::Id;
use vdl::info::Info;
use vdl::ipc::handle_request;
use vdl::ipc::IpcRequest;
use vdl::ipc::IpcResponse;
use vdl::registry::InnerSub;
use vdl::state::Watching;

fn yt(key: &str) -> Id {
    Id::Yt { yt_id: key.to_string() }
}

fn twitch(key: &str) -> Id {
    Id::Twitch { twitch_id: key.to_string() }
}

fn texts(list: &[&str]) -> Vec<String> {
    list.iter().map(|s| s.to_string()).collect()
}

fn entry(title: &str) -> Watching<()> {
    Watching {
        thread: (),
        info: Info {
            id: title.to_string(),
            title: title.to_string(),
            uploader: String::new(),
            webpage_url: String::new(),
        },
        dl_dir: String::new(),
    }
}

#[test]
fn config_defaults() {
    let c = Config::default();
    assert_eq!(c.dir(), None);
    assert!(c.ids().is_empty());
}

#[test]
fn from_the_fields_of_the_file() {
    let c = Config::from_parts(Some("/videos".to_string()), &texts(&["yt:@a", "twitch:b"])).unwrap();
    assert_eq!(c.dir().as_deref(), Some("/videos"));
    assert_eq!(c.ids(), vec![yt("@a"), twitch("b")]);
    let c = Config::from_parts(None, &vec![]).unwrap();
    assert_eq!(c.dir(), None);
    assert!(c.ids().is_empty());
}

#[test]
fn the_first_invalid_identifier_is_reported() {
    let err = Config::from_parts(None, &texts(&["yt:a", "nope", "twitch:b", "also bad"])).unwrap_err();
    assert_eq!(err.input, "nope");
    assert_eq!(err.message(), "nope is not a valid id");
}

#[test]
fn back_to_the_fields_of_the_file() {
    let c = Config::new(None, vec![yt("a"), twitch("b"), yt("")]);
    assert_eq!(c.id_strings(), vec!["yt:a", "twitch:b", "yt:"]);
    let again = Config::from_parts(None, &c.id_strings()).unwrap();
    assert_eq!(again.ids(), c.ids());
}

#[test]
fn the_output_directory_at_the_start() {
    assert_eq!(working_dir(Some("/c".to_string()), Some("/v".to_string())).as_deref(), Some("/c"));
    assert_eq!(working_dir(None, Some("/v".to_string())).as_deref(), Some("/v"));
    assert_eq!(working_dir(Some("/c".to_string()), None).as_deref(), Some("/c"));
    assert_eq!(working_dir(None, None), None);
}

#[test]
fn a_failed_reload_changes_nothing() {
    let mut reg: InnerSub<()> = InnerSub::new();
    reg.set_ids(vec![yt("a"), twitch("b")]);
    assert!(reg.start(yt("v"), entry("v")).is_ok());
    assert!(reg.start(yt("w"), entry("w")).is_ok());
    assert!(reg.reap(&yt("w")).is_some());
    let mut config = Config::new(Some("/videos".to_string()), vec![yt("a"), twitch("b")]);
    match reload(&mut reg, &mut config, Err("permission denied".to_string()), Ok(())) {
        Reload::Retained { message } => {
            assert_eq!(message, "Failed to reload config (retaining previous config): permission denied")
        }
        other => panic!("{other:?}"),
    }
    assert_eq!(reg.ids(), vec![yt("a"), twitch("b")]);
    assert_eq!(config.dir().as_deref(), Some("/videos"));
    assert_eq!(config.ids(), vec![yt("a"), twitch("b")]);
    assert_eq!(reg.probe_targets(), vec![yt("a"), twitch("b")]);
    assert!(matches!(handle_request(&reg, IpcRequest::GetWatching), IpcResponse::Watching(v) if v.len() == 1 && v[0].title == "v"));
    assert!(matches!(handle_request(&reg, IpcRequest::GetDownloaded), IpcResponse::Downloaded(v) if v.len() == 1 && v[0].title == "w"));
}

#[test]
fn a_reload_replaces_the_subscribed_set() {
    let mut reg: InnerSub<()> = InnerSub::new();
    reg.set_ids(vec![yt("a")]);
    assert!(reg.start(yt("v"), entry("v")).is_ok());
    let mut config = Config::new(None, vec![yt("a")]);
    let loaded = Config::new(None, vec![twitch("b"), twitch("b"), yt("c")]);
    match reload(&mut reg, &mut config, Ok(loaded), Ok(())) {
        Reload::Applied { chdir } => assert_eq!(chdir, None),
        other => panic!("{other:?}"),
    }
    assert_eq!(reg.ids(), vec![twitch("b"), yt("c")]);
    assert_eq!(config.ids(), vec![twitch("b"), yt("c")]);
    assert!(reg.is_watching(&yt("v")));
    assert_eq!(reg.watching_len(), 1);
}

#[test]
fn a_reload_enters_only_a_new_directory() {
    let cases: Vec<(Option<&str>, Option<&str>, Option<&str>)> = vec![
        (None, None, None),
        (None, Some("/new"), Some("/new")),
        (Some("/old"), Some("/new"), Some("/new")),
        (Some("/same"), Some("/same"), None),
        (Some("/old"), None, None),
    ];
    for (before, after, expected) in cases {
        let mut reg: InnerSub<()> = InnerSub::new();
        let mut config = Config::new(before.map(String::from), vec![]);
        let loaded = Config::new(after.map(String::from), vec![]);
        assert_eq!(dir_to_enter(&config, &loaded).as_deref(), expected);
        match reload(&mut reg, &mut config, Ok(loaded), Ok(())) {
            Reload::Applied { chdir } => assert_eq!(chdir.as_deref(), expected),
            other => panic!("{other:?}"),
        }
        assert_eq!(config.dir().as_deref(), after);
    }
}

#[test]
fn a_reload_whose_directory_cannot_be_entered_changes_nothing() {
    let mut reg: InnerSub<()> = InnerSub::new();
    reg.set_ids(vec![yt("a"), twitch("b")]);
    assert!(reg.start(yt("v"), entry("v")).is_ok());
    let mut config = Config::new(Some("/videos".to_string()), vec![yt("a"), twitch("b")]);
    let loaded = Config::new(Some("/no \"such\" dir".to_string()), vec![yt("c")]);
    assert_eq!(dir_to_enter(&config, &loaded).as_deref(), Some("/no \"such\" dir"));
    match reload(&mut reg, &mut config, Ok(loaded), Err("No such file or directory (os error 2)".to_string())) {
        Reload::Retained { message } => assert_eq!(
            message,
            "Failed to reload config (retaining previous config): \"/no \\\"such\\\" dir\": No such file or directory (os error 2)"
        ),
        other => panic!("{other:?}"),
    }
    assert_eq!(reg.ids(), vec![yt("a"), twitch("b")]);
    assert_eq!(config.dir().as_deref(), Some("/videos"));
    assert_eq!(config.ids(), vec![yt("a"), twitch("b")]);
    assert!(reg.is_watching(&yt("v")));
    assert_eq!(enter_failure_from("<dir>", "why"), "<dir>: why");
}

#[test]
fn a_failure_to_enter_counts_only_where_a_directory_had_to_be_entered() {
    let mut reg: InnerSub<()> = InnerSub::new();
    let mut config = Config::new(Some("/same".to_string()), vec![]);
    let loaded = Config::new(Some("/same".to_string()), vec![yt("c")]);
    match reload(&mut reg, &mut config, Ok(loaded), Err("not looked at".to_string())) {
        Reload::Applied { chdir } => assert_eq!(chdir, None),
        other => panic!("{other:?}"),
    }
    assert_eq!(reg.ids(), vec![yt("c")]);
}

#[test]
fn identifiers_of_the_file_are_a_set() {
    let c = Config::from_parts(None, &texts(&["yt:a", "twitch:b", "yt:a", "twitch:b", "yt:c"])).unwrap();
    assert_eq!(c.ids(), vec![yt("a"), twitch("b"), yt("c")]);
}

#[test]
fn a_configuration_holds_no_identifier_twice() {
    let c = Config::new(Some("/d".to_string()), vec![yt("a"), yt("a"), twitch("a"), yt("a")]);
    assert_eq!(c.ids(), vec![yt("a"), twitch("a")]);
    assert_eq!(c.dir().as_deref(), Some("/d"));
    assert_eq!(c.id_strings(), vec!["yt:a", "twitch:a"]);
}
