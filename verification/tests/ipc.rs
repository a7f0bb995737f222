use vdl::id::Id;
use vdl::info::Info;
use vdl::ipc::encode_failure;
use vdl::ipc::handle_request;
use vdl::ipc::info_line;
use vdl::ipc::info_line_from;
use vdl::ipc::listing;
use vdl::ipc::render;
use vdl::ipc::request_for;
use vdl::ipc::respond;
use vdl::ipc::IpcCommand;
use vdl::ipc::IpcRequest;
use vdl::ipc::IpcResponse;
use vdl::registry::InnerSub;
use vdl::state::Watching;

fn yt(key: &str) -> Id {
    Id::Yt { yt_id: key.to_string() }
}

fn info(title: &str) -> Info {
    Info {
        id: title.to_string(),
        title: title.to_string(),
        uploader: format!("{title}-uploader"),
        webpage_url: format!("https://example.org/{title}"),
    }
}

fn entry(title: &str) -> Watching<()> {
    Watching { thread: (), info: info(title), dl_dir: format!("/cache/{title}") }
}

fn three_active_two_terminal() -> InnerSub<()> {
    let mut reg: InnerSub<()> = InnerSub::new();
    for k in ["a", "b", "c", "d", "e"] {
        assert!(reg.start(yt(k), entry(k)).is_ok());
    }
    assert!(reg.reap(&yt("b")).is_some());
    assert!(reg.reap(&yt("d")).is_some());
    reg
}

fn titles(infos: &[Info]) -> Vec<&str> {
    infos.iter().map(|i| i.title.as_str()).collect()
}

#[test]
fn get_watching_returns_exactly_the_active_ones() {
    let reg = three_active_two_terminal();
    match handle_request(&reg, IpcRequest::GetWatching) {
        IpcResponse::Watching(v) => assert_eq!(titles(&v), vec!["a", "c", "e"]),
        other => panic!("{other:?}"),
    }
    assert_eq!(reg.watching_len(), 3);
    assert_eq!(reg.downloaded_len(), 2);
}

#[test]
fn get_downloaded_returns_exactly_the_terminal_ones() {
    let reg = three_active_two_terminal();
    match handle_request(&reg, IpcRequest::GetDownloaded) {
        IpcResponse::Downloaded(v) => {
            assert_eq!(titles(&v), vec!["b", "d"]);
            assert_eq!(v[0].uploader, "b-uploader");
            assert_eq!(v[0].webpage_url, "https://example.org/b");
        }
        other => panic!("{other:?}"),
    }
}

#[test]
fn an_empty_registry_answers_with_empty_lists() {
    let reg: InnerSub<()> = InnerSub::new();
    assert!(matches!(handle_request(&reg, IpcRequest::GetWatching), IpcResponse::Watching(v) if v.is_empty()));
    assert!(matches!(handle_request(&reg, IpcRequest::GetDownloaded), IpcResponse::Downloaded(v) if v.is_empty()));
}

#[test]
fn a_malformed_payload_is_answered_with_an_error() {
    let reg = three_active_two_terminal();
    match respond(&reg, Err("expected value at line 1 column 1".to_string())) {
        IpcResponse::Error(m) => {
            assert_eq!(m, "Error: failed to parse JSON request: expected value at line 1 column 1")
        }
        other => panic!("{other:?}"),
    }
    assert_eq!(reg.watching_len(), 3);
}

#[test]
fn a_decoded_request_is_answered() {
    let reg = three_active_two_terminal();
    assert!(matches!(respond(&reg, Ok(IpcRequest::GetWatching)), IpcResponse::Watching(v) if v.len() == 3));
    assert!(matches!(respond(&reg, Ok(IpcRequest::GetDownloaded)), IpcResponse::Downloaded(v) if v.len() == 2));
}

#[test]
fn an_answer_that_cannot_be_encoded_becomes_an_error() {
    match encode_failure("key must be a string") {
        IpcResponse::Error(m) => assert_eq!(m, "Error: failed to serialize response: key must be a string"),
        other => panic!("{other:?}"),
    }
}

#[test]
fn commands_name_requests() {
    assert_eq!(request_for(IpcCommand::GetWatching), IpcRequest::GetWatching);
    assert_eq!(request_for(IpcCommand::GetDownloaded), IpcRequest::GetDownloaded);
}

#[test]
fn one_line_for_each_acquisition() {
    assert_eq!(
        info_line(&info("Some \"title\"")),
        ":: \"Some \\\"title\\\"\" - Some \"title\"-uploader (\"https://example.org/Some \\\"title\\\"\")"
    );
    assert_eq!(info_line_from("T", "U", "W"), ":: T - U (W)");
}

#[test]
fn a_listing_has_a_heading_and_the_lines() {
    assert_eq!(listing("Watching", &vec![]), vec!["Watching 0 streams"]);
    assert_eq!(
        listing("Downloaded", &vec![info("a"), info("b")]),
        vec![
            "Downloaded 2 streams",
            ":: \"a\" - a-uploader (\"https://example.org/a\")",
            ":: \"b\" - b-uploader (\"https://example.org/b\")",
        ]
    );
    let many: Vec<Info> = (0..12).map(|n| info(&format!("t{n}"))).collect();
    assert_eq!(listing("Watching", &many)[0], "Watching 12 streams");
    assert_eq!(listing("Watching", &many).len(), 13);
}

#[test]
fn what_the_client_shows() {
    let r = render(&IpcResponse::Watching(vec![info("a")]));
    assert_eq!(r.out, vec!["Watching 1 streams", ":: \"a\" - a-uploader (\"https://example.org/a\")"]);
    assert!(r.err.is_empty());
    assert_eq!(r.exit_code, 0);
    let r = render(&IpcResponse::Downloaded(vec![]));
    assert_eq!(r.out, vec!["Downloaded 0 streams"]);
    assert_eq!(r.exit_code, 0);
    let r = render(&IpcResponse::Error("Error: nope".to_string()));
    assert!(r.out.is_empty());
    assert_eq!(r.err, vec!["Error: nope"]);
    assert_eq!(r.exit_code, 1);
}
