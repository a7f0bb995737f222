use vdl::id::Id;
use vdl::info::Info;
use vdl::registry::contains_id;
use vdl::registry::dedup_ids;
use vdl::registry::InnerSub;
use vdl::state::Watching;

fn yt(key: &str) -> Id {
    Id::Yt { yt_id: key.to_string() }
}

fn twitch(key: &str) -> Id {
    Id::Twitch { twitch_id: key.to_string() }
}

fn entry(handle: u32, title: &str) -> Watching<u32> {
    Watching {
        thread: handle,
        info: Info {
            id: title.to_string(),
            title: title.to_string(),
            uploader: "someone".to_string(),
            webpage_url: format!("https://example.org/{title}"),
        },
        dl_dir: format!("/cache/{title}"),
    }
}

#[test]
fn starts_empty() {
    let reg: InnerSub<u32> = InnerSub::new();
    assert!(reg.ids().is_empty());
    assert_eq!(reg.watching_len(), 0);
    assert_eq!(reg.downloaded_len(), 0);
    assert!(reg.probe_targets().is_empty());
    assert!(reg.admits(&yt("a")));
}

#[test]
fn subscribed_set_is_replaced_wholesale_and_holds_nothing_twice() {
    let mut reg: InnerSub<u32> = InnerSub::new();
    reg.set_ids(vec![yt("a"), twitch("a"), yt("a"), yt("b"), twitch("a")]);
    assert_eq!(reg.ids(), vec![yt("a"), twitch("a"), yt("b")]);
    reg.set_ids(vec![twitch("c")]);
    assert_eq!(reg.ids(), vec![twitch("c")]);
    reg.set_ids(vec![]);
    assert!(reg.ids().is_empty());
}

#[test]
fn an_identifier_is_absent_then_active_then_terminal() {
    let mut reg: InnerSub<u32> = InnerSub::new();
    let id = yt("video");
    assert!(!reg.is_watching(&id) && !reg.is_downloaded(&id));
    assert!(reg.start(id.clone(), entry(7, "video")).is_ok());
    assert!(reg.is_watching(&id) && !reg.is_downloaded(&id));
    assert!(!reg.admits(&id));
    let reaped = reg.reap(&id).unwrap();
    assert_eq!(reaped.thread, 7);
    assert_eq!(reaped.dl_dir, "/cache/video");
    assert!(!reg.is_watching(&id) && reg.is_downloaded(&id));
    assert!(!reg.admits(&id));
    assert_eq!(reg.downloaded_len(), 1);
    assert_eq!(reg.downloaded_id(0), &id);
    assert_eq!(reg.downloaded_info(0).title, "video");
}

#[test]
fn a_second_start_is_refused_and_the_entry_comes_back() {
    let mut reg: InnerSub<u32> = InnerSub::new();
    let id = twitch("streamer");
    assert!(reg.start(id.clone(), entry(1, "first")).is_ok());
    let back = reg.start(id.clone(), entry(2, "second")).unwrap_err();
    assert_eq!(back.thread, 2);
    assert_eq!(reg.watching_len(), 1);
    assert_eq!(reg.watching_entry(0).thread, 1);
    assert_eq!(reg.watching_id(0), &id);
}

#[test]
fn a_terminal_identifier_never_becomes_active_again() {
    let mut reg: InnerSub<u32> = InnerSub::new();
    let id = yt("once");
    reg.set_ids(vec![id.clone()]);
    assert!(reg.start(id.clone(), entry(1, "once")).is_ok());
    assert!(reg.reap(&id).is_some());
    for round in 0..5 {
        let back = reg.start(id.clone(), entry(round, "again"));
        assert!(back.is_err());
        assert!(!reg.is_watching(&id));
        assert!(reg.is_downloaded(&id));
        assert!(!contains_id(&reg.probe_targets(), &id));
        reg.set_ids(vec![id.clone(), yt("other")]);
        assert!(reg.reap(&id).is_none());
    }
    assert_eq!(reg.watching_len(), 0);
    assert_eq!(reg.downloaded_len(), 1);
    assert_eq!(reg.downloaded_info(0).title, "once");
}

#[test]
fn reaping_what_is_not_active_changes_nothing() {
    let mut reg: InnerSub<u32> = InnerSub::new();
    assert!(reg.start(yt("a"), entry(1, "a")).is_ok());
    assert!(reg.reap(&yt("b")).is_none());
    assert!(reg.reap(&twitch("a")).is_none());
    assert_eq!(reg.watching_len(), 1);
    assert_eq!(reg.downloaded_len(), 0);
}

#[test]
fn active_and_terminal_never_overlap() {
    let mut reg: InnerSub<u32> = InnerSub::new();
    let ids: Vec<Id> = (0..20).map(|i| if i % 2 == 0 { yt(&format!("k{i}")) } else { twitch(&format!("k{i}")) }).collect();
    for (n, id) in ids.iter().enumerate() {
        let _ = reg.start(id.clone(), entry(n as u32, "e"));
        if n % 3 == 0 {
            let _ = reg.reap(id);
        }
        if n % 5 == 0 {
            let _ = reg.start(id.clone(), entry(99, "retry"));
        }
        for probe in ids.iter() {
            assert!(!(reg.is_watching(probe) && reg.is_downloaded(probe)));
        }
    }
    assert_eq!(reg.watching_len() + reg.downloaded_len(), 20);
}

#[test]
fn fifty_acquisitions_all_become_active_then_all_terminal() {
    let mut reg: InnerSub<u32> = InnerSub::new();
    let ids: Vec<Id> = (0..50).map(|i| yt(&format!("synthetic-{i}"))).collect();
    reg.set_ids(ids.clone());
    assert_eq!(reg.probe_targets(), ids);
    for (n, id) in ids.iter().enumerate() {
        assert!(reg.start(id.clone(), entry(n as u32, &format!("t{n}"))).is_ok());
    }
    assert_eq!(reg.watching_len(), 50);
    assert_eq!(reg.downloaded_len(), 0);
    assert!(reg.probe_targets().is_empty());
    let reaped = reg.reap_all(&ids);
    assert_eq!(reaped.len(), 50);
    for (n, (id, e)) in reaped.iter().enumerate() {
        assert_eq!(id, &ids[n]);
        assert_eq!(e.thread, n as u32);
    }
    assert_eq!(reg.watching_len(), 0);
    assert_eq!(reg.downloaded_len(), 50);
    for (n, id) in ids.iter().enumerate() {
        assert_eq!(reg.downloaded_id(n), id);
        assert_eq!(reg.downloaded_info(n).title, format!("t{n}"));
    }
    assert!(reg.probe_targets().is_empty());
}

#[test]
fn a_reap_pass_passes_over_what_is_not_active_and_what_comes_twice() {
    let mut reg: InnerSub<u32> = InnerSub::new();
    assert!(reg.start(yt("a"), entry(1, "a")).is_ok());
    assert!(reg.start(yt("b"), entry(2, "b")).is_ok());
    assert!(reg.start(yt("c"), entry(3, "c")).is_ok());
    let reaped = reg.reap_all(&vec![yt("c"), yt("x"), yt("a"), yt("c")]);
    assert_eq!(reaped.len(), 2);
    assert_eq!(reaped[0].0, yt("c"));
    assert_eq!(reaped[0].1.thread, 3);
    assert_eq!(reaped[1].0, yt("a"));
    assert_eq!(reaped[1].1.thread, 1);
    assert_eq!(reg.watching_len(), 1);
    assert_eq!(reg.watching_id(0), &yt("b"));
    assert_eq!(reg.downloaded_len(), 2);
    assert_eq!(reg.downloaded_id(0), &yt("c"));
    assert_eq!(reg.downloaded_id(1), &yt("a"));
}

#[test]
fn removal_keeps_the_order_of_the_rest() {
    let mut reg: InnerSub<u32> = InnerSub::new();
    for (n, k) in ["a", "b", "c", "d"].iter().enumerate() {
        assert!(reg.start(yt(k), entry(n as u32, k)).is_ok());
    }
    assert!(reg.reap(&yt("b")).is_some());
    let titles: Vec<String> = reg.watching_infos().into_iter().map(|i| i.title).collect();
    assert_eq!(titles, vec!["a", "c", "d"]);
}

#[test]
fn probe_targets_are_the_subscribed_that_are_neither_active_nor_terminal() {
    let mut reg: InnerSub<u32> = InnerSub::new();
    reg.set_ids(vec![yt("a"), twitch("b"), yt("c"), twitch("d")]);
    assert!(reg.start(twitch("b"), entry(1, "b")).is_ok());
    assert!(reg.start(yt("c"), entry(2, "c")).is_ok());
    assert!(reg.reap(&yt("c")).is_some());
    assert!(reg.start(yt("unsubscribed"), entry(3, "u")).is_ok());
    assert_eq!(reg.probe_targets(), vec![yt("a"), twitch("d")]);
}

#[test]
fn snapshots_are_in_order() {
    let mut reg: InnerSub<u32> = InnerSub::new();
    assert!(reg.start(yt("a"), entry(1, "first")).is_ok());
    assert!(reg.start(yt("b"), entry(2, "second")).is_ok());
    assert!(reg.start(yt("c"), entry(3, "third")).is_ok());
    assert!(reg.reap(&yt("b")).is_some());
    assert!(reg.reap(&yt("a")).is_some());
    let watching: Vec<String> = reg.watching_infos().into_iter().map(|i| i.title).collect();
    let downloaded: Vec<String> = reg.downloaded_infos().into_iter().map(|i| i.title).collect();
    assert_eq!(watching, vec!["third"]);
    assert_eq!(downloaded, vec!["second", "first"]);
}

#[test]
fn lists_of_identifiers() {
    let ids = vec![yt("a"), twitch("a")];
    assert!(contains_id(&ids, &yt("a")));
    assert!(contains_id(&ids, &twitch("a")));
    assert!(!contains_id(&ids, &yt("b")));
    assert!(!contains_id(&vec![], &yt("a")));
    assert_eq!(dedup_ids(vec![yt("a"), yt("a"), twitch("a"), yt("a")]), vec![yt("a"), twitch("a")]);
    assert!(dedup_ids(vec![]).is_empty());
}
