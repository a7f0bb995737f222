//! The decisions of the orchestration loop.
//!
//! The loop itself (locking, probing, spawning, joining, sleeping) is run by
//! the caller. Each pass of it asks this module what to do and tells the
//! registry what happened:
//!
//! 1. at boot, [`recovery_candidates`] names the acquisitions to take up
//!    again, and each is entered with `InnerSub::start`;
//! 2. in a cycle, the finished tasks are reaped with `InnerSub::reap_all`
//!    and reported with [`finished_message`];
//! 3. then each of `InnerSub::probe_targets` is probed, [`dispatch`] says
//!    which acquisition to start, and it is entered with `InnerSub::start`;
//! 4. then the loop idles for [`idle_ticks`] ticks.
use crate::id::parse_spec;
use crate::id::Id;
use crate::id::IdView;
use crate::id::Provider;
use crate::info::went_live;
use crate::info::went_live_spec;
use crate::info::Info;
use crate::info::Probe;
use crate::quote::debug_quoted;
use crate::quote::debug_spec;
use crate::registry::contains_id;
use crate::registry::id_views;
use crate::registry::InnerSub;
use crate::state::parsed;
use crate::state::recoverable;
use crate::text::concat_str;
use crate::text::opt_view;
use crate::text::views;
use crate::yt_dlp::YtDlp;
use vstd::prelude::*;
use vstd::string::*;

verus! {

/// The length of one cycle of the loop, in milliseconds.
pub const CYCLE_MILLIS: u64 = 45000;

/// The length of one tick of the idle wait, in milliseconds.
pub const TICK_MILLIS: u64 = 100;

/// The number of ticks for which the loop idles at the end of a cycle.
pub fn idle_ticks() -> (r: u64)
    ensures
        r == CYCLE_MILLIS / TICK_MILLIS,
        r == 450,
{
    CYCLE_MILLIS / TICK_MILLIS
}

/// The options with which the daemon runs the executor: two fragments at
/// once, output remuxed to `mkv`, cookies taken from `firefox`, and the
/// defaults for the rest.
pub fn default_options() -> (r: YtDlp)
    ensures
        !r.live_from_start,
        r.embed_metadata,
        r.embed_thumbnail,
        r.no_progress,
        r.concurrent_fragments == Some(2u8),
        r.playlist_items is None,
        opt_view(r.remux_video) == Some("mkv"@),
        opt_view(r.cookies_from_browser) == Some("firefox"@),
{
    let mut yt_dlp = YtDlp::default();
    yt_dlp.concurrent_fragments(Some(2)).remux_video(Some("mkv")).cookies_from_browser(
        Some("firefox"),
    );
    yt_dlp
}

/// The options for the acquisition of `id`: those of the daemon, and for a
/// YouTube video the stream is taken from its start.
pub fn task_options(yt_dlp: &YtDlp, id: &Id) -> (r: YtDlp)
    ensures
        r == (YtDlp {
            live_from_start: if id@.provider == Provider::YouTube {
                true
            } else {
                yt_dlp.live_from_start
            },
            ..*yt_dlp
        }),
{
    let mut options = yt_dlp.clone();
    match id {
        Id::Yt { .. } => {
            options.live_from_start(true);
        },
        Id::Twitch { .. } => {},
    }
    options
}

/// The acquisitions to take up again at boot, given the names of the
/// directories found under the staging directory: each identifier that a
/// name is the canonical text of, once, in the order of the names. A name
/// that is no identifier's text is passed over.
pub fn recovery_candidates(names: &Vec<String>) -> (r: Vec<Id>)
    ensures
        id_views(r@) == recoverable(views(names@)),
{
    let mut out: Vec<Id> = Vec::new();
    let mut i: usize = 0;
    let ghost all = views(names@);
    proof {
        assert(all.take(0) =~= Seq::<Seq<char>>::empty());
        assert(id_views(out@) =~= Seq::<IdView>::empty());
    }
    while i < names.len()
        invariant
            i <= names.len(),
            all == views(names@),
            id_views(out@) == recoverable(all.take(i as int)),
        decreases names.len() - i,
    {
        let ghost before = id_views(out@);
        proof {
            assert(all.take(i + 1).drop_last() =~= all.take(i as int));
            assert(all.take(i + 1).last() == names@[i as int]@);
            lemma_recoverable_step(all.take(i + 1));
        }
        match Id::from_str(names[i].as_str()) {
            Ok(id) => {
                if !contains_id(&out, &id) {
                    let ghost k = id@;
                    out.push(id);
                    assert(id_views(out@) =~= before.push(k));
                }
            },
            Err(_) => {},
        }
        i += 1;
    }
    assert(all.take(names.len() as int) =~= all);
    out
}

/// How `recoverable` grows by one name: by the identifier that the name is
/// the text of, unless it is there already or the name is no identifier's.
pub proof fn lemma_recoverable_step(names: Seq<Seq<char>>)
    requires
        names.len() > 0,
    ensures
        recoverable(names) == match parse_spec(names.last()) {
            Some(id) => if recoverable(names.drop_last()).contains(id) {
                recoverable(names.drop_last())
            } else {
                recoverable(names.drop_last()).push(id)
            },
            None => recoverable(names.drop_last()),
        },
{
    match parse_spec(names.last()) {
        Some(id) => {
            assert(parsed(names).drop_last() =~= parsed(names.drop_last()));
        },
        None => {},
    }
}

/// The acquisition to start after `probe` was made of `target`: the one
/// that the probe shows as live, where the registry admits it.
pub open spec fn dispatch_spec<H>(state: crate::state::State<H>, target: IdView, probe: Probe)
    -> Option<IdView> {
    match went_live_spec(target, probe) {
        Some(id) => if state.admits(id) {
            Some(id)
        } else {
            None
        },
        None => None,
    }
}

/// The acquisition to start after `probe` was made of `target`, if any. An
/// identifier whose acquisition runs or has ended is never handed out.
pub fn dispatch<H>(inner: &InnerSub<H>, target: &Id, probe: &Probe) -> (r: Option<Id>)
    ensures
        match r {
            Some(id) => dispatch_spec(inner@, target@, *probe) == Some(id@),
            None => dispatch_spec(inner@, target@, *probe) is None,
        },
        r is Some ==> !inner@.terminal.contains(r->0@) && !inner@.active.contains(r->0@),
{
    match went_live(target, probe) {
        Some(id) => if inner.admits(&id) {
            Some(id)
        } else {
            None
        },
        None => None,
    }
}

/// The report of a finished acquisition, given the quoted title.
pub open spec fn finished_message_spec(
    quoted_title: Seq<char>,
    uploader: Seq<char>,
    outcome: Result<(), String>,
) -> Seq<char> {
    match outcome {
        Ok(_) => "Downloaded "@ + quoted_title + " - "@ + uploader,
        Err(e) => "Failed to download "@ + quoted_title + " - "@ + uploader + ": "@ + e@,
    }
}

/// The report of a finished acquisition, given the quoted title: that it
/// was downloaded, or that it failed and why.
pub fn finished_message_from(quoted_title: &str, uploader: &str, outcome: &Result<(), String>) -> (r:
    String)
    ensures
        r@ == finished_message_spec(quoted_title@, uploader@, *outcome),
{
    match outcome {
        Ok(_) => {
            let mut r = concat_str("Downloaded ", quoted_title);
            r.append(" - ");
            r.append(uploader);
            r
        },
        Err(e) => {
            let mut r = concat_str("Failed to download ", quoted_title);
            r.append(" - ");
            r.append(uploader);
            r.append(": ");
            r.append(e.as_str());
            r
        },
    }
}

/// The report of a finished acquisition: its title in quotes, its
/// uploader, and for a failure the reason.
pub fn finished_message(info: &Info, outcome: &Result<(), String>) -> (r: String)
    ensures
        r@ == finished_message_spec(debug_spec(info.title@), info.uploader@, *outcome),
{
    let quoted = debug_quoted(info.title.as_str());
    finished_message_from(quoted.as_str(), info.uploader.as_str(), outcome)
}

} // verus!
