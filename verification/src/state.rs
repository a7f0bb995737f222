//! The watch registry as a mathematical state machine.
//!
//! A channel or video is unknown, active (its acquisition is running) or
//! terminal (its acquisition has ended, well or badly). The steps below are
//! the only ways in which the registry changes; the laws at the end hold of
//! every sequence of them.
use crate::id::format_spec;
use crate::id::lemma_parse_format;
use crate::id::parse_spec;
use crate::id::IdView;
use crate::info::Info;
use vstd::prelude::*;

verus! {

/// One running acquisition: the handle of its task, the metadata known when
/// it started, and its staging directory.
pub struct Watching<H> {
    pub thread: H,
    pub info: Info,
    pub dl_dir: String,
}

/// What the registry holds. `entries` runs parallel to `active`, `infos`
/// to `terminal`.
pub struct State<H> {
    pub subscribed: Seq<IdView>,
    pub active: Seq<IdView>,
    pub entries: Seq<Watching<H>>,
    pub terminal: Seq<IdView>,
    pub infos: Seq<Info>,
}

/// A change of the registry.
pub enum Step<H> {
    /// The subscribed set is replaced.
    Subscribe(Seq<IdView>),
    /// An acquisition is to be entered as running.
    Start(IdView, Watching<H>),
    /// A finished acquisition is to be moved to the terminal ones.
    Reap(IdView),
}

/// `s` without the later occurrences of what occurs in it twice.
pub open spec fn distinct(s: Seq<IdView>) -> Seq<IdView>
    decreases s.len(),
{
    if s.len() == 0 {
        s
    } else if distinct(s.drop_last()).contains(s.last()) {
        distinct(s.drop_last())
    } else {
        distinct(s.drop_last()).push(s.last())
    }
}

/// The identifiers that the texts of `names` name, in their order; a text
/// that names none is passed over.
pub open spec fn parsed(names: Seq<Seq<char>>) -> Seq<IdView>
    decreases names.len(),
{
    if names.len() == 0 {
        Seq::empty()
    } else {
        match parse_spec(names.last()) {
            Some(id) => parsed(names.drop_last()).push(id),
            None => parsed(names.drop_last()),
        }
    }
}

/// The acquisitions to take up again, given the names of the staging
/// directories that were found: each identifier named, once.
pub open spec fn recoverable(names: Seq<Seq<char>>) -> Seq<IdView> {
    distinct(parsed(names))
}

impl<H> State<H> {
    /// The registry at the start of the process: nothing subscribed, nothing
    /// active, nothing terminal.
    pub open spec fn init() -> Self {
        State {
            subscribed: Seq::empty(),
            active: Seq::empty(),
            entries: Seq::empty(),
            terminal: Seq::empty(),
            infos: Seq::empty(),
        }
    }

    /// No identifier is listed twice, each active identifier has its entry
    /// and each terminal one its metadata, and none is active and terminal
    /// at once.
    pub open spec fn wf(self) -> bool {
        &&& self.subscribed.no_duplicates()
        &&& self.active.no_duplicates()
        &&& self.terminal.no_duplicates()
        &&& self.active.len() == self.entries.len()
        &&& self.terminal.len() == self.infos.len()
        &&& forall|k: IdView|
            #![trigger self.active.contains(k)]
            #![trigger self.terminal.contains(k)]
            !(self.active.contains(k) && self.terminal.contains(k))
    }

    /// Whether an acquisition of `id` may start: it is neither active nor
    /// terminal.
    pub open spec fn admits(self, id: IdView) -> bool {
        !self.active.contains(id) && !self.terminal.contains(id)
    }

    /// The subscribed set becomes `ids`, each taken once.
    pub open spec fn subscribe(self, ids: Seq<IdView>) -> Self {
        State { subscribed: distinct(ids), ..self }
    }

    /// `id` becomes active with `entry`, where it is admitted; otherwise
    /// nothing changes.
    pub open spec fn start(self, id: IdView, entry: Watching<H>) -> Self {
        if self.admits(id) {
            State { active: self.active.push(id), entries: self.entries.push(entry), ..self }
        } else {
            self
        }
    }

    /// `id` leaves the active ones and becomes terminal with the metadata of
    /// its entry, where it is active; otherwise nothing changes.
    pub open spec fn reap(self, id: IdView) -> Self {
        if self.active.contains(id) {
            let i = self.active.index_of(id);
            State {
                active: self.active.remove(i),
                entries: self.entries.remove(i),
                terminal: self.terminal.push(id),
                infos: self.infos.push(self.entries[i].info),
                ..self
            }
        } else {
            self
        }
    }

    /// The registry after `step`.
    pub open spec fn next(self, step: Step<H>) -> Self {
        match step {
            Step::Subscribe(ids) => self.subscribe(ids),
            Step::Start(id, entry) => self.start(id, entry),
            Step::Reap(id) => self.reap(id),
        }
    }

    /// The registry after each step of `steps` in turn.
    pub open spec fn run(self, steps: Seq<Step<H>>) -> Self
        decreases steps.len(),
    {
        if steps.len() == 0 {
            self
        } else {
            self.run(steps.drop_last()).next(steps.last())
        }
    }

    /// The registry after an acquisition was started for each of `ids`, with
    /// the entry at the same place of `entries`.
    pub open spec fn start_all(self, ids: Seq<IdView>, entries: Seq<Watching<H>>) -> Self
        recommends
            ids.len() == entries.len(),
        decreases ids.len(),
    {
        if ids.len() == 0 {
            self
        } else {
            self.start_all(ids.drop_last(), entries.drop_last()).start(ids.last(), entries.last())
        }
    }

    /// The registry after each of `ids` was reaped in turn.
    pub open spec fn reap_all(self, ids: Seq<IdView>) -> Self
        decreases ids.len(),
    {
        if ids.len() == 0 {
            self
        } else {
            self.reap_all(ids.drop_last()).reap(ids.last())
        }
    }

    /// The entries that leave the registry as each of `ids` is reaped in
    /// turn, each with its identifier, in that order. An identifier that is
    /// not active when its turn comes gives none.
    pub open spec fn reaped(self, ids: Seq<IdView>) -> Seq<(IdView, Watching<H>)>
        decreases ids.len(),
    {
        if ids.len() == 0 {
            Seq::empty()
        } else {
            let before = self.reap_all(ids.drop_last());
            if before.active.contains(ids.last()) {
                self.reaped(ids.drop_last()).push(
                    (ids.last(), before.entries[before.active.index_of(ids.last())]),
                )
            } else {
                self.reaped(ids.drop_last())
            }
        }
    }

    /// Those of the first `n` subscribed identifiers that are neither active
    /// nor terminal, in their order.
    pub open spec fn targets_among(self, n: int) -> Seq<IdView>
        decreases n,
    {
        if n <= 0 || n > self.subscribed.len() {
            Seq::empty()
        } else if self.admits(self.subscribed[n - 1]) {
            self.targets_among(n - 1).push(self.subscribed[n - 1])
        } else {
            self.targets_among(n - 1)
        }
    }

    /// The subscribed identifiers to probe in a dispatch pass: those that
    /// are neither active nor terminal, in the order of the subscribed set.
    pub open spec fn targets(self) -> Seq<IdView> {
        self.targets_among(self.subscribed.len() as int)
    }
}

/// The targets of a dispatch pass are subscribed, and none of them is active
/// or terminal.
pub proof fn lemma_targets<H>(s: State<H>, n: int)
    requires
        0 <= n <= s.subscribed.len(),
    ensures
        forall|i: int|
            0 <= i < s.targets_among(n).len() ==> s.admits(#[trigger] s.targets_among(n)[i])
                && s.subscribed.contains(s.targets_among(n)[i]),
    decreases n,
{
    if n > 0 {
        lemma_targets(s, n - 1);
        let t = s.targets_among(n);
        assert forall|i: int| 0 <= i < t.len() implies s.admits(#[trigger] t[i])
            && s.subscribed.contains(t[i]) by {
            if i < s.targets_among(n - 1).len() {
                assert(t[i] == s.targets_among(n - 1)[i]);
            } else {
                assert(t[i] == s.subscribed[n - 1]);
            }
        }
    }
}

/// `distinct(s)` holds nothing twice, and holds exactly what `s` holds.
pub proof fn lemma_distinct(s: Seq<IdView>)
    ensures
        distinct(s).no_duplicates(),
        forall|k: IdView|
            #![trigger distinct(s).contains(k)]
            #![trigger s.contains(k)]
            distinct(s).contains(k) <==> s.contains(k),
        distinct(s).len() <= s.len(),
        s.no_duplicates() ==> distinct(s) == s,
    decreases s.len(),
{
    if s.len() > 0 {
        let p = s.drop_last();
        let d = distinct(p);
        lemma_distinct(p);
        assert forall|k: IdView|
            #![trigger distinct(s).contains(k)]
            #![trigger s.contains(k)]
            distinct(s).contains(k) <==> s.contains(k) by {
            if s.contains(k) {
                let i = choose|i: int| 0 <= i < s.len() && s[i] == k;
                if i < s.len() - 1 {
                    assert(p[i] == k);
                    assert(p.contains(k));
                    assert(d.contains(k));
                    if !d.contains(s.last()) {
                        let j = choose|j: int| 0 <= j < d.len() && d[j] == k;
                        assert(d.push(s.last())[j] == k);
                    }
                } else {
                    if !d.contains(s.last()) {
                        assert(d.push(s.last())[d.len() as int] == k);
                    }
                }
            }
            if distinct(s).contains(k) {
                let j = choose|j: int| 0 <= j < distinct(s).len() && distinct(s)[j] == k;
                if j < d.len() {
                    assert(d[j] == k);
                    assert(d.contains(k));
                    assert(p.contains(k));
                    let i = choose|i: int| 0 <= i < p.len() && p[i] == k;
                    assert(s[i] == k);
                } else {
                    assert(k == s.last());
                    assert(s[s.len() - 1] == k);
                }
            }
        }
        if s.no_duplicates() {
            assert(p.no_duplicates());
            assert(!p.contains(s.last())) by {
                if p.contains(s.last()) {
                    let i = choose|i: int| 0 <= i < p.len() && p[i] == s.last();
                    assert(s[i] == s[s.len() - 1]);
                }
            }
            assert(d.push(s.last()) =~= s);
        }
    }
}

/// Two texts that name the same identifier are the same text.
pub proof fn lemma_parse_injective(a: Seq<char>, b: Seq<char>)
    requires
        parse_spec(a) is Some,
        parse_spec(a) == parse_spec(b),
    ensures
        a == b,
{
    let yt = "yt:"@;
    let tw = "twitch:"@;
    if yt.is_prefix_of(a) {
        assert(yt.is_prefix_of(b));
        assert(a =~= yt + a.skip(yt.len() as int));
        assert(b =~= yt + b.skip(yt.len() as int));
    } else {
        assert(!yt.is_prefix_of(b));
        assert(tw.is_prefix_of(a) && tw.is_prefix_of(b));
        assert(a =~= tw + a.skip(tw.len() as int));
        assert(b =~= tw + b.skip(tw.len() as int));
    }
}

/// Where every text of `names` names an identifier and no text occurs twice,
/// `parsed(names)` holds one identifier for each text and none twice.
pub proof fn lemma_parsed_valid(names: Seq<Seq<char>>)
    requires
        names.no_duplicates(),
        forall|i: int| 0 <= i < names.len() ==> parse_spec(#[trigger] names[i]) is Some,
    ensures
        parsed(names).len() == names.len(),
        parsed(names).no_duplicates(),
        forall|i: int| 0 <= i < names.len() ==> Some(#[trigger] parsed(names)[i]) == parse_spec(names[i]),
    decreases names.len(),
{
    if names.len() > 0 {
        let p = names.drop_last();
        lemma_parsed_valid(p);
        assert(parse_spec(names[names.len() - 1]) is Some);
        let ids = parsed(names);
        assert forall|i: int, j: int| 0 <= i < ids.len() && 0 <= j < ids.len() && i != j implies ids[i] != ids[j] by {
            if ids[i] == ids[j] {
                assert(Some(ids[i]) == parse_spec(names[i]));
                assert(Some(ids[j]) == parse_spec(names[j]));
                lemma_parse_injective(names[i], names[j]);
            }
        }
    }
}

/// Every step keeps the registry well formed: in particular no identifier
/// is ever active and terminal at once.
pub proof fn lemma_step_keeps_wf<H>(s: State<H>, step: Step<H>)
    requires
        s.wf(),
    ensures
        s.next(step).wf(),
        forall|k: IdView|
            #![trigger s.next(step).active.contains(k)]
            #![trigger s.next(step).terminal.contains(k)]
            !(s.next(step).active.contains(k) && s.next(step).terminal.contains(k)),
{
    let t = s.next(step);
    match step {
        Step::Subscribe(ids) => {
            lemma_distinct(ids);
        },
        Step::Start(id, entry) => {
            if s.admits(id) {
                lemma_push_contains(s.active, id);
                assert(t.active.no_duplicates());
            }
        },
        Step::Reap(id) => {
            if s.active.contains(id) {
                let i = s.active.index_of(id);
                lemma_remove_contains(s.active, i);
                lemma_push_contains(s.terminal, id);
                assert(t.terminal.no_duplicates());
                assert(t.active.no_duplicates());
            }
        },
    }
}

/// What `s.push(a)` holds: what `s` holds, and `a`.
pub proof fn lemma_push_contains(s: Seq<IdView>, a: IdView)
    ensures
        forall|k: IdView|
            #![trigger s.push(a).contains(k)]
            #![trigger s.contains(k)]
            s.push(a).contains(k) <==> (s.contains(k) || k == a),
{
    assert forall|k: IdView|
        #![trigger s.push(a).contains(k)]
        #![trigger s.contains(k)]
        s.push(a).contains(k) <==> (s.contains(k) || k == a) by {
        if s.contains(k) {
            let i = choose|i: int| 0 <= i < s.len() && s[i] == k;
            assert(s.push(a)[i] == k);
        }
        if k == a {
            assert(s.push(a)[s.len() as int] == k);
        }
    }
}

/// What `s.remove(i)` holds where `s` holds nothing twice: what `s` holds,
/// but for `s[i]`.
pub proof fn lemma_remove_contains(s: Seq<IdView>, i: int)
    requires
        0 <= i < s.len(),
        s.no_duplicates(),
    ensures
        s.remove(i).no_duplicates(),
        forall|k: IdView|
            #![trigger s.remove(i).contains(k)]
            #![trigger s.contains(k)]
            s.remove(i).contains(k) <==> (s.contains(k) && k != s[i]),
{
    let r = s.remove(i);
    assert forall|k: IdView|
        #![trigger r.contains(k)]
        #![trigger s.contains(k)]
        r.contains(k) <==> (s.contains(k) && k != s[i]) by {
        if r.contains(k) {
            let j = choose|j: int| 0 <= j < r.len() && r[j] == k;
            if j < i {
                assert(s[j] == k);
            } else {
                assert(s[j + 1] == k);
            }
        }
        if s.contains(k) && k != s[i] {
            let j = choose|j: int| 0 <= j < s.len() && s[j] == k;
            if j < i {
                assert(r[j] == k);
            } else {
                assert(r[j - 1] == k);
            }
        }
    }
}

/// The registry is well formed at its start and after every sequence of
/// steps, so at no time is an identifier both active and terminal.
pub proof fn lemma_never_active_and_terminal<H>(steps: Seq<Step<H>>, k: IdView)
    ensures
        State::<H>::init().run(steps).wf(),
        !(State::<H>::init().run(steps).active.contains(k) && State::<H>::init().run(
            steps,
        ).terminal.contains(k)),
    decreases steps.len(),
{
    if steps.len() > 0 {
        lemma_never_active_and_terminal::<H>(steps.drop_last(), k);
        lemma_step_keeps_wf(State::<H>::init().run(steps.drop_last()), steps.last());
    }
}

/// An identifier that is terminal stays terminal, and does not become
/// active, whatever steps follow.
pub proof fn lemma_terminal_is_final<H>(s: State<H>, steps: Seq<Step<H>>, k: IdView)
    requires
        s.wf(),
        s.terminal.contains(k),
    ensures
        s.run(steps).wf(),
        s.run(steps).terminal.contains(k),
        !s.run(steps).active.contains(k),
    decreases steps.len(),
{
    if steps.len() > 0 {
        let p = s.run(steps.drop_last());
        lemma_terminal_is_final(s, steps.drop_last(), k);
        lemma_step_keeps_wf(p, steps.last());
        match steps.last() {
            Step::Subscribe(ids) => {},
            Step::Start(id, entry) => {},
            Step::Reap(id) => {
                lemma_push_contains(p.terminal, id);
            },
        }
    }
}

/// Reaping a list of identifiers is a sequence of steps, so what holds of
/// every sequence of steps holds of a reap pass.
pub proof fn lemma_reap_all_is_run<H>(s: State<H>, ids: Seq<IdView>)
    ensures
        s.reap_all(ids) == s.run(ids.map_values(|k: IdView| Step::<H>::Reap(k))),
    decreases ids.len(),
{
    let steps = ids.map_values(|k: IdView| Step::<H>::Reap(k));
    if ids.len() > 0 {
        lemma_reap_all_is_run(s, ids.drop_last());
        assert(steps.drop_last() =~= ids.drop_last().map_values(|k: IdView| Step::<H>::Reap(k)));
        assert(steps.last() == Step::<H>::Reap(ids.last()));
    }
}

/// After a reap pass, an identifier that was terminal before it, or was
/// active and is in the list, is terminal and is not active.
pub proof fn lemma_reap_all_terminates<H>(s: State<H>, ids: Seq<IdView>, k: IdView)
    requires
        s.wf(),
        s.terminal.contains(k) || (s.active.contains(k) && ids.contains(k)),
    ensures
        s.reap_all(ids).wf(),
        s.reap_all(ids).terminal.contains(k),
        !s.reap_all(ids).active.contains(k),
    decreases ids.len(),
{
    if ids.len() == 0 {
    } else {
        let p = s.reap_all(ids.drop_last());
        let id = ids.last();
        lemma_reap_all_keeps(s, ids.drop_last(), k);
        lemma_step_keeps_wf(p, Step::Reap(id));
        if s.terminal.contains(k) || ids.drop_last().contains(k) {
            lemma_reap_all_terminates(s, ids.drop_last(), k);
        } else {
            assert(id == k) by {
                let i = choose|i: int| 0 <= i < ids.len() && ids[i] == k;
                if i < ids.len() - 1 {
                    assert(ids.drop_last()[i] == k);
                }
            }
        }
        if p.active.contains(id) {
            lemma_remove_contains(p.active, p.active.index_of(id));
            lemma_push_contains(p.terminal, id);
        }
    }
}

/// A reap pass does not touch the subscribed set.
pub proof fn lemma_reap_all_subscribed<H>(s: State<H>, ids: Seq<IdView>)
    ensures
        s.reap_all(ids).subscribed == s.subscribed,
    decreases ids.len(),
{
    if ids.len() > 0 {
        lemma_reap_all_subscribed(s, ids.drop_last());
    }
}

/// A reap pass keeps the registry well formed, and what was active or
/// terminal before it is active or terminal after it.
pub proof fn lemma_reap_all_keeps<H>(s: State<H>, ids: Seq<IdView>, k: IdView)
    requires
        s.wf(),
        s.active.contains(k) || s.terminal.contains(k),
    ensures
        s.reap_all(ids).wf(),
        s.reap_all(ids).active.contains(k) || s.reap_all(ids).terminal.contains(k),
    decreases ids.len(),
{
    if ids.len() > 0 {
        let p = s.reap_all(ids.drop_last());
        lemma_reap_all_keeps(s, ids.drop_last(), k);
        lemma_step_keeps_wf(p, Step::Reap(ids.last()));
        let id = ids.last();
        if p.active.contains(id) {
            let i = p.active.index_of(id);
            lemma_remove_contains(p.active, i);
            lemma_push_contains(p.terminal, id);
        }
    }
}

/// A reap pass over active identifiers, none of them twice, takes exactly
/// these out of the active ones and puts them behind the terminal ones, in
/// the order of the pass.
pub proof fn lemma_reap_all_moves<H>(s: State<H>, ids: Seq<IdView>)
    requires
        s.wf(),
        ids.no_duplicates(),
        forall|i: int| 0 <= i < ids.len() ==> s.active.contains(#[trigger] ids[i]),
    ensures
        s.reap_all(ids).wf(),
        s.reap_all(ids).terminal == s.terminal + ids,
        s.reap_all(ids).active.len() == s.active.len() - ids.len(),
        forall|k: IdView|
            #![trigger s.reap_all(ids).active.contains(k)]
            s.reap_all(ids).active.contains(k) <==> (s.active.contains(k) && !ids.contains(k)),
    decreases ids.len(),
{
    if ids.len() == 0 {
        assert(s.terminal + ids =~= s.terminal);
    } else {
        let first = ids.drop_last();
        let last = ids.last();
        let p = s.reap_all(first);
        assert forall|i: int| 0 <= i < first.len() implies s.active.contains(
            #[trigger] first[i],
        ) by {
            assert(first[i] == ids[i]);
        }
        lemma_reap_all_moves(s, first);
        lemma_step_keeps_wf(p, Step::Reap(last));
        assert(s.active.contains(ids[ids.len() - 1]));
        assert(!first.contains(last)) by {
            if first.contains(last) {
                let i = choose|i: int| 0 <= i < first.len() && first[i] == last;
                assert(ids[i] == ids[ids.len() - 1]);
            }
        }
        assert(p.active.contains(last));
        let at = p.active.index_of(last);
        lemma_remove_contains(p.active, at);
        let t = s.reap_all(ids);
        assert(t.terminal =~= s.terminal + ids);
        assert forall|k: IdView| #![trigger t.active.contains(k)] t.active.contains(k) <==> (
        s.active.contains(k) && !ids.contains(k)) by {
            if ids.contains(k) {
                let i = choose|i: int| 0 <= i < ids.len() && ids[i] == k;
                if i < first.len() {
                    assert(first[i] == k);
                    assert(first.contains(k));
                }
            }
            if first.contains(k) {
                let i = choose|i: int| 0 <= i < first.len() && first[i] == k;
                assert(ids[i] == k);
            }
            if k == last {
                assert(ids[ids.len() - 1] == k);
            }
        }
    }
}

/// A reap pass over all that is active leaves nothing active and makes
/// exactly these terminal, behind what was terminal before: none is lost
/// and none is there twice.
pub proof fn lemma_reap_all_active<H>(s: State<H>)
    requires
        s.wf(),
    ensures
        s.reap_all(s.active).wf(),
        s.reap_all(s.active).active.len() == 0,
        s.reap_all(s.active).terminal == s.terminal + s.active,
        s.reap_all(s.active).terminal.len() == s.terminal.len() + s.active.len(),
        s.reap_all(s.active).terminal.no_duplicates(),
{
    lemma_reap_all_moves(s, s.active);
}

/// Starting acquisitions for identifiers that the registry at its start
/// holds none of, none of them twice, and reaping them all when they have
/// finished makes each of them active once and then terminal once.
pub proof fn lemma_start_then_reap<H>(ids: Seq<IdView>, entries: Seq<Watching<H>>)
    requires
        ids.len() == entries.len(),
        ids.no_duplicates(),
    ensures
        State::<H>::init().start_all(ids, entries).active == ids,
        State::<H>::init().start_all(ids, entries).terminal.len() == 0,
        State::<H>::init().start_all(ids, entries).reap_all(ids).active.len() == 0,
        State::<H>::init().start_all(ids, entries).reap_all(ids).terminal == ids,
{
    let s = State::<H>::init();
    lemma_start_all(s, ids, entries);
    assert(s.active + ids =~= ids);
    let started = s.start_all(ids, entries);
    assert(started.wf()) by {
        lemma_start_all_wf(s, ids, entries);
    }
    lemma_reap_all_active(started);
    assert(started.terminal + ids =~= ids);
}

/// Starting acquisitions keeps the registry well formed.
pub proof fn lemma_start_all_wf<H>(s: State<H>, ids: Seq<IdView>, entries: Seq<Watching<H>>)
    requires
        s.wf(),
        ids.len() == entries.len(),
    ensures
        s.start_all(ids, entries).wf(),
    decreases ids.len(),
{
    if ids.len() > 0 {
        lemma_start_all_wf(s, ids.drop_last(), entries.drop_last());
        lemma_step_keeps_wf(
            s.start_all(ids.drop_last(), entries.drop_last()),
            Step::Start(ids.last(), entries.last()),
        );
    }
}

/// Starting an acquisition for each of a list of identifiers that holds
/// none twice, on a registry that admits them all, makes exactly these
/// active, in their order, each with its entry.
pub proof fn lemma_start_all<H>(s: State<H>, ids: Seq<IdView>, entries: Seq<Watching<H>>)
    requires
        s.wf(),
        ids.len() == entries.len(),
        ids.no_duplicates(),
        forall|i: int| 0 <= i < ids.len() ==> s.admits(#[trigger] ids[i]),
    ensures
        s.start_all(ids, entries).active == s.active + ids,
        s.start_all(ids, entries).entries == s.entries + entries,
        s.start_all(ids, entries).terminal == s.terminal,
        s.start_all(ids, entries).subscribed == s.subscribed,
    decreases ids.len(),
{
    if ids.len() == 0 {
        assert(s.active + ids =~= s.active);
        assert(s.entries + entries =~= s.entries);
    } else {
        let pi = ids.drop_last();
        let pe = entries.drop_last();
        lemma_start_all(s, pi, pe);
        let p = s.start_all(pi, pe);
        let last = ids.last();
        assert(s.admits(ids[ids.len() - 1]));
        assert(!p.active.contains(last)) by {
            if p.active.contains(last) {
                let j = choose|j: int| 0 <= j < p.active.len() && p.active[j] == last;
                if j < s.active.len() {
                    assert(s.active[j] == last);
                } else {
                    assert(pi[j - s.active.len()] == last);
                    assert(ids[j - s.active.len()] == ids[ids.len() - 1]);
                }
            }
        }
        assert(p.active.push(last) =~= s.active + ids);
        assert(p.entries.push(entries.last()) =~= s.entries + entries);
    }
}

/// Taking up the acquisitions of `n` staging directories whose names are
/// the canonical texts of identifiers, no name twice, on the registry as it
/// is at the start, makes exactly `n` acquisitions active, none of them for
/// an identifier that another one is for.
pub proof fn lemma_recovery<H>(names: Seq<Seq<char>>, entries: Seq<Watching<H>>)
    requires
        names.no_duplicates(),
        forall|i: int| 0 <= i < names.len() ==> parse_spec(#[trigger] names[i]) is Some,
        entries.len() == names.len(),
    ensures
        recoverable(names).len() == names.len(),
        recoverable(names).no_duplicates(),
        State::<H>::init().start_all(recoverable(names), entries).active == recoverable(names),
        State::<H>::init().start_all(recoverable(names), entries).entries == entries,
        State::<H>::init().start_all(recoverable(names), entries).active.len() == names.len(),
{
    lemma_parsed_valid(names);
    lemma_distinct(parsed(names));
    let ids = recoverable(names);
    let s = State::<H>::init();
    lemma_start_all(s, ids, entries);
    assert(s.active + ids =~= ids);
    assert(s.entries + entries =~= entries);
}

/// The canonical text of an identifier names that identifier, so a staging
/// directory named by it is taken up again.
pub proof fn lemma_staging_name_recovers(id: IdView)
    ensures
        recoverable(seq![format_spec(id)]) == seq![id],
{
    lemma_parse_format(id);
    let names = seq![format_spec(id)];
    assert(names.drop_last() =~= Seq::<Seq<char>>::empty());
    assert(parsed(names.drop_last()) =~= Seq::<IdView>::empty());
    assert(parsed(names) =~= seq![id]);
    lemma_distinct(parsed(names));
}

} // verus!
