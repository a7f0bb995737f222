//! The watch registry: which identifiers are subscribed, which acquisitions
//! run, and which have ended.
//!
//! The registry is the single source of truth of the daemon and is meant to
//! sit behind one lock. Nothing here blocks: probing, spawning and joining
//! are the caller's work, done before or after a call.
use crate::id::Id;
use crate::id::IdView;
use crate::id_map::IdMap;
use crate::info::Info;
use crate::state::distinct;
use crate::state::State;
use crate::state::Watching;
use vstd::prelude::*;

verus! {

/// What the identifiers of a list stand for.
pub open spec fn id_views(ids: Seq<Id>) -> Seq<IdView> {
    ids.map_values(|i: Id| i@)
}

/// The registry. `H` is the handle of a running task; the registry keeps
/// it with the entry and hands it back when the entry is reaped.
pub struct InnerSub<H> {
    ids: Vec<Id>,
    watching: IdMap<Watching<H>>,
    downloaded: IdMap<Info>,
}

impl<H> View for InnerSub<H> {
    type V = State<H>;

    closed spec fn view(&self) -> State<H> {
        State {
            subscribed: id_views(self.ids@),
            active: self.watching.keys(),
            entries: self.watching.values(),
            terminal: self.downloaded.keys(),
            infos: self.downloaded.values(),
        }
    }
}

/// Whether `id` occurs in `ids`.
pub fn contains_id(ids: &Vec<Id>, id: &Id) -> (r: bool)
    ensures
        r == id_views(ids@).contains(id@),
{
    let mut i: usize = 0;
    while i < ids.len()
        invariant
            i <= ids.len(),
            forall|j: int| 0 <= j < i ==> id_views(ids@)[j] != id@,
        decreases ids.len() - i,
    {
        if ids[i] == *id {
            assert(id_views(ids@)[i as int] == id@);
            return true;
        }
        i += 1;
    }
    false
}

/// The identifiers of `ids`, each once, in the order of their first
/// occurrence.
pub fn dedup_ids(ids: Vec<Id>) -> (r: Vec<Id>)
    ensures
        id_views(r@) == distinct(id_views(ids@)),
{
    let mut out: Vec<Id> = Vec::new();
    let mut i: usize = 0;
    assert(id_views(ids@).take(0) =~= Seq::<IdView>::empty());
    assert(id_views(out@) =~= Seq::<IdView>::empty());
    while i < ids.len()
        invariant
            i <= ids.len(),
            id_views(out@) == distinct(id_views(ids@).take(i as int)),
        decreases ids.len() - i,
    {
        let ghost before = id_views(out@);
        let ghost upto = id_views(ids@).take(i + 1);
        assert(upto.drop_last() =~= id_views(ids@).take(i as int));
        assert(upto.last() == ids@[i as int]@);
        if !contains_id(&out, &ids[i]) {
            out.push(ids[i].clone());
            assert(id_views(out@) =~= before.push(ids@[i as int]@));
        }
        i += 1;
    }
    assert(id_views(ids@).take(ids.len() as int) =~= id_views(ids@));
    out
}

impl<H> Default for InnerSub<H> {
    /// The registry at the start of the process.
    fn default() -> (r: Self)
        ensures
            r@ == State::<H>::init(),
            r@.wf(),
    {
        InnerSub::new()
    }
}

impl<H> InnerSub<H> {
    /// The registry is well formed; in particular no identifier is active
    /// and terminal at once.
    #[verifier::type_invariant]
    pub closed spec fn inv(&self) -> bool {
        self@.wf()
    }

    /// The registry at the start of the process.
    pub fn new() -> (r: Self)
        ensures
            r@ == State::<H>::init(),
            r@.wf(),
    {
        let r = InnerSub { ids: Vec::new(), watching: IdMap::new(), downloaded: IdMap::new() };
        assert(id_views(r.ids@) =~= Seq::<IdView>::empty());
        r
    }

    /// Replaces the subscribed set by `ids`, each taken once. What is active
    /// or terminal stays as it is.
    pub fn set_ids(&mut self, ids: Vec<Id>)
        ensures
            final(self)@ == old(self)@.subscribe(id_views(ids@)),
            final(self)@.wf(),
    {
        proof {
            use_type_invariant(&*self);
            crate::state::lemma_distinct(id_views(ids@));
        }
        self.ids = dedup_ids(ids);
    }

    /// The subscribed identifiers.
    pub fn ids(&self) -> (r: Vec<Id>)
        ensures
            id_views(r@) == self@.subscribed,
            self@.wf(),
    {
        proof {
            use_type_invariant(self);
        }
        let mut out: Vec<Id> = Vec::new();
        let mut i: usize = 0;
        while i < self.ids.len()
            invariant
                i <= self.ids.len(),
                out@.len() == i,
                forall|j: int| 0 <= j < i ==> out@[j] == self.ids@[j],
            decreases self.ids.len() - i,
        {
            out.push(self.ids[i].clone());
            i += 1;
        }
        assert(id_views(out@) =~= id_views(self.ids@));
        out
    }

    /// Whether an acquisition of `id` is running.
    pub fn is_watching(&self, id: &Id) -> (r: bool)
        ensures
            r == self@.active.contains(id@),
            self@.wf(),
    {
        proof {
            use_type_invariant(self);
        }
        self.watching.position(id).is_some()
    }

    /// Whether the acquisition of `id` has ended.
    pub fn is_downloaded(&self, id: &Id) -> (r: bool)
        ensures
            r == self@.terminal.contains(id@),
            self@.wf(),
    {
        proof {
            use_type_invariant(self);
        }
        self.downloaded.position(id).is_some()
    }

    /// Whether an acquisition of `id` may start: none is running and none
    /// has ended.
    pub fn admits(&self, id: &Id) -> (r: bool)
        ensures
            r == self@.admits(id@),
            self@.wf(),
    {
        !self.is_watching(id) && !self.is_downloaded(id)
    }

    /// The number of running acquisitions.
    pub fn watching_len(&self) -> (n: usize)
        ensures
            n == self@.active.len(),
            n == self@.entries.len(),
            self@.wf(),
    {
        proof {
            use_type_invariant(self);
        }
        self.watching.len()
    }

    /// The number of acquisitions that have ended.
    pub fn downloaded_len(&self) -> (n: usize)
        ensures
            n == self@.terminal.len(),
            n == self@.infos.len(),
            self@.wf(),
    {
        proof {
            use_type_invariant(self);
        }
        self.downloaded.len()
    }

    /// The identifier of the running acquisition at position `i`.
    pub fn watching_id(&self, i: usize) -> (r: &Id)
        requires
            i < self@.active.len(),
        ensures
            r@ == self@.active[i as int],
    {
        self.watching.key_at(i)
    }

    /// The entry of the running acquisition at position `i`.
    pub fn watching_entry(&self, i: usize) -> (r: &Watching<H>)
        requires
            i < self@.entries.len(),
        ensures
            *r == self@.entries[i as int],
    {
        self.watching.value_at(i)
    }

    /// The identifier of the ended acquisition at position `i`.
    pub fn downloaded_id(&self, i: usize) -> (r: &Id)
        requires
            i < self@.terminal.len(),
        ensures
            r@ == self@.terminal[i as int],
    {
        self.downloaded.key_at(i)
    }

    /// The metadata of the ended acquisition at position `i`.
    pub fn downloaded_info(&self, i: usize) -> (r: &Info)
        requires
            i < self@.infos.len(),
        ensures
            *r == self@.infos[i as int],
    {
        self.downloaded.value_at(i)
    }

    /// Enters `entry` as the running acquisition of `id`, where none is
    /// running and none has ended. Otherwise the registry stays as it is and
    /// the entry comes back.
    pub fn start(&mut self, id: Id, entry: Watching<H>) -> (r: Result<(), Watching<H>>)
        ensures
            final(self)@ == old(self)@.start(id@, entry),
            final(self)@.wf(),
            match r {
                Ok(_) => old(self)@.admits(id@),
                Err(e) => !old(self)@.admits(id@) && e == entry,
            },
    {
        proof {
            use_type_invariant(&*self);
            crate::state::lemma_step_keeps_wf(old(self)@, crate::state::Step::Start(id@, entry));
        }
        if self.admits(&id) {
            let mut watching: IdMap<Watching<H>> = IdMap::new();
            core::mem::swap(&mut self.watching, &mut watching);
            let _ = watching.insert(id, entry);
            self.watching = watching;
            Ok(())
        } else {
            Err(entry)
        }
    }

    /// Moves the acquisition of `id` from the running ones to the ended
    /// ones, with the metadata of its entry, and hands the entry out. Where
    /// none is running for `id`, nothing changes.
    pub fn reap(&mut self, id: &Id) -> (r: Option<Watching<H>>)
        ensures
            final(self)@ == old(self)@.reap(id@),
            final(self)@.wf(),
            match r {
                Some(entry) => old(self)@.active.contains(id@) && entry == old(self)@.entries[old(
                    self,
                )@.active.index_of(id@)],
                None => !old(self)@.active.contains(id@),
            },
    {
        proof {
            use_type_invariant(&*self);
            crate::state::lemma_step_keeps_wf(old(self)@, crate::state::Step::Reap(id@));
        }
        let mut watching: IdMap<Watching<H>> = IdMap::new();
        core::mem::swap(&mut self.watching, &mut watching);
        match watching.remove(id) {
            Some(entry) => {
                let mut downloaded: IdMap<Info> = IdMap::new();
                core::mem::swap(&mut self.downloaded, &mut downloaded);
                let _ = downloaded.insert(id.clone(), entry.info.clone());
                self.watching = watching;
                self.downloaded = downloaded;
                Some(entry)
            },
            None => {
                self.watching = watching;
                None
            },
        }
    }

    /// A reap pass: moves the acquisition of each of `finished` from the
    /// running ones to the ended ones, in turn, and hands out the entries
    /// that left, each with its identifier. An identifier for which none is
    /// running when its turn comes is passed over.
    pub fn reap_all(&mut self, finished: &Vec<Id>) -> (r: Vec<(Id, Watching<H>)>)
        ensures
            final(self)@ == old(self)@.reap_all(id_views(finished@)),
            final(self)@.wf(),
            r@.map_values(|e: (Id, Watching<H>)| (e.0@, e.1)) == old(self)@.reaped(
                id_views(finished@),
            ),
    {
        let ghost start = self@;
        let ghost ids = id_views(finished@);
        let mut out: Vec<(Id, Watching<H>)> = Vec::new();
        let mut i: usize = 0;
        proof {
            use_type_invariant(&*self);
            assert(ids.take(0) =~= Seq::<IdView>::empty());
            assert(out@.map_values(|e: (Id, Watching<H>)| (e.0@, e.1)) =~= Seq::<
                (IdView, Watching<H>),
            >::empty());
        }
        while i < finished.len()
            invariant
                i <= finished.len(),
                ids == id_views(finished@),
                self@ == start.reap_all(ids.take(i as int)),
                self@.wf(),
                out@.map_values(|e: (Id, Watching<H>)| (e.0@, e.1)) == start.reaped(
                    ids.take(i as int),
                ),
            decreases finished.len() - i,
        {
            let ghost before = out@.map_values(|e: (Id, Watching<H>)| (e.0@, e.1));
            proof {
                assert(ids.take(i + 1).drop_last() =~= ids.take(i as int));
                assert(ids.take(i + 1).last() == finished@[i as int]@);
            }
            match self.reap(&finished[i]) {
                Some(entry) => {
                    out.push((finished[i].clone(), entry));
                    assert(out@.map_values(|e: (Id, Watching<H>)| (e.0@, e.1)) =~= before.push(
                        (finished@[i as int]@, entry),
                    ));
                },
                None => {},
            }
            i += 1;
        }
        assert(ids.take(finished.len() as int) =~= ids);
        out
    }

    /// The subscribed identifiers to probe in a dispatch pass: those for
    /// which no acquisition is running and none has ended.
    pub fn probe_targets(&self) -> (r: Vec<Id>)
        ensures
            id_views(r@) == self@.targets(),
            self@.wf(),
    {
        proof {
            use_type_invariant(self);
        }
        let mut out: Vec<Id> = Vec::new();
        let mut i: usize = 0;
        assert(id_views(out@) =~= Seq::<IdView>::empty());
        while i < self.ids.len()
            invariant
                i <= self.ids.len(),
                id_views(out@) == self@.targets_among(i as int),
            decreases self.ids.len() - i,
        {
            let ghost before = id_views(out@);
            assert(self@.subscribed[i as int] == self.ids@[i as int]@);
            if self.admits(&self.ids[i]) {
                out.push(self.ids[i].clone());
                assert(id_views(out@) =~= before.push(self.ids@[i as int]@));
            }
            i += 1;
        }
        out
    }

    /// The metadata of the running acquisitions, in the order in which they
    /// started.
    pub fn watching_infos(&self) -> (r: Vec<Info>)
        ensures
            r@.len() == self@.entries.len(),
            forall|i: int| 0 <= i < r@.len() ==> r@[i] == self@.entries[i].info,
            self@.wf(),
    {
        proof {
            use_type_invariant(self);
        }
        let n = self.watching.len();
        let mut out: Vec<Info> = Vec::new();
        let mut i: usize = 0;
        while i < n
            invariant
                i <= n,
                n == self@.entries.len(),
                out@.len() == i,
                forall|j: int| 0 <= j < i ==> out@[j] == self@.entries[j].info,
            decreases n - i,
        {
            out.push(self.watching.value_at(i).info.clone());
            i += 1;
        }
        out
    }

    /// The metadata of the ended acquisitions, in the order in which they
    /// ended.
    pub fn downloaded_infos(&self) -> (r: Vec<Info>)
        ensures
            r@ == self@.infos,
            self@.wf(),
    {
        proof {
            use_type_invariant(self);
        }
        let n = self.downloaded.len();
        let mut out: Vec<Info> = Vec::new();
        let mut i: usize = 0;
        while i < n
            invariant
                i <= n,
                n == self@.infos.len(),
                out@.len() == i,
                forall|j: int| 0 <= j < i ==> out@[j] == self@.infos[j],
            decreases n - i,
        {
            out.push(self.downloaded.value_at(i).clone());
            i += 1;
        }
        assert(out@ =~= self@.infos);
        out
    }
}

} // verus!
