//! The configuration of the daemon and its reload.
//!
//! Reading and writing the configuration file, and entering a directory,
//! are the caller's work. A reload is all or nothing: a configuration that
//! could not be loaded, or whose output directory could not be entered,
//! changes nothing.
use crate::id::parse_spec;
use crate::id::Id;
use crate::id::InvalidId;
use crate::quote::debug_quoted;
use crate::quote::debug_spec;
use crate::registry::dedup_ids;
use crate::registry::id_views;
use crate::registry::InnerSub;
use crate::text::concat_str;
use crate::text::opt_view;
use crate::state::distinct;
use crate::text::views;
use vstd::prelude::*;
use vstd::string::*;

verus! {

/// The configuration: the directory in which the outputs are to stand, if
/// one is set, and the set of subscribed identifiers, which holds none
/// twice.
#[derive(Debug)]
pub struct Config {
    dir: Option<String>,
    ids: Vec<Id>,
}

/// What came of a reload.
#[derive(Debug)]
pub enum Reload {
    /// The new configuration is in force. Where it names another output
    /// directory than the one before, `chdir` is that directory, which the
    /// process has entered.
    Applied { chdir: Option<String> },
    /// The configuration could not be loaded, or its output directory could
    /// not be entered, and the one before stays in force; the message says
    /// why.
    Retained { message: String },
}

/// The directory to enter for a reload: the new one, where one is set and
/// it is not the one before.
pub open spec fn chdir_spec(before: Option<Seq<char>>, after: Option<Seq<char>>) -> Option<
    Seq<char>,
> {
    if after is Some && after != before {
        after
    } else {
        None
    }
}

impl Default for Config {
    /// No output directory and nothing subscribed.
    fn default() -> (r: Self)
        ensures
            r.dir_view() is None,
            r.ids_view().len() == 0,
    {
        let ids: Vec<Id> = Vec::new();
        assert(id_views(ids@) =~= Seq::<crate::id::IdView>::empty());
        Config { dir: None, ids }
    }
}

/// Whether two optional texts are the same.
fn same_dir(a: &Option<String>, b: &Option<String>) -> (r: bool)
    ensures
        r == (opt_view(*a) == opt_view(*b)),
{
    match a {
        Some(x) => match b {
            Some(y) => *x == *y,
            None => false,
        },
        None => b.is_none(),
    }
}

/// The identifiers that the texts of a list name, where each names one.
pub open spec fn all_parsed(texts: Seq<Seq<char>>) -> Option<Seq<crate::id::IdView>>
    decreases texts.len(),
{
    if texts.len() == 0 {
        Some(Seq::empty())
    } else {
        match (all_parsed(texts.drop_last()), parse_spec(texts.last())) {
            (Some(ids), Some(id)) => Some(ids.push(id)),
            _ => None,
        }
    }
}

/// The first text of a list that names no identifier, if there is one.
pub open spec fn first_invalid(texts: Seq<Seq<char>>) -> Option<Seq<char>>
    decreases texts.len(),
{
    if texts.len() == 0 {
        None
    } else {
        match first_invalid(texts.drop_last()) {
            Some(t) => Some(t),
            None => if parse_spec(texts.last()) is None {
                Some(texts.last())
            } else {
                None
            },
        }
    }
}

impl Config {
    /// The output directory, if one is set.
    pub closed spec fn dir_view(&self) -> Option<Seq<char>> {
        opt_view(self.dir)
    }

    /// The subscribed identifiers, in their order.
    pub closed spec fn ids_view(&self) -> Seq<crate::id::IdView> {
        id_views(self.ids@)
    }

    /// No identifier is subscribed twice.
    #[verifier::type_invariant]
    pub closed spec fn inv(&self) -> bool {
        self.ids_view().no_duplicates()
    }

    /// The configuration with the output directory `dir` and the
    /// identifiers `ids`, each taken once, in the order in which they first
    /// occur.
    pub fn new(dir: Option<String>, ids: Vec<Id>) -> (r: Config)
        ensures
            r.dir_view() == opt_view(dir),
            r.ids_view() == distinct(id_views(ids@)),
            r.ids_view().no_duplicates(),
    {
        proof {
            crate::state::lemma_distinct(id_views(ids@));
        }
        Config { dir, ids: dedup_ids(ids) }
    }

    /// The output directory, if one is set.
    pub fn dir(&self) -> (r: Option<String>)
        ensures
            opt_view(r) == self.dir_view(),
    {
        match &self.dir {
            Some(d) => Some(d.clone()),
            None => None,
        }
    }

    /// The subscribed identifiers, none of them twice.
    pub fn ids(&self) -> (r: Vec<Id>)
        ensures
            id_views(r@) == self.ids_view(),
            id_views(r@).no_duplicates(),
    {
        proof {
            use_type_invariant(self);
        }
        let mut out: Vec<Id> = Vec::new();
        let mut i: usize = 0;
        while i < self.ids.len()
            invariant
                i <= self.ids.len(),
                out@.len() == i,
                forall|j: int| 0 <= j < i ==> out@[j] == self.ids@[j],
            decreases self.ids.len() - i,
        {
            out.push(self.ids[i].clone());
            i += 1;
        }
        assert(id_views(out@) =~= id_views(self.ids@));
        out
    }

    /// The configuration with the output directory `dir` and the
    /// identifiers that `ids` are the canonical texts of, each once, in the
    /// order in which they first occur. Where a text names no identifier,
    /// the first such text comes back in the error.
    pub fn from_parts(dir: Option<String>, ids: &Vec<String>) -> (r: Result<Config, InvalidId>)
        ensures
            match r {
                Ok(c) => {
                    &&& c.dir_view() == opt_view(dir)
                    &&& all_parsed(views(ids@)) is Some
                    &&& c.ids_view() == distinct(all_parsed(views(ids@))->0)
                    &&& c.ids_view().no_duplicates()
                    &&& first_invalid(views(ids@)) is None
                },
                Err(e) => all_parsed(views(ids@)) is None && first_invalid(views(ids@)) == Some(
                    e.input@,
                ),
            },
    {
        let ghost texts = views(ids@);
        let mut out: Vec<Id> = Vec::new();
        let mut i: usize = 0;
        proof {
            assert(texts.take(0) =~= Seq::<Seq<char>>::empty());
            assert(id_views(out@) =~= Seq::<crate::id::IdView>::empty());
        }
        while i < ids.len()
            invariant
                i <= ids.len(),
                texts == views(ids@),
                all_parsed(texts.take(i as int)) == Some(id_views(out@)),
                first_invalid(texts.take(i as int)) is None,
            decreases ids.len() - i,
        {
            let ghost before = id_views(out@);
            proof {
                assert(texts.take(i + 1).drop_last() =~= texts.take(i as int));
                assert(texts.take(i + 1).last() == ids@[i as int]@);
            }
            match Id::from_str(ids[i].as_str()) {
                Ok(id) => {
                    let ghost k = id@;
                    out.push(id);
                    assert(id_views(out@) =~= before.push(k));
                },
                Err(e) => {
                    proof {
                        lemma_invalid_found(texts, i as int);
                    }
                    return Err(e);
                },
            }
            i += 1;
        }
        assert(texts.take(ids.len() as int) =~= texts);
        Ok(Config::new(dir, out))
    }

    /// The canonical texts of the identifiers, in their order.
    pub fn id_strings(&self) -> (r: Vec<String>)
        ensures
            r@.len() == self.ids_view().len(),
            forall|i: int| 0 <= i < r@.len() ==> r@[i]@ == crate::id::format_spec(self.ids_view()[i]),
    {
        let mut out: Vec<String> = Vec::new();
        let mut i: usize = 0;
        while i < self.ids.len()
            invariant
                i <= self.ids.len(),
                out@.len() == i,
                forall|j: int| 0 <= j < i ==> out@[j]@ == crate::id::format_spec(self.ids@[j]@),
            decreases self.ids.len() - i,
        {
            out.push(self.ids[i].to_string());
            i += 1;
        }
        out
    }
}

/// Where the first `i` texts of a list all name identifiers and the next
/// one names none, that one is the first invalid text of the list, and the
/// list as a whole names no list of identifiers.
pub proof fn lemma_invalid_found(texts: Seq<Seq<char>>, i: int)
    requires
        0 <= i < texts.len(),
        first_invalid(texts.take(i)) is None,
        parse_spec(texts[i]) is None,
    ensures
        first_invalid(texts) == Some(texts[i]),
        all_parsed(texts) is None,
    decreases texts.len() - i,
{
    assert(texts.take(i + 1).drop_last() =~= texts.take(i));
    assert(texts.take(i + 1).last() == texts[i]);
    lemma_invalid_stays(texts, i + 1);
}

/// What is invalid in the first `n` texts of a list is invalid in the
/// list.
pub proof fn lemma_invalid_stays(texts: Seq<Seq<char>>, n: int)
    requires
        0 <= n <= texts.len(),
        first_invalid(texts.take(n)) is Some,
        all_parsed(texts.take(n)) is None,
    ensures
        first_invalid(texts) == first_invalid(texts.take(n)),
        all_parsed(texts) is None,
    decreases texts.len() - n,
{
    if n == texts.len() {
        assert(texts.take(n) =~= texts);
    } else {
        assert(texts.take(n + 1).drop_last() =~= texts.take(n));
        lemma_invalid_stays(texts, n + 1);
    }
}

/// The directory in which the outputs are to stand when the daemon starts:
/// the configured one, or else the user's video directory.
pub fn working_dir(configured: Option<String>, video_dir: Option<String>) -> (r: Option<String>)
    ensures
        r == if configured is Some {
            configured
        } else {
            video_dir
        },
{
    match configured {
        Some(dir) => Some(dir),
        None => video_dir,
    }
}

/// The report of a reload that failed for `reason`.
pub open spec fn retained_spec(reason: Seq<char>) -> Seq<char> {
    "Failed to reload config (retaining previous config): "@ + reason
}

/// Why a directory could not be entered, given the directory in quotes and
/// the error.
pub open spec fn enter_failure_spec(quoted_dir: Seq<char>, error: Seq<char>) -> Seq<char> {
    quoted_dir + ": "@ + error
}

/// What a reload comes to, given the output directory in force, what
/// loading gave and what entering the new directory gave: the loaded
/// configuration where loading succeeded and no directory had to be entered
/// or it was entered; else the reason for which nothing changes.
pub open spec fn reload_spec(
    before: Option<Seq<char>>,
    loaded: Result<Config, String>,
    entered: Result<(), String>,
) -> Result<Config, Seq<char>> {
    match loaded {
        Err(e) => Err(e@),
        Ok(c) => match (chdir_spec(before, c.dir_view()), entered) {
            (Some(dir), Err(e)) => Err(enter_failure_spec(debug_spec(dir), e@)),
            _ => Ok(c),
        },
    }
}

/// The directory that the process has to enter before `loaded` can come
/// into force in place of `current`: the output directory of `loaded`,
/// where it names one and `current` names another or none.
pub fn dir_to_enter(current: &Config, loaded: &Config) -> (r: Option<String>)
    ensures
        opt_view(r) == chdir_spec(current.dir_view(), loaded.dir_view()),
{
    if loaded.dir.is_some() && !same_dir(&loaded.dir, &current.dir) {
        match &loaded.dir {
            Some(d) => Some(d.clone()),
            None => None,
        }
    } else {
        None
    }
}

/// Why a directory could not be entered, given the directory in quotes and
/// the error.
pub fn enter_failure_from(quoted_dir: &str, error: &str) -> (r: String)
    ensures
        r@ == enter_failure_spec(quoted_dir@, error@),
{
    let mut r = concat_str(quoted_dir, ": ");
    r.append(error);
    r
}

/// Takes the outcome of loading the configuration anew and of entering the
/// directory that [`dir_to_enter`] named for it (`entered` is looked at only
/// where it named one). Where the configuration was loaded and its
/// directory, if it has a new one, was entered, the configuration replaces
/// the one in force and its identifiers replace the subscribed set. Where
/// either failed, neither the configuration nor the registry changes, and
/// the message says why.
pub fn reload<H>(
    inner: &mut InnerSub<H>,
    config: &mut Config,
    loaded: Result<Config, String>,
    entered: Result<(), String>,
) -> (r: Reload)
    ensures
        match reload_spec(old(config).dir_view(), loaded, entered) {
            Ok(c) => {
                &&& *final(config) == c
                &&& final(inner)@ == old(inner)@.subscribe(c.ids_view())
                &&& final(inner)@.subscribed == c.ids_view()
                &&& r matches Reload::Applied { chdir } && opt_view(chdir) == chdir_spec(
                    old(config).dir_view(),
                    c.dir_view(),
                )
            },
            Err(reason) => {
                &&& *final(config) == *old(config)
                &&& final(inner)@ == old(inner)@
                &&& r matches Reload::Retained { message } && message@ == retained_spec(reason)
            },
        },
{
    match loaded {
        Ok(c) => {
            let chdir = dir_to_enter(config, &c);
            match (&chdir, entered) {
                (Some(dir), Err(e)) => {
                    let quoted = debug_quoted(dir.as_str());
                    let reason = enter_failure_from(quoted.as_str(), e.as_str());
                    return Reload::Retained {
                        message: concat_str(
                            "Failed to reload config (retaining previous config): ",
                            reason.as_str(),
                        ),
                    };
                },
                _ => {},
            }
            let mut ids: Vec<Id> = Vec::new();
            let mut i: usize = 0;
            while i < c.ids.len()
                invariant
                    i <= c.ids.len(),
                    ids@.len() == i,
                    forall|j: int| 0 <= j < i ==> ids@[j] == c.ids@[j],
                decreases c.ids.len() - i,
            {
                ids.push(c.ids[i].clone());
                i += 1;
            }
            assert(ids@ =~= c.ids@);
            proof {
                use_type_invariant(&c);
                crate::state::lemma_distinct(c.ids_view());
            }
            inner.set_ids(ids);
            *config = c;
            Reload::Applied { chdir }
        },
        Err(e) => Reload::Retained {
            message: concat_str("Failed to reload config (retaining previous config): ", e.as_str()),
        },
    }
}

} // verus!
