//! Keeping the executor itself up to date.
//!
//! Fetching the list of releases, asking the installed executor for its
//! version and downloading a release are the caller's work; what to do with
//! the answers is decided here.
use crate::path::join;
use crate::path::join_spec;
use crate::paths::name;
use crate::paths::name_spec;
use crate::text::concat_str;
use crate::text::str_eq;
use crate::text::trim;
use crate::text::trim_spec;
use crate::yt_dlp::push_arg;
use crate::text::views;
use crate::yt_dlp::YtDlp;
use vstd::prelude::*;
use vstd::string::*;

verus! {

/// The list of releases holds no release.
#[derive(Clone, Copy, Debug, PartialEq, Eq, Structural)]
pub struct NoTags;

/// What is to be done about the installed executor.
#[derive(Debug)]
pub enum Update {
    /// The installed executor is the latest release.
    UpToDate,
    /// The installed executor is to be removed and the release at `url` put
    /// in its place.
    Replace { url: String },
    /// No executor is installed; the release at `url` is to be installed.
    Install { url: String },
}

/// The address of the release `tag` of the executor.
pub open spec fn release_url_spec(tag: Seq<char>) -> Seq<char> {
    "https://github.com/yt-dlp/yt-dlp/releases/download/"@ + tag + "/yt-dlp_linux"@
}

impl NoTags {
    /// The complaint shown to the operator.
    pub fn message(&self) -> (r: String)
        ensures
            r@ == "yt-dlp has no tags!?"@,
    {
        "yt-dlp has no tags!?".to_owned()
    }
}

impl YtDlp {
    /// The place of the executor under the state directory `state_base`.
    pub fn exe_path(state_base: &str) -> (r: String)
        ensures
            r@ == join_spec(join_spec(state_base@, name_spec()), "yt_dlp"@),
    {
        let state_dir = join(state_base, name());
        join(state_dir.as_str(), "yt_dlp")
    }

    /// The command that runs the executor at `exe_path` without arguments:
    /// the program alone.
    pub fn command(exe_path: &str) -> (r: Vec<String>)
        ensures
            views(r@) == seq![exe_path@],
    {
        let mut command: Vec<String> = Vec::new();
        assert(views(command@) =~= Seq::<Seq<char>>::empty());
        push_arg(&mut command, exe_path);
        assert(views(command@) =~= seq![exe_path@]);
        command
    }

    /// The command that runs the executor at `exe_path` with these
    /// options: the program, then the arguments of the options.
    pub fn command_with_args(&self, exe_path: &str) -> (r: Vec<String>)
        ensures
            views(r@) == seq![exe_path@] + self.args_spec(),
    {
        let mut command = Self::command(exe_path);
        let args = self.args();
        let mut i: usize = 0;
        while i < args.len()
            invariant
                i <= args.len(),
                views(args@) == self.args_spec(),
                views(command@) == seq![exe_path@] + views(args@).take(i as int),
            decreases args.len() - i,
        {
            push_arg(&mut command, args[i].as_str());
            assert(views(command@) =~= seq![exe_path@] + views(args@).take(i + 1));
            i += 1;
        }
        assert(views(args@).take(args.len() as int) =~= views(args@));
        command
    }

    /// The address of the list of releases.
    pub fn tags_url() -> (r: &'static str)
        ensures
            r@ == "https://api.github.com/repos/yt-dlp/yt-dlp/tags"@,
    {
        "https://api.github.com/repos/yt-dlp/yt-dlp/tags"
    }

    /// The name under which the daemon asks for releases.
    pub fn user_agent() -> (r: &'static str)
        ensures
            r@ == "VDL via ureq"@,
    {
        "VDL via ureq"
    }

    /// The latest release, given the names of the releases, latest first.
    pub fn get_latest_tag(tags: &Vec<String>) -> (r: Result<String, NoTags>)
        ensures
            match r {
                Ok(tag) => tags@.len() > 0 && tag == tags@[0],
                Err(_) => tags@.len() == 0,
            },
    {
        if tags.len() > 0 {
            Ok(tags[0].clone())
        } else {
            Err(NoTags)
        }
    }

    /// The address of the release `tag`.
    pub fn release_url(tag: &str) -> (r: String)
        ensures
            r@ == release_url_spec(tag@),
    {
        let mut r = concat_str("https://github.com/yt-dlp/yt-dlp/releases/download/", tag);
        r.append("/yt-dlp_linux");
        r
    }

    /// What is to be done about the installed executor, given the version
    /// that it printed (`None` where none is installed) and the latest
    /// release. Whitespace round either does not count.
    pub fn download_latest(installed: Option<&str>, latest: &str) -> (r: Update)
        ensures
            match installed {
                Some(version) => if trim_spec(version@) == trim_spec(latest@) {
                    r is UpToDate
                } else {
                    r matches Update::Replace { url } && url@ == release_url_spec(
                        trim_spec(latest@),
                    )
                },
                None => r matches Update::Install { url } && url@ == release_url_spec(
                    trim_spec(latest@),
                ),
            },
    {
        let latest = trim(latest);
        match installed {
            Some(version) => {
                if str_eq(trim(version), latest) {
                    Update::UpToDate
                } else {
                    Update::Replace { url: Self::release_url(latest) }
                }
            },
            None => Update::Install { url: Self::release_url(latest) },
        }
    }
}

} // verus!
