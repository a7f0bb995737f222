//! Where the daemon keeps its files.
//!
//! The places are made from four base directories that are handed in, so
//! that a caller can put the daemon wherever it likes. [`Paths::discover`]
//! asks the user's environment for the usual ones.
use crate::id::format_spec;
use crate::id::Id;
use crate::path::join;
use crate::path::join_spec;
use crate::text::opt_view;
use vstd::prelude::*;
use vstd::string::*;

verus! {

/// The places of the daemon's files.
#[derive(Debug)]
pub struct Paths {
    /// The directory under which each acquisition has its staging
    /// directory.
    pub cache_dir: String,
    /// The configuration file.
    pub config_path: String,
    /// The directory of the control channel's endpoint.
    pub runtime_dir: String,
    /// The endpoint of the control channel.
    pub socket: String,
    /// The executor.
    pub exe_path: String,
}

/// A base directory that the user's environment does not name.
#[derive(Clone, Copy, Debug, PartialEq, Eq, Structural)]
pub enum StartupError {
    NoCacheDir,
    NoConfigDir,
    NoRuntimeDir,
    NoStateDir,
}

/// The name of the daemon, under which it keeps its files.
pub open spec fn name_spec() -> Seq<char> {
    "vdl"@
}

/// The name of the daemon.
pub fn name() -> (r: &'static str)
    ensures
        r@ == name_spec(),
{
    "vdl"
}

/// The first of the four base directories that is not named, where one is
/// not: the cache directory comes first, then the configuration directory,
/// the runtime directory and the state directory.
pub open spec fn first_missing(
    cache_base: Option<Seq<char>>,
    config_base: Option<Seq<char>>,
    runtime_base: Option<Seq<char>>,
    state_base: Option<Seq<char>>,
) -> Option<StartupError> {
    if cache_base is None {
        Some(StartupError::NoCacheDir)
    } else if config_base is None {
        Some(StartupError::NoConfigDir)
    } else if runtime_base is None {
        Some(StartupError::NoRuntimeDir)
    } else if state_base is None {
        Some(StartupError::NoStateDir)
    } else {
        None
    }
}

/// Whether `r` is what the four base directories give: where all are named,
/// the places under them, each the daemon's own directory under its base or
/// a file in that; else the first that is not named.
pub open spec fn built_from(
    r: Result<Paths, StartupError>,
    cache_base: Option<Seq<char>>,
    config_base: Option<Seq<char>>,
    runtime_base: Option<Seq<char>>,
    state_base: Option<Seq<char>>,
) -> bool {
    match r {
        Ok(p) => {
            &&& first_missing(cache_base, config_base, runtime_base, state_base) is None
            &&& p.cache_dir@ == join_spec(cache_base->0, name_spec())
            &&& p.config_path@ == join_spec(join_spec(config_base->0, name_spec()), "config.toml"@)
            &&& p.runtime_dir@ == join_spec(runtime_base->0, name_spec())
            &&& p.socket@ == join_spec(join_spec(runtime_base->0, name_spec()), "ipc.sock"@)
            &&& p.exe_path@ == join_spec(join_spec(state_base->0, name_spec()), "yt_dlp"@)
        },
        Err(e) => first_missing(cache_base, config_base, runtime_base, state_base) == Some(e),
    }
}

/// Calls `dirs::cache_dir`, which names the user's cache directory as the
/// environment gives it, if it gives one and it is Unicode text. Nothing is
/// claimed of the result.
#[verifier::external_body]
fn user_cache_dir() -> (r: Option<String>) {
    match dirs::cache_dir() {
        Some(p) => p.into_os_string().into_string().ok(),
        None => None,
    }
}

/// Calls `dirs::config_dir`, which names the user's configuration
/// directory as the environment gives it, if it gives one and it is
/// Unicode text. Nothing is claimed of the result.
#[verifier::external_body]
fn user_config_dir() -> (r: Option<String>) {
    match dirs::config_dir() {
        Some(p) => p.into_os_string().into_string().ok(),
        None => None,
    }
}

/// Calls `dirs::runtime_dir`, which names the user's runtime directory as
/// the environment gives it, if it gives one and it is Unicode text. Nothing
/// is claimed of the result.
#[verifier::external_body]
fn user_runtime_dir() -> (r: Option<String>) {
    match dirs::runtime_dir() {
        Some(p) => p.into_os_string().into_string().ok(),
        None => None,
    }
}

/// Calls `dirs::state_dir`, which names the user's state directory as the
/// environment gives it, if it gives one and it is Unicode text. Nothing is
/// claimed of the result.
#[verifier::external_body]
fn user_state_dir() -> (r: Option<String>) {
    match dirs::state_dir() {
        Some(p) => p.into_os_string().into_string().ok(),
        None => None,
    }
}

impl Paths {
    /// The places under the four base directories: each is the daemon's own
    /// directory under its base, or a file in that.
    pub fn new(cache_base: &str, config_base: &str, runtime_base: &str, state_base: &str) -> (r:
        Paths)
        ensures
            r.cache_dir@ == join_spec(cache_base@, name_spec()),
            r.config_path@ == join_spec(join_spec(config_base@, name_spec()), "config.toml"@),
            r.runtime_dir@ == join_spec(runtime_base@, name_spec()),
            r.socket@ == join_spec(join_spec(runtime_base@, name_spec()), "ipc.sock"@),
            r.exe_path@ == join_spec(join_spec(state_base@, name_spec()), "yt_dlp"@),
    {
        let config_dir = join(config_base, name());
        let runtime_dir = join(runtime_base, name());
        let state_dir = join(state_base, name());
        Paths {
            cache_dir: join(cache_base, name()),
            config_path: join(config_dir.as_str(), "config.toml"),
            socket: join(runtime_dir.as_str(), "ipc.sock"),
            runtime_dir,
            exe_path: join(state_dir.as_str(), "yt_dlp"),
        }
    }

    /// The places, given what the user's environment names as the four base
    /// directories: those of [`Paths::new`] where it names them all, else
    /// the first that it does not name.
    pub fn from_bases(
        cache_base: Option<String>,
        config_base: Option<String>,
        runtime_base: Option<String>,
        state_base: Option<String>,
    ) -> (r: Result<Paths, StartupError>)
        ensures
            built_from(
                r,
                opt_view(cache_base),
                opt_view(config_base),
                opt_view(runtime_base),
                opt_view(state_base),
            ),
    {
        let cache = match cache_base {
            Some(d) => d,
            None => {
                return Err(StartupError::NoCacheDir);
            },
        };
        let config = match config_base {
            Some(d) => d,
            None => {
                return Err(StartupError::NoConfigDir);
            },
        };
        let runtime = match runtime_base {
            Some(d) => d,
            None => {
                return Err(StartupError::NoRuntimeDir);
            },
        };
        let state = match state_base {
            Some(d) => d,
            None => {
                return Err(StartupError::NoStateDir);
            },
        };
        Ok(Paths::new(cache.as_str(), config.as_str(), runtime.as_str(), state.as_str()))
    }

    /// The places under the base directories that the user's environment
    /// names. What it names is not known before the call; whatever it is,
    /// the result is that of [`Paths::from_bases`] on it.
    pub fn discover() -> (r: Result<Paths, StartupError>)
        ensures
            exists|
                cache: Option<Seq<char>>,
                config: Option<Seq<char>>,
                runtime: Option<Seq<char>>,
                state: Option<Seq<char>>,
            | #[trigger]
                built_from(r, cache, config, runtime, state),
            r matches Ok(p) ==> p.socket@ == join_spec(p.runtime_dir@, "ipc.sock"@),
    {
        let cache = user_cache_dir();
        let config = user_config_dir();
        let runtime = user_runtime_dir();
        let state = user_state_dir();
        let ghost bases = (opt_view(cache), opt_view(config), opt_view(runtime), opt_view(state));
        let r = Paths::from_bases(cache, config, runtime, state);
        assert(built_from(r, bases.0, bases.1, bases.2, bases.3));
        r
    }

    /// The staging directory of the acquisition of `id`: the directory
    /// named by the identifier's canonical text, under the cache directory.
    pub fn staging_dir(&self, id: &Id) -> (r: String)
        ensures
            r@ == join_spec(self.cache_dir@, format_spec(id@)),
    {
        let name = id.to_string();
        join(self.cache_dir.as_str(), name.as_str())
    }
}

impl StartupError {
    /// The complaint shown to the operator.
    pub fn message(&self) -> (r: String)
        ensures
            r@ == match *self {
                StartupError::NoCacheDir => "cache dir"@,
                StartupError::NoConfigDir => "config dir"@,
                StartupError::NoRuntimeDir => "User runtime dir"@,
                StartupError::NoStateDir => "state dir"@,
            },
    {
        match self {
            StartupError::NoCacheDir => "cache dir".to_owned(),
            StartupError::NoConfigDir => "config dir".to_owned(),
            StartupError::NoRuntimeDir => "User runtime dir".to_owned(),
            StartupError::NoStateDir => "state dir".to_owned(),
        }
    }
}

} // verus!
