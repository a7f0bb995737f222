//! The boundary to the acquisition executor: the addresses and command
//! lines handed to it, and the reading of what it prints.
//!
//! Running the executor is the caller's work. A command line here is the
//! list of arguments behind the program's name.
use crate::id::Id;
use crate::id::IdView;
use crate::id::Provider;
use crate::text::concat_str;
use crate::text::contains;
use crate::text::contains_spec;
use crate::text::trim;
use crate::text::trim_spec;
use crate::yt_dlp::push_arg;
use crate::text::views;
use crate::yt_dlp::YtDlp;
use vstd::prelude::*;
use vstd::string::*;

verus! {

/// The address of the YouTube video `id`.
pub open spec fn yt_url_spec(id: Seq<char>) -> Seq<char> {
    "https://www.youtube.com/watch?v="@ + id
}

/// The address of the Twitch channel `id`.
pub open spec fn twitch_url_spec(id: Seq<char>) -> Seq<char> {
    "https://www.twitch.tv/"@ + id
}

/// The address under which the YouTube channel `id` shows its live stream.
pub open spec fn live_url_spec(id: Seq<char>) -> Seq<char> {
    "https://www.youtube.com/"@ + id + "/live"@
}

/// The address from which `id` is acquired.
pub open spec fn url_spec(id: IdView) -> Seq<char> {
    match id.provider {
        Provider::YouTube => yt_url_spec(id.key),
        Provider::Twitch => twitch_url_spec(id.key),
    }
}

/// The address of the YouTube video `id`.
pub fn yt_url(id: &str) -> (r: String)
    ensures
        r@ == yt_url_spec(id@),
{
    concat_str("https://www.youtube.com/watch?v=", id)
}

/// The address of the Twitch channel `id`.
pub fn twitch_url(id: &str) -> (r: String)
    ensures
        r@ == twitch_url_spec(id@),
{
    concat_str("https://www.twitch.tv/", id)
}

/// The address under which the YouTube channel `id` shows its live stream.
pub fn live_url(id: &str) -> (r: String)
    ensures
        r@ == live_url_spec(id@),
{
    let mut r = concat_str("https://www.youtube.com/", id);
    r.append("/live");
    r
}

/// The address from which `id` is acquired.
pub fn url(id: &Id) -> (r: String)
    ensures
        r@ == url_spec(id@),
{
    match id {
        Id::Yt { yt_id } => yt_url(yt_id.as_str()),
        Id::Twitch { twitch_id } => twitch_url(twitch_id.as_str()),
    }
}

/// The command line of a metadata fetch: the options, `-J`, the address.
pub fn info_args(yt_dlp: &YtDlp, url: &str) -> (r: Vec<String>)
    ensures
        views(r@) == yt_dlp.args_spec() + seq!["-J"@, url@],
{
    let mut args = yt_dlp.args();
    let ghost base = views(args@);
    push_arg(&mut args, "-J");
    push_arg(&mut args, url);
    assert(views(args@) =~= base + seq!["-J"@, url@]);
    args
}

/// The command line of the liveness probe of the YouTube channel `id`: a
/// metadata fetch of the address under which the channel shows its live
/// stream.
pub fn live_info_args(yt_dlp: &YtDlp, id: &str) -> (r: Vec<String>)
    ensures
        views(r@) == yt_dlp.args_spec() + seq!["-J"@, live_url_spec(id@)],
{
    let url = live_url(id);
    info_args(yt_dlp, url.as_str())
}

/// The command line of the liveness probe of the Twitch channel `id`: a
/// quiet run that only simulates.
pub fn twitch_is_live_args(yt_dlp: &YtDlp, id: &str) -> (r: Vec<String>)
    ensures
        views(r@) == yt_dlp.args_spec() + seq![twitch_url_spec(id@), "--quiet"@, "--simulate"@],
{
    let url = twitch_url(id);
    let mut args = yt_dlp.args();
    let ghost base = views(args@);
    push_arg(&mut args, url.as_str());
    push_arg(&mut args, "--quiet");
    push_arg(&mut args, "--simulate");
    assert(views(args@) =~= base + seq![twitch_url_spec(id@), "--quiet"@, "--simulate"@]);
    args
}

/// The command line that asks for the name of the output file.
pub fn filename_args(yt_dlp: &YtDlp, url: &str) -> (r: Vec<String>)
    ensures
        views(r@) == yt_dlp.args_spec() + seq![url@, "--print"@, "_filename"@],
{
    let mut args = yt_dlp.args();
    let ghost base = views(args@);
    push_arg(&mut args, url);
    push_arg(&mut args, "--print");
    push_arg(&mut args, "_filename");
    assert(views(args@) =~= base + seq![url@, "--print"@, "_filename"@]);
    args
}

/// The command line of a download into the file `output`, with the
/// metadata written beside it.
pub fn download_args(yt_dlp: &YtDlp, url: &str, output: &str) -> (r: Vec<String>)
    ensures
        views(r@) == yt_dlp.args_spec() + seq![
            url@,
            "--output"@,
            output@,
            "--write-info-json"@,
        ],
{
    let mut args = yt_dlp.args();
    let ghost base = views(args@);
    push_arg(&mut args, url);
    push_arg(&mut args, "--output");
    push_arg(&mut args, output);
    push_arg(&mut args, "--write-info-json");
    assert(views(args@) =~= base + seq![url@, "--output"@, output@, "--write-info-json"@]);
    args
}

/// What the executor printed in answer to a liveness probe of a YouTube
/// channel, ready to be decoded: the output without the whitespace round
/// it. A run that failed, or that printed nothing, says that the channel is
/// not live in this cycle.
pub fn live_info(succeeded: bool, stdout: &str) -> (r: Option<&str>)
    ensures
        match r {
            Some(payload) => succeeded && payload@ == trim_spec(stdout@) && payload@.len() > 0,
            None => !succeeded || trim_spec(stdout@).len() == 0,
        },
{
    if !succeeded {
        return None;
    }
    let payload = trim(stdout);
    if payload.unicode_len() == 0 {
        None
    } else {
        Some(payload)
    }
}

/// Whether a Twitch channel is live, given whether the simulated run of the
/// executor succeeded and what it wrote to its error stream (`None` where
/// it could not be run or wrote no text). The channel is live where the run
/// succeeded and the executor does not say that the channel is not live;
/// any failure of the probe counts as not live in this cycle.
pub fn twitch_is_live(succeeded: bool, stderr: Option<&str>) -> (r: bool)
    ensures
        r == (succeeded && stderr is Some && !contains_spec(
            stderr->0@,
            "The channel is not currently live"@,
        )),
{
    match stderr {
        Some(text) => succeeded && !contains(text, "The channel is not currently live"),
        None => false,
    }
}

} // verus!
