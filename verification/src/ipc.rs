//! The control channel: read-only queries of the registry.
//!
//! Reading a request from the socket and writing the answer to it, and the
//! coding of both as bytes, are the caller's work. Nothing here changes the
//! registry.
use crate::info::Info;
use crate::quote::debug_quoted;
use crate::quote::debug_spec;
use crate::registry::InnerSub;
use crate::state::State;
use crate::text::concat_str;
use crate::text::decimal;
use crate::text::decimal_spec;
use crate::text::views;
use vstd::prelude::*;
use vstd::string::*;

verus! {

/// A query of the registry.
#[derive(Clone, Copy, Debug, PartialEq, Eq, Structural)]
pub enum IpcRequest {
    /// Which acquisitions are running?
    GetWatching,
    /// Which acquisitions have ended?
    GetDownloaded,
}

/// The answer to a query.
#[derive(Debug)]
pub enum IpcResponse {
    /// The metadata of the running acquisitions.
    Watching(Vec<Info>),
    /// The metadata of the ended acquisitions.
    Downloaded(Vec<Info>),
    /// The query could not be answered, and why.
    Error(String),
}

/// A query as the operator names it on the command line.
#[derive(Clone, Copy, Debug, PartialEq, Eq, Structural)]
pub enum IpcCommand {
    GetWatching,
    GetDownloaded,
}

/// What the client shows of an answer: lines for the standard output, lines
/// for the error output, and the exit code.
#[derive(Debug)]
pub struct Report {
    pub out: Vec<String>,
    pub err: Vec<String>,
    pub exit_code: u8,
}

/// The metadata of the running acquisitions of a registry, in their order.
pub open spec fn watching_spec<H>(state: State<H>) -> Seq<Info> {
    Seq::new(state.entries.len(), |i: int| state.entries[i].info)
}

/// The answer that a registry in `state` gives to `request`.
pub open spec fn answers<H>(state: State<H>, request: IpcRequest, response: IpcResponse) -> bool {
    match request {
        IpcRequest::GetWatching => response matches IpcResponse::Watching(v) && v@
            == watching_spec(state),
        IpcRequest::GetDownloaded => response matches IpcResponse::Downloaded(v) && v@
            == state.infos,
    }
}

/// The line that the client shows for one acquisition, given its title and
/// address in quotes.
pub open spec fn info_line_spec(quoted_title: Seq<char>, uploader: Seq<char>, quoted_url: Seq<char>)
    -> Seq<char> {
    ":: "@ + quoted_title + " - "@ + uploader + " ("@ + quoted_url + ")"@
}

/// The line that the client shows for one acquisition.
pub open spec fn info_line_of(info: Info) -> Seq<char> {
    info_line_spec(debug_spec(info.title@), info.uploader@, debug_spec(info.webpage_url@))
}

/// The heading that the client shows above `n` acquisitions.
pub open spec fn heading_spec(verb: Seq<char>, n: nat) -> Seq<char> {
    verb + " "@ + decimal_spec(n) + " streams"@
}

/// The lines that the client shows for a list of acquisitions: the heading
/// and one line for each.
pub open spec fn listing_spec(verb: Seq<char>, infos: Seq<Info>) -> Seq<Seq<char>> {
    seq![heading_spec(verb, infos.len())] + Seq::new(infos.len(), |i: int| info_line_of(infos[i]))
}

/// Answers `request` from the registry as it stands: the running
/// acquisitions, or the ended ones, each list in the registry's order.
pub fn handle_request<H>(inner: &InnerSub<H>, request: IpcRequest) -> (r: IpcResponse)
    ensures
        answers(inner@, request, r),
{
    match request {
        IpcRequest::GetWatching => {
            let v = inner.watching_infos();
            assert(v@ =~= watching_spec(inner@));
            IpcResponse::Watching(v)
        },
        IpcRequest::GetDownloaded => IpcResponse::Downloaded(inner.downloaded_infos()),
    }
}

/// The answer to what arrived on the channel: to a request that could be
/// decoded, its answer; to anything else, an error that says why it could
/// not be decoded.
pub fn respond<H>(inner: &InnerSub<H>, decoded: Result<IpcRequest, String>) -> (r: IpcResponse)
    ensures
        match decoded {
            Ok(request) => answers(inner@, request, r),
            Err(e) => r matches IpcResponse::Error(m) && m@
                == "Error: failed to parse JSON request: "@ + e@,
        },
{
    match decoded {
        Ok(request) => handle_request(inner, request),
        Err(e) => IpcResponse::Error(concat_str("Error: failed to parse JSON request: ", e.as_str())),
    }
}

/// The answer sent in place of one that could not be encoded.
pub fn encode_failure(e: &str) -> (r: IpcResponse)
    ensures
        r matches IpcResponse::Error(m) && m@ == "Error: failed to serialize response: "@ + e@,
{
    IpcResponse::Error(concat_str("Error: failed to serialize response: ", e))
}

/// The request that a command of the operator stands for.
pub fn request_for(command: IpcCommand) -> (r: IpcRequest)
    ensures
        r == match command {
            IpcCommand::GetWatching => IpcRequest::GetWatching,
            IpcCommand::GetDownloaded => IpcRequest::GetDownloaded,
        },
{
    match command {
        IpcCommand::GetWatching => IpcRequest::GetWatching,
        IpcCommand::GetDownloaded => IpcRequest::GetDownloaded,
    }
}

/// The line that the client shows for one acquisition, given its title and
/// address in quotes.
pub fn info_line_from(quoted_title: &str, uploader: &str, quoted_url: &str) -> (r: String)
    ensures
        r@ == info_line_spec(quoted_title@, uploader@, quoted_url@),
{
    let mut r = concat_str(":: ", quoted_title);
    r.append(" - ");
    r.append(uploader);
    r.append(" (");
    r.append(quoted_url);
    r.append(")");
    r
}

/// The line that the client shows for one acquisition: its title in
/// quotes, its uploader, and its address in quotes.
pub fn info_line(info: &Info) -> (r: String)
    ensures
        r@ == info_line_of(*info),
{
    let title = debug_quoted(info.title.as_str());
    let url = debug_quoted(info.webpage_url.as_str());
    info_line_from(title.as_str(), info.uploader.as_str(), url.as_str())
}

/// The lines that the client shows for a list of acquisitions.
pub fn listing(verb: &str, infos: &Vec<Info>) -> (r: Vec<String>)
    ensures
        views(r@) == listing_spec(verb@, infos@),
{
    let mut heading = concat_str(verb, " ");
    let count = decimal(infos.len() as u64);
    heading.append(count.as_str());
    heading.append(" streams");
    let mut out: Vec<String> = Vec::new();
    out.push(heading);
    let mut i: usize = 0;
    while i < infos.len()
        invariant
            i <= infos.len(),
            out@.len() == i + 1,
            out@[0]@ == heading_spec(verb@, infos@.len()),
            forall|j: int| 0 <= j < i ==> out@[j + 1]@ == info_line_of(infos@[j]),
        decreases infos.len() - i,
    {
        out.push(info_line(&infos[i]));
        i += 1;
    }
    assert(views(out@) =~= listing_spec(verb@, infos@));
    out
}

/// What the client shows of an answer. A list is shown on the standard
/// output and the client ends well; an error is shown on the error output
/// and the client ends with exit code 1.
pub fn render(response: &IpcResponse) -> (r: Report)
    ensures
        match *response {
            IpcResponse::Watching(v) => {
                &&& views(r.out@) == listing_spec("Watching"@, v@)
                &&& r.err@.len() == 0
                &&& r.exit_code == 0
            },
            IpcResponse::Downloaded(v) => {
                &&& views(r.out@) == listing_spec("Downloaded"@, v@)
                &&& r.err@.len() == 0
                &&& r.exit_code == 0
            },
            IpcResponse::Error(e) => {
                &&& r.out@.len() == 0
                &&& views(r.err@) == seq![e@]
                &&& r.exit_code == 1
            },
        },
{
    match response {
        IpcResponse::Watching(v) => Report {
            out: listing("Watching", v),
            err: Vec::new(),
            exit_code: 0,
        },
        IpcResponse::Downloaded(v) => Report {
            out: listing("Downloaded", v),
            err: Vec::new(),
            exit_code: 0,
        },
        IpcResponse::Error(e) => {
            let mut err: Vec<String> = Vec::new();
            err.push(e.clone());
            assert(views(err@) =~= seq![e@]);
            Report { out: Vec::new(), err, exit_code: 1 }
        },
    }
}

} // verus!
