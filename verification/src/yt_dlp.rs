//! The options handed to the acquisition executor and the command line that
//! they stand for.
use vstd::prelude::*;
use vstd::string::*;

use crate::text::decimal;
use crate::text::decimal_spec;
use crate::text::opt_str_view;
use crate::text::opt_view;
use crate::text::views;

verus! {

/// Options of the acquisition executor. Each is passed through verbatim.
#[derive(Debug)]
pub struct YtDlp {
    pub live_from_start: bool,
    pub embed_metadata: bool,
    pub embed_thumbnail: bool,
    pub no_progress: bool,
    pub concurrent_fragments: Option<u8>,
    pub playlist_items: Option<u64>,
    pub remux_video: Option<String>,
    pub cookies_from_browser: Option<String>,
}

/// A switch on the command line: its name where it is on, nothing where it
/// is off.
pub open spec fn flag_spec(on: bool, name: Seq<char>) -> Seq<Seq<char>> {
    if on {
        seq![name]
    } else {
        seq![]
    }
}

/// An option with a value on the command line: its name and the value where
/// it is set, nothing where it is not.
pub open spec fn valued_spec(value: Option<Seq<char>>, name: Seq<char>) -> Seq<Seq<char>> {
    match value {
        Some(v) => seq![name, v],
        None => seq![],
    }
}

/// The decimal numeral of an optional number.
pub open spec fn opt_decimal(n: Option<nat>) -> Option<Seq<char>> {
    match n {
        Some(n) => Some(decimal_spec(n)),
        None => None,
    }
}

/// An optional `u8` as an optional natural number.
pub open spec fn opt_u8(n: Option<u8>) -> Option<nat> {
    match n {
        Some(n) => Some(n as nat),
        None => None,
    }
}

/// An optional `u64` as an optional natural number.
pub open spec fn opt_u64(n: Option<u64>) -> Option<nat> {
    match n {
        Some(n) => Some(n as nat),
        None => None,
    }
}

/// Appends a copy of `s` to `args`.
pub fn push_arg(args: &mut Vec<String>, s: &str)
    ensures
        views(final(args)@) == views(old(args)@).push(s@),
        final(args)@.len() == old(args)@.len() + 1,
{
    args.push(s.to_owned());
    assert(views(args@) =~= views(old(args)@).push(s@));
}

/// Appends the switch `name` to `args` where it is on.
fn push_flag(args: &mut Vec<String>, on: bool, name: &str)
    ensures
        views(final(args)@) == views(old(args)@) + flag_spec(on, name@),
{
    if on {
        push_arg(args, name);
    }
    assert(views(args@) =~= views(old(args)@) + flag_spec(on, name@));
}

/// Appends the option `name` and its value to `args` where it is set.
fn push_valued(args: &mut Vec<String>, value: &Option<String>, name: &str)
    ensures
        views(final(args)@) == views(old(args)@) + valued_spec(opt_view(*value), name@),
{
    if let Some(v) = value {
        push_arg(args, name);
        push_arg(args, v.as_str());
    }
    assert(views(args@) =~= views(old(args)@) + valued_spec(opt_view(*value), name@));
}

fn owned(o: Option<&str>) -> (r: Option<String>)
    ensures
        opt_view(r) == opt_str_view(o),
{
    match o {
        Some(s) => Some(s.to_owned()),
        None => None,
    }
}

impl Default for YtDlp {
    /// Metadata and thumbnail are embedded and the executor's own progress
    /// output is off; nothing else is set.
    fn default() -> (r: Self)
        ensures
            !r.live_from_start,
            r.embed_metadata,
            r.embed_thumbnail,
            r.no_progress,
            r.concurrent_fragments is None,
            r.playlist_items is None,
            r.remux_video is None,
            r.cookies_from_browser is None,
    {
        YtDlp {
            live_from_start: false,
            embed_metadata: true,
            embed_thumbnail: true,
            no_progress: true,
            concurrent_fragments: None,
            cookies_from_browser: None,
            remux_video: None,
            playlist_items: None,
        }
    }
}

impl Clone for YtDlp {
    fn clone(&self) -> (r: Self)
        ensures
            r == *self,
    {
        YtDlp {
            live_from_start: self.live_from_start,
            embed_metadata: self.embed_metadata,
            embed_thumbnail: self.embed_thumbnail,
            no_progress: self.no_progress,
            concurrent_fragments: self.concurrent_fragments,
            playlist_items: self.playlist_items,
            remux_video: match &self.remux_video {
                Some(s) => Some(s.clone()),
                None => None,
            },
            cookies_from_browser: match &self.cookies_from_browser {
                Some(s) => Some(s.clone()),
                None => None,
            },
        }
    }
}

impl YtDlp {
    /// The command line that these options stand for: the switches that are
    /// on, then the options that are set, each followed by its value, in a
    /// fixed order.
    pub open spec fn args_spec(&self) -> Seq<Seq<char>> {
        flag_spec(self.live_from_start, "--live-from-start"@) + flag_spec(
            self.embed_metadata,
            "--embed-metadata"@,
        ) + flag_spec(self.embed_thumbnail, "--embed-thumbnail"@) + flag_spec(
            self.no_progress,
            "--no-progress"@,
        ) + valued_spec(opt_decimal(opt_u8(self.concurrent_fragments)), "--concurrent-fragments"@)
            + valued_spec(opt_decimal(opt_u64(self.playlist_items)), "--playlist-items"@)
            + valued_spec(opt_view(self.cookies_from_browser), "--cookies-from-browser"@)
            + valued_spec(opt_view(self.remux_video), "--remux-video"@)
    }

    /// Sets the number of fragments fetched at once.
    pub fn concurrent_fragments(&mut self, n: Option<u8>) -> (r: &mut Self)
        ensures
            *r == (YtDlp { concurrent_fragments: n, ..*old(self) }),
            *final(self) == *final(r),
    {
        self.concurrent_fragments = n;
        self
    }

    /// Sets which item of a playlist is taken.
    pub fn playlist_items(&mut self, n: Option<u64>) -> (r: &mut Self)
        ensures
            *r == (YtDlp { playlist_items: n, ..*old(self) }),
            *final(self) == *final(r),
    {
        self.playlist_items = n;
        self
    }

    /// Sets the browser whose cookies the executor uses.
    pub fn cookies_from_browser(&mut self, browser: Option<&str>) -> (r: &mut Self)
        ensures
            opt_view(r.cookies_from_browser) == opt_str_view(browser),
            *r == (YtDlp { cookies_from_browser: r.cookies_from_browser, ..*old(self) }),
            *final(self) == *final(r),
    {
        self.cookies_from_browser = owned(browser);
        self
    }

    /// Sets whether a live stream is taken from its start.
    pub fn live_from_start(&mut self, enabled: bool) -> (r: &mut Self)
        ensures
            *r == (YtDlp { live_from_start: enabled, ..*old(self) }),
            *final(self) == *final(r),
    {
        self.live_from_start = enabled;
        self
    }

    /// Sets whether metadata is embedded in the output.
    pub fn embed_metadata(&mut self, enabled: bool) -> (r: &mut Self)
        ensures
            *r == (YtDlp { embed_metadata: enabled, ..*old(self) }),
            *final(self) == *final(r),
    {
        self.embed_metadata = enabled;
        self
    }

    /// Sets whether the thumbnail is embedded in the output.
    pub fn embed_thumbnail(&mut self, enabled: bool) -> (r: &mut Self)
        ensures
            *r == (YtDlp { embed_thumbnail: enabled, ..*old(self) }),
            *final(self) == *final(r),
    {
        self.embed_thumbnail = enabled;
        self
    }

    /// Sets whether the executor's own progress output is off.
    pub fn no_progress(&mut self, no_progress: bool) -> (r: &mut Self)
        ensures
            *r == (YtDlp { no_progress: no_progress, ..*old(self) }),
            *final(self) == *final(r),
    {
        self.no_progress = no_progress;
        self
    }

    /// Sets the container format into which the output is remuxed.
    pub fn remux_video(&mut self, format: Option<&str>) -> (r: &mut Self)
        ensures
            opt_view(r.remux_video) == opt_str_view(format),
            *r == (YtDlp { remux_video: r.remux_video, ..*old(self) }),
            *final(self) == *final(r),
    {
        self.remux_video = owned(format);
        self
    }

    /// The command line arguments for these options.
    pub fn args(&self) -> (r: Vec<String>)
        ensures
            views(r@) == self.args_spec(),
    {
        let mut args: Vec<String> = Vec::new();
        assert(views(args@) =~= Seq::<Seq<char>>::empty());
        push_flag(&mut args, self.live_from_start, "--live-from-start");
        assert(views(args@) =~= flag_spec(self.live_from_start, "--live-from-start"@));
        push_flag(&mut args, self.embed_metadata, "--embed-metadata");
        push_flag(&mut args, self.embed_thumbnail, "--embed-thumbnail");
        push_flag(&mut args, self.no_progress, "--no-progress");
        let fragments = match self.concurrent_fragments {
            Some(n) => Some(decimal(n as u64)),
            None => None,
        };
        push_valued(&mut args, &fragments, "--concurrent-fragments");
        let items = match self.playlist_items {
            Some(n) => Some(decimal(n)),
            None => None,
        };
        push_valued(&mut args, &items, "--playlist-items");
        push_valued(&mut args, &self.cookies_from_browser, "--cookies-from-browser");
        push_valued(&mut args, &self.remux_video, "--remux-video");
        args
    }
}

} // verus!
