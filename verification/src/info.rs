//! What the acquisition executor reports of a channel or video.
use crate::id::Id;
use crate::id::IdView;
use crate::id::Provider;
use vstd::prelude::*;

verus! {

/// The metadata of a video as known when its acquisition starts. Any field
/// may be empty where the executor could not tell.
#[derive(Debug)]
pub struct Info {
    pub id: String,
    pub title: String,
    pub uploader: String,
    pub webpage_url: String,
}

/// The executor's answer to a liveness probe of a YouTube channel: the video
/// that the channel shows, and whether it is or was live.
#[derive(Debug)]
pub struct YtLiveInfo {
    pub id: String,
    pub title: String,
    pub is_live: bool,
    pub was_live: bool,
    pub webpage_url: String,
    pub uploader: String,
}

/// The outcome of one liveness probe. A probe that failed counts as an
/// answer that nothing is live.
#[derive(Debug)]
pub enum Probe {
    /// A YouTube channel was asked; `None` where the executor said nothing.
    Yt(Option<YtLiveInfo>),
    /// A Twitch channel was asked, with the answer whether it is live.
    Twitch(bool),
}

impl Clone for Info {
    fn clone(&self) -> (r: Self)
        ensures
            r == *self,
    {
        Info {
            id: self.id.clone(),
            title: self.title.clone(),
            uploader: self.uploader.clone(),
            webpage_url: self.webpage_url.clone(),
        }
    }
}

impl Clone for YtLiveInfo {
    fn clone(&self) -> (r: Self)
        ensures
            r == *self,
    {
        YtLiveInfo {
            id: self.id.clone(),
            title: self.title.clone(),
            is_live: self.is_live,
            was_live: self.was_live,
            webpage_url: self.webpage_url.clone(),
            uploader: self.uploader.clone(),
        }
    }
}

impl Info {
    /// The metadata of an acquisition of which only the identifier is
    /// known: its key, and nothing else.
    pub fn unknown(id: &Id) -> (r: Info)
        ensures
            r.id@ == id@.key,
            r.title@ == Seq::<char>::empty(),
            r.uploader@ == Seq::<char>::empty(),
            r.webpage_url@ == Seq::<char>::empty(),
    {
        Info {
            id: id.key().to_owned(),
            title: String::new(),
            uploader: String::new(),
            webpage_url: String::new(),
        }
    }

    /// The metadata to record for `id`: what the executor reported, or,
    /// where it reported nothing, the identifier alone.
    pub fn known_or_unknown(id: &Id, reported: Option<Info>) -> (r: Info)
        ensures
            match reported {
                Some(info) => r == info,
                None => {
                    &&& r.id@ == id@.key
                    &&& r.title@ == Seq::<char>::empty()
                    &&& r.uploader@ == Seq::<char>::empty()
                    &&& r.webpage_url@ == Seq::<char>::empty()
                },
            },
    {
        match reported {
            Some(info) => info,
            None => Info::unknown(id),
        }
    }
}

impl YtLiveInfo {
    /// Whether the video counts as live: it is live now, or it was.
    pub fn live(&self) -> (r: bool)
        ensures
            r == (self.is_live || self.was_live),
    {
        self.is_live || self.was_live
    }

    /// The metadata of the video, without the liveness answers.
    pub fn info(&self) -> (r: Info)
        ensures
            r.id == self.id,
            r.title == self.title,
            r.uploader == self.uploader,
            r.webpage_url == self.webpage_url,
    {
        Info {
            id: self.id.clone(),
            title: self.title.clone(),
            uploader: self.uploader.clone(),
            webpage_url: self.webpage_url.clone(),
        }
    }
}

/// The identifier to acquire after `probe` was made of `target`, if any.
/// A live video shown by a YouTube channel is acquired under its own key;
/// a live Twitch channel under the channel's. A probe of the other
/// provider's kind answers nothing.
pub open spec fn went_live_spec(target: IdView, probe: Probe) -> Option<IdView> {
    match (target.provider, probe) {
        (Provider::YouTube, Probe::Yt(Some(info))) => if info.is_live || info.was_live {
            Some(IdView { provider: Provider::YouTube, key: info.id@ })
        } else {
            None
        },
        (Provider::Twitch, Probe::Twitch(true)) => Some(target),
        _ => None,
    }
}

/// The identifier to acquire after `probe` was made of `target`, if any.
pub fn went_live(target: &Id, probe: &Probe) -> (r: Option<Id>)
    ensures
        match r {
            Some(id) => went_live_spec(target@, *probe) == Some(id@),
            None => went_live_spec(target@, *probe) is None,
        },
{
    match target {
        Id::Yt { .. } => match probe {
            Probe::Yt(Some(info)) => if info.live() {
                Some(Id::Yt { yt_id: info.id.clone() })
            } else {
                None
            },
            _ => None,
        },
        Id::Twitch { .. } => match probe {
            Probe::Twitch(true) => Some(target.clone()),
            _ => None,
        },
    }
}

} // verus!
