//! Provider-tagged channel and video identifiers.
//!
//! An identifier is written `yt:<key>` or `twitch:<key>`. The same text is
//! the name of the staging directory of an acquisition, so it has to be read
//! back to the identifier it was written from.
use crate::text::{concat_str, strip_prefix};
use vstd::prelude::*;
use vstd::std_specs::cmp::PartialEqSpecImpl;

verus! {

/// The provider an identifier belongs to.
#[derive(Clone, Copy, Debug, PartialEq, Eq, Hash, Structural)]
pub enum Provider {
    YouTube,
    Twitch,
}

/// What an [`Id`] stands for: a provider and the key under which the
/// provider knows the channel or video.
pub struct IdView {
    pub provider: Provider,
    pub key: Seq<char>,
}

/// A channel or video of one of the two providers.
#[derive(Debug, Hash)]
pub enum Id {
    Yt { yt_id: String },
    Twitch { twitch_id: String },
}

/// The text handed to [`Id::from_str`] when it names no identifier.
#[derive(Debug)]
pub struct InvalidId {
    pub input: String,
}

/// The canonical text of an identifier.
pub open spec fn format_spec(id: IdView) -> Seq<char> {
    match id.provider {
        Provider::YouTube => "yt:"@ + id.key,
        Provider::Twitch => "twitch:"@ + id.key,
    }
}

/// The identifier that a text names, if it names one. The YouTube prefix
/// is tried first.
pub open spec fn parse_spec(s: Seq<char>) -> Option<IdView> {
    if "yt:"@.is_prefix_of(s) {
        Some(IdView { provider: Provider::YouTube, key: s.skip("yt:"@.len() as int) })
    } else if "twitch:"@.is_prefix_of(s) {
        Some(IdView { provider: Provider::Twitch, key: s.skip("twitch:"@.len() as int) })
    } else {
        None
    }
}

impl View for Id {
    type V = IdView;

    open spec fn view(&self) -> IdView {
        match self {
            Id::Yt { yt_id } => IdView { provider: Provider::YouTube, key: yt_id@ },
            Id::Twitch { twitch_id } => IdView { provider: Provider::Twitch, key: twitch_id@ },
        }
    }
}

impl Clone for Id {
    fn clone(&self) -> (r: Self)
        ensures
            r == *self,
    {
        match self {
            Id::Yt { yt_id } => Id::Yt { yt_id: yt_id.clone() },
            Id::Twitch { twitch_id } => Id::Twitch { twitch_id: twitch_id.clone() },
        }
    }
}

impl PartialEq for Id {
    fn eq(&self, other: &Self) -> (r: bool) {
        match self {
            Id::Yt { yt_id } => match other {
                Id::Yt { yt_id: o } => *yt_id == *o,
                Id::Twitch { .. } => false,
            },
            Id::Twitch { twitch_id } => match other {
                Id::Yt { .. } => false,
                Id::Twitch { twitch_id: o } => *twitch_id == *o,
            },
        }
    }
}

impl Eq for Id {

}

impl PartialEqSpecImpl for Id {
    open spec fn obeys_eq_spec() -> bool {
        true
    }

    open spec fn eq_spec(&self, other: &Self) -> bool {
        self@ == other@
    }
}

impl Id {
    /// The provider of this identifier.
    pub fn provider(&self) -> (r: Provider)
        ensures
            r == self@.provider,
    {
        match self {
            Id::Yt { .. } => Provider::YouTube,
            Id::Twitch { .. } => Provider::Twitch,
        }
    }

    /// The key under which the provider knows the channel or video.
    pub fn key(&self) -> (r: &str)
        ensures
            r@ == self@.key,
    {
        match self {
            Id::Yt { yt_id } => yt_id.as_str(),
            Id::Twitch { twitch_id } => twitch_id.as_str(),
        }
    }

    /// The canonical text: the provider's prefix, then the key.
    pub fn to_string(&self) -> (r: String)
        ensures
            r@ == format_spec(self@),
    {
        match self {
            Id::Yt { yt_id } => concat_str("yt:", yt_id.as_str()),
            Id::Twitch { twitch_id } => concat_str("twitch:", twitch_id.as_str()),
        }
    }

    /// Reads an identifier from its canonical text. Any text with one of
    /// the two prefixes is accepted, with whatever follows as the key; any
    /// other text is handed back in the error.
    pub fn from_str(s: &str) -> (r: Result<Id, InvalidId>)
        ensures
            match r {
                Ok(id) => parse_spec(s@) == Some(id@),
                Err(e) => parse_spec(s@) is None && e.input@ == s@,
            },
    {
        if let Some(rest) = strip_prefix(s, "yt:") {
            assert(s@.skip("yt:"@.len() as int) =~= rest@);
            assert("yt:"@.is_prefix_of(s@));
            Ok(Id::Yt { yt_id: rest.to_owned() })
        } else if let Some(rest) = strip_prefix(s, "twitch:") {
            assert(s@.skip("twitch:"@.len() as int) =~= rest@);
            assert("twitch:"@.is_prefix_of(s@));
            Ok(Id::Twitch { twitch_id: rest.to_owned() })
        } else {
            Err(InvalidId { input: s.to_owned() })
        }
    }
}

impl InvalidId {
    /// The complaint shown to the operator.
    pub fn message(&self) -> (r: String)
        ensures
            r@ == self.input@ + " is not a valid id"@,
    {
        concat_str(self.input.as_str(), " is not a valid id")
    }
}

/// Reading back the canonical text of an identifier gives that identifier.
pub proof fn lemma_parse_format(id: IdView)
    ensures
        parse_spec(format_spec(id)) == Some(id),
{
    reveal_strlit("yt:");
    reveal_strlit("twitch:");
    let s = format_spec(id);
    match id.provider {
        Provider::YouTube => {
            assert(s.subrange(0, 3) =~= "yt:"@);
            assert(s.skip(3) =~= id.key);
        },
        Provider::Twitch => {
            assert(s[0] == 't');
            assert(!"yt:"@.is_prefix_of(s)) by {
                if "yt:"@.is_prefix_of(s) {
                    assert(s.subrange(0, 3)[0] == 'y');
                }
            }
            assert(s.subrange(0, 7) =~= "twitch:"@);
            assert(s.skip(7) =~= id.key);
        },
    }
}

/// Two identifiers with the same canonical text are the same identifier.
pub proof fn lemma_format_injective(a: IdView, b: IdView)
    requires
        format_spec(a) == format_spec(b),
    ensures
        a == b,
{
    lemma_parse_format(a);
    lemma_parse_format(b);
}

} // verus!
