use vdl::id::Id;
use vdl::id::Provider;

fn yt(key: &str) -> Id {
    Id::Yt { yt_id: key.to_string() }
}

fn twitch(key: &str) -> Id {
    Id::Twitch { twitch_id: key.to_string() }
}

#[test]
fn formats_with_the_provider_prefix() {
    assert_eq!(yt("@channel").to_string(), "yt:@channel");
    assert_eq!(twitch("streamer").to_string(), "twitch:streamer");
}

#[test]
fn parses_both_providers() {
    assert_eq!(Id::from_str("yt:dQw4w9WgXcQ").unwrap(), yt("dQw4w9WgXcQ"));
    assert_eq!(Id::from_str("twitch:streamer").unwrap(), twitch("streamer"));
}

#[test]
fn parse_undoes_format() {
    let keys = ["", "a", "@some channel", "yt:nested", "twitch:nested", "k\u{e9}y\u{1F600}", "a:b:c"];
    for key in keys {
        for id in [yt(key), twitch(key)] {
            let text = id.to_string();
            assert_eq!(Id::from_str(&text).unwrap(), id);
        }
    }
}

#[test]
fn empty_keys_are_identifiers() {
    assert_eq!(Id::from_str("yt:").unwrap(), yt(""));
    assert_eq!(Id::from_str("twitch:").unwrap(), twitch(""));
}

#[test]
fn the_youtube_prefix_is_tried_first() {
    assert_eq!(Id::from_str("yt:twitch:x").unwrap(), yt("twitch:x"));
    assert_eq!(Id::from_str("twitch:yt:x").unwrap(), twitch("yt:x"));
}

#[test]
fn other_text_is_rejected_with_the_input() {
    for text in ["", "yt", "twitch", "youtube:abc", "YT:abc", " yt:abc", "abc", "t", "y"] {
        let err = Id::from_str(text).unwrap_err();
        assert_eq!(err.input, text);
        assert_eq!(err.message(), format!("{text} is not a valid id"));
    }
}

#[test]
fn provider_and_key_are_read_back() {
    assert_eq!(yt("abc").provider(), Provider::YouTube);
    assert_eq!(twitch("abc").provider(), Provider::Twitch);
    assert_eq!(yt("abc").key(), "abc");
    assert_eq!(twitch("def").key(), "def");
}

#[test]
fn identifiers_differ_by_provider_and_by_key() {
    assert_ne!(yt("abc"), twitch("abc"));
    assert_ne!(yt("abc"), yt("abd"));
    assert_eq!(yt("abc"), yt("abc").clone());
}
