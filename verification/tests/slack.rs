use jil_api::slack::channel::{ParseError, SlackChannel};

#[test]
fn test_channel_tostring() {
    assert_eq!(SlackChannel::General.to_string(), "C75C3AW66");
}

#[test]
fn test_channel_fromstring() {
    assert_eq!(SlackChannel::from_str("general").unwrap(), SlackChannel::General);
}

#[test]
fn test_default_slack_channel_general() {
    let channel: SlackChannel = SlackChannel::default();
    assert_eq!(channel, SlackChannel::General);
}

#[test]
fn test_slack_channel_deserialize() {
    let text: String = serde_json::from_str("\"general\"").unwrap();
    let channel = SlackChannel::from_wire(text);
    assert_eq!(channel, SlackChannel::General);
}

#[test]
fn test_slack_channel_deserialize_wedding_site() {
    let text: String = serde_json::from_str("\"wedding-site\"").unwrap();
    let channel = SlackChannel::from_wire(text);
    assert_eq!(channel, SlackChannel::WeddingSite);
}

#[test]
fn test_unknown_slack_channel_deserialize() {
    let text: String = serde_json::from_str("\"unknown\"").unwrap();
    let channel = SlackChannel::from_wire(text);
    assert_eq!(channel, SlackChannel::Unknown("unknown".to_string()));
}

#[test]
fn test_slack_channel_serialize() {
    let channel = SlackChannel::General;
    let serialized = serde_json::to_string(&channel.wire_name()).unwrap();
    assert_eq!(serialized, "\"C75C3AW66\"");
}

#[test]
fn test_slack_channel_serialize_unknown() {
    let channel = SlackChannel::Unknown("unknownABC".to_string());
    let serialized = serde_json::to_string(&channel.wire_name()).unwrap();
    assert_eq!(serialized, "\"unknownABC\"");
}

#[test]
fn every_known_channel_reads_back_from_identifier_and_name() {
    let table = [
        (SlackChannel::General, "C75C3AW66", "general"),
        (SlackChannel::JilDotIm, "CLVH6SLAZ", "jil-dot-im"),
        (SlackChannel::JilGuestbook, "CVBH1GHSM", "jil-guestbook"),
        (SlackChannel::RRLFeedback, "C01HFPUJGHZ", "rrl-feedback"),
        (SlackChannel::WeddingSite, "C05QT3QPDNY", "wedding-site"),
        (SlackChannel::Lights, "C069AFX67C5", "lights"),
    ];
    for (channel, id, name) in table {
        assert_eq!(channel.to_string(), id);
        assert_eq!(channel.wire_name(), id);
        assert_eq!(SlackChannel::from_str(id), Ok(channel.clone()));
        assert_eq!(SlackChannel::from_str(name), Ok(channel.clone()));
        assert_eq!(SlackChannel::from_wire(name.to_string()), channel);
    }
}

#[test]
fn a_text_that_names_no_channel_is_rejected() {
    assert_eq!(SlackChannel::from_str("random"), Err(ParseError));
    assert_eq!(SlackChannel::from_str(""), Err(ParseError));
    assert_eq!(SlackChannel::from_str("General"), Err(ParseError));
}

#[test]
fn the_word_unknown_reads_as_the_unknown_channel() {
    assert_eq!(SlackChannel::from_str("Unknown"), Ok(SlackChannel::Unknown(String::new())));
    assert_eq!(SlackChannel::Unknown("x".to_string()).to_string(), "Unknown");
    assert_eq!(SlackChannel::from_wire("Unknown".to_string()), SlackChannel::Unknown("Unknown".to_string()));
}
