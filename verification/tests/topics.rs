use waku::error::WakuError;
use waku::topic::{
    default_pubsub_topic, topic_or_default, waku_create_content_topic, waku_create_pubsub_topic,
    Encoding, WakuContentTopic, WakuPubSubTopic,
};

#[test]
fn created_topics_format_canonically() {
    let content = waku_create_content_topic(
        String::from("myapp"),
        1,
        String::from("chat"),
        Encoding::Proto,
    );
    assert_eq!(content.format(), "/myapp/1/chat/proto");
    let pubsub = waku_create_pubsub_topic(String::from("room"), Encoding::Rlp);
    assert_eq!(pubsub.format(), "/waku/2/room/rlp");
}

#[test]
fn parse_content_topic_example() {
    let topic = WakuContentTopic::parse("/myapp/1/chat/proto").unwrap();
    assert_eq!(topic.application_name, "myapp");
    assert_eq!(topic.version, 1);
    assert_eq!(topic.content_topic_name, "chat");
    assert_eq!(topic.encoding, Encoding::Proto);
    assert_eq!(topic.format(), "/myapp/1/chat/proto");
}

#[test]
fn parse_pubsub_version_segment() {
    let topic = WakuPubSubTopic::parse("/waku/2/default-waku/proto").unwrap();
    assert_eq!(topic.topic_name, "default-waku");
    assert_eq!(topic.encoding, Encoding::Proto);
    let wrong_version = WakuPubSubTopic::parse("/waku/1/default-waku/proto");
    assert!(matches!(wrong_version, Err(WakuError::MalformedTopic(_))));
}

#[test]
fn encoding_parse_case_insensitive() {
    assert_eq!(Encoding::parse("PROTO").unwrap(), Encoding::Proto);
    assert_eq!(Encoding::parse("proto").unwrap(), Encoding::Proto);
    assert_eq!(Encoding::parse("Proto").unwrap(), Encoding::Proto);
    assert_eq!(Encoding::parse("RLP").unwrap(), Encoding::Rlp);
    assert_eq!(Encoding::parse("rFc26").unwrap(), Encoding::Rfc26);
    assert!(matches!(Encoding::parse("json"), Err(WakuError::MalformedTopic(_))));
    assert_eq!(Encoding::Proto.as_str(), "proto");
    assert_eq!(Encoding::Rlp.as_str(), "rlp");
    assert_eq!(Encoding::Rfc26.as_str(), "rfc26");
}

#[test]
fn mixed_case_encoding_formats_lowercase() {
    let topic = WakuContentTopic::parse("/app/7/room/PrOtO").unwrap();
    assert_eq!(topic.encoding, Encoding::Proto);
    assert_eq!(topic.format(), "/app/7/room/proto");
}

#[test]
fn content_topic_format_then_parse() {
    let topic = WakuContentTopic {
        application_name: String::from("orders"),
        version: 42,
        content_topic_name: String::from("created"),
        encoding: Encoding::Rlp,
    };
    let s = topic.format();
    assert_eq!(s, "/orders/42/created/rlp");
    let back = WakuContentTopic::parse(&s).unwrap();
    assert_eq!(back.application_name, "orders");
    assert_eq!(back.version, 42);
    assert_eq!(back.content_topic_name, "created");
    assert_eq!(back.encoding, Encoding::Rlp);
    assert_eq!(back.format(), s);
}

#[test]
fn pubsub_topic_format_then_parse() {
    let topic = WakuPubSubTopic { topic_name: String::from("store-room"), encoding: Encoding::Rfc26 };
    let s = topic.format();
    assert_eq!(s, "/waku/2/store-room/rfc26");
    let back = WakuPubSubTopic::parse(&s).unwrap();
    assert_eq!(back.topic_name, "store-room");
    assert_eq!(back.encoding, Encoding::Rfc26);
    assert_eq!(back.format(), s);
}

#[test]
fn content_topic_accepts_unicode_segments() {
    let topic = WakuContentTopic::parse("/an app/3/chat-\u{10348}/proto").unwrap();
    assert_eq!(topic.application_name, "an app");
    assert_eq!(topic.content_topic_name, "chat-\u{10348}");
    assert_eq!(topic.format(), "/an app/3/chat-\u{10348}/proto");
}

#[test]
fn content_topic_version_zero_round_trips() {
    let topic = WakuContentTopic::parse("/a/0/b/proto").unwrap();
    assert_eq!(topic.version, 0);
    assert_eq!(topic.format(), "/a/0/b/proto");
}

#[test]
fn content_topic_normalizes_non_canonical_input() {
    // accepted, but formatting canonicalizes: leading zeros and upper case
    // are exactly the inputs on which format-after-parse differs from the input
    let topic = WakuContentTopic::parse("/a/007/b/PROTO").unwrap();
    assert_eq!(topic.version, 7);
    assert_eq!(topic.format(), "/a/7/b/proto");
    let again = WakuContentTopic::parse(&topic.format()).unwrap();
    assert_eq!(again.format(), "/a/7/b/proto");
}

#[test]
fn content_topic_rejects_deviations() {
    assert!(WakuContentTopic::parse("").is_err());
    assert!(WakuContentTopic::parse("myapp/1/chat/proto").is_err());
    assert!(WakuContentTopic::parse("/myapp/1/chat").is_err());
    assert!(WakuContentTopic::parse("/myapp//chat/proto").is_err());
    assert!(WakuContentTopic::parse("//1/chat/proto").is_err());
    assert!(WakuContentTopic::parse("/myapp/one/chat/proto").is_err());
    assert!(WakuContentTopic::parse("/myapp/1/chat/json").is_err());
    assert!(WakuContentTopic::parse("/myapp/1/chat/proto/extra").is_err());
    assert!(WakuContentTopic::parse("/myapp/1/chat/proto/").is_err());
    let err = WakuContentTopic::parse("/myapp/1x/chat/proto").unwrap_err();
    assert!(err.is_malformed_topic());
    assert!(matches!(err, WakuError::MalformedTopic(ref got) if got == "/myapp/1x/chat/proto"));
}

#[test]
fn content_topic_rejects_version_overflow() {
    let err = WakuContentTopic::parse("/a/99999999999999999999999/b/proto");
    assert!(matches!(err, Err(WakuError::MalformedTopic(_))));
}

#[test]
fn pubsub_topic_rejects_deviations() {
    assert!(WakuPubSubTopic::parse("").is_err());
    assert!(WakuPubSubTopic::parse("/waku/2/").is_err());
    assert!(WakuPubSubTopic::parse("/waku/2//proto").is_err());
    assert!(WakuPubSubTopic::parse("/waku/2/name").is_err());
    assert!(WakuPubSubTopic::parse("/waku/2/name/proto/extra").is_err());
    assert!(WakuPubSubTopic::parse("/waku/2/name/json").is_err());
    assert!(WakuPubSubTopic::parse("/other/2/name/proto").is_err());
}

#[test]
fn default_topic_is_canonical() {
    let topic = default_pubsub_topic();
    assert_eq!(topic.format(), "/waku/2/default-waku/proto");
    let parsed = WakuPubSubTopic::parse("/waku/2/default-waku/proto").unwrap();
    assert_eq!(parsed.topic_name, topic.topic_name);
    assert_eq!(parsed.encoding, topic.encoding);
}

#[test]
fn topic_or_default_choices() {
    let given = WakuPubSubTopic { topic_name: String::from("mine"), encoding: Encoding::Proto };
    assert_eq!(topic_or_default(Some(given)).format(), "/waku/2/mine/proto");
    assert_eq!(topic_or_default(None).format(), "/waku/2/default-waku/proto");
}
