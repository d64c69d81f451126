//! Data model for transmitted messages and the envelopes exchanged with
//! the native engine's store sub-protocol.

use vstd::prelude::*;

use crate::topic::{WakuContentTopic, WakuPubSubTopic};

verus! {

/// Version number carried by a Waku message.
pub type WakuMessageVersion = usize;

/// Base58 encoded peer id.
pub type PeerId = String;

/// Content-addressed hash naming a published message.
pub type MessageId = String;

/// A message as transmitted over the wire; immutable once constructed.
#[derive(Clone, Debug)]
pub struct WakuMessage {
    /// Raw payload bytes.
    pub payload: Vec<u8>,
    /// The content topic to be set on the message.
    pub content_topic: WakuContentTopic,
    /// The Waku message version number.
    pub version: WakuMessageVersion,
    /// Unix timestamp in nanoseconds.
    pub timestamp: i64,
}

impl WakuMessage {
    /// Assembles a message from its parts, unchanged.
    pub fn new(
        payload: Vec<u8>,
        content_topic: WakuContentTopic,
        version: WakuMessageVersion,
        timestamp: i64,
    ) -> (r: WakuMessage)
        ensures
            r.payload == payload,
            r.content_topic == content_topic,
            r.version == version,
            r.timestamp == timestamp,
    {
        WakuMessage { payload, content_topic, version, timestamp }
    }
}

/// A received message's payload once the native engine has decrypted it;
/// carried through, never produced here.
#[derive(Clone, Debug)]
pub struct DecodedPayload {
    /// Public key that signed the message, hex encoded with 0x prefix.
    pub public_key: Option<String>,
    /// Message signature, hex encoded with 0x prefix.
    pub signature: Option<String>,
    /// Decrypted message payload, base64 encoded.
    pub data: String,
    /// Padding, base64 encoded.
    pub padding: String,
}

/// Selects messages of one content topic.
#[derive(Clone, Debug)]
pub struct ContentFilter {
    /// The content topic of a Waku message.
    pub content_topic: WakuContentTopic,
}

/// The criteria to create a subscription to a light node.
#[derive(Clone, Debug)]
pub struct FilterSubscription {
    /// The content filters being subscribed to or unsubscribed from.
    pub content_filters: Vec<ContentFilter>,
    /// Optional pub/sub topic.
    pub pubsub_topic: Option<WakuPubSubTopic>,
}

/// Criteria used to retrieve historical messages.
#[derive(Clone, Debug)]
pub struct StoreQuery {
    /// The pub/sub topic on which messages are published.
    pub pubsub_topic: Option<WakuPubSubTopic>,
    /// Content filters to query for historical messages.
    pub content_filters: Vec<ContentFilter>,
    /// Inclusive lower bound on the timestamp, Unix epoch nanoseconds.
    pub start_time: Option<usize>,
    /// Inclusive upper bound on the timestamp, Unix epoch nanoseconds.
    pub end_time: Option<usize>,
    /// Paging information.
    pub paging_options: Option<PagingOptions>,
}

/// The response received after querying a store node.
#[derive(Clone, Debug)]
pub struct StoreResponse {
    /// Retrieved historical messages.
    pub messages: Vec<WakuMessage>,
    /// Paging information from which to resume further historical queries.
    pub paging_options: Option<PagingOptions>,
}

/// Paging information for store queries.
#[derive(Clone, Debug)]
pub struct PagingOptions {
    /// Number of messages to retrieve per page.
    pub page_size: usize,
    /// Message index from which to perform pagination; when absent, paging
    /// starts from the beginning or end of the list according to `forward`.
    pub cursor: Option<MessageIndex>,
    /// True if paging forward, false if paging backward.
    pub forward: bool,
}

/// Position of one message in a store node's history.
#[derive(Clone, Debug)]
pub struct MessageIndex {
    /// Hash of the message at this index.
    pub digest: String,
    /// Unix timestamp in nanoseconds at which the message was received.
    pub receiver_time: usize,
    /// Unix timestamp in nanoseconds at which the sender generated the message.
    pub sender_time: usize,
    /// The pub/sub topic of the message at this index.
    pub pubsub_topic: WakuPubSubTopic,
}

} // verus!
