use waku::error::WakuError;
use waku::node::{confirm_create, connect_timeout_millis, stop_node, waku_new, NodeRegistry};
use waku::topic::{Encoding, WakuContentTopic};
use waku::message::WakuMessage;

const OK_REPLY: &str = "{\"result\":true}";

#[test]
fn exclusive_running() {
    let mut registry = NodeRegistry::new();
    let handle1 = waku_new(&mut registry).unwrap();
    let handle2 = waku_new(&mut registry);
    assert!(handle2.is_err());
    let stop_handle = handle1.start(OK_REPLY).unwrap();
    stop_handle.stop(&mut registry, OK_REPLY).unwrap();
}

#[test]
fn second_create_fails_then_recovers() {
    let mut registry = NodeRegistry::new();
    let winner = waku_new(&mut registry).unwrap();
    assert_eq!(waku_new(&mut registry).unwrap_err(), WakuError::AlreadyRunning);
    assert_eq!(waku_new(&mut registry).unwrap_err(), WakuError::AlreadyRunning);
    winner.stop(&mut registry, OK_REPLY).unwrap();
    let again = waku_new(&mut registry);
    assert!(again.is_ok());
}

#[test]
fn confirm_create_keeps_claim_on_success() {
    let mut registry = NodeRegistry::new();
    let handle = waku_new(&mut registry).unwrap();
    let handle = confirm_create(&mut registry, handle, OK_REPLY).unwrap();
    assert_eq!(waku_new(&mut registry).unwrap_err(), WakuError::AlreadyRunning);
    handle.stop(&mut registry, OK_REPLY).unwrap();
}

#[test]
fn confirm_create_releases_claim_on_native_error() {
    let mut registry = NodeRegistry::new();
    let handle = waku_new(&mut registry).unwrap();
    let err = confirm_create(&mut registry, handle, "{\"error\":\"no ports\"}").unwrap_err();
    assert_eq!(err, WakuError::NativeCallFailed(String::from("no ports")));
    assert!(waku_new(&mut registry).is_ok());
}

#[test]
fn confirm_create_releases_claim_on_decode_failure() {
    let mut registry = NodeRegistry::new();
    let handle = waku_new(&mut registry).unwrap();
    let err = confirm_create(&mut registry, handle, "garbage").unwrap_err();
    assert_eq!(err, WakuError::DecodeFailed);
    assert!(waku_new(&mut registry).is_ok());
}

#[test]
fn start_surfaces_native_error() {
    let mut registry = NodeRegistry::new();
    let handle = waku_new(&mut registry).unwrap();
    let err = handle.start("{\"error\":\"relay failed\"}").unwrap_err();
    assert_eq!(err, WakuError::NativeCallFailed(String::from("relay failed")));
    // the claim is still held after a failed start
    assert_eq!(waku_new(&mut registry).unwrap_err(), WakuError::AlreadyRunning);
    stop_node(&mut registry, OK_REPLY).unwrap();
    assert!(waku_new(&mut registry).is_ok());
}

#[test]
fn stop_releases_claim_even_when_native_stop_fails() {
    let mut registry = NodeRegistry::new();
    let handle = waku_new(&mut registry).unwrap();
    let err = handle.stop(&mut registry, "{\"error\":\"hung\"}").unwrap_err();
    assert_eq!(err, WakuError::NativeCallFailed(String::from("hung")));
    assert!(waku_new(&mut registry).is_ok());
}

#[test]
fn connect_timeout_clamps_to_signed_32_bit_max() {
    assert_eq!(connect_timeout_millis(Some(5_000_000_000)), i32::MAX);
    assert_eq!(connect_timeout_millis(Some(i32::MAX as u64 + 1)), i32::MAX);
}

#[test]
fn connect_timeout_zero_means_no_timeout() {
    assert_eq!(connect_timeout_millis(Some(0)), 0);
    assert_eq!(connect_timeout_millis(None), 0);
    assert_eq!(connect_timeout_millis(Some(1_234)), 1_234);
    assert_eq!(connect_timeout_millis(Some(i32::MAX as u64)), i32::MAX);
}

#[test]
fn running_operations_decode_replies() {
    let mut registry = NodeRegistry::new();
    let node = waku_new(&mut registry).unwrap().start(OK_REPLY).unwrap();
    assert_eq!(node.peer_id("{\"result\":\"QmPeerBase58\"}").unwrap(), "QmPeerBase58");
    assert_eq!(node.peer_count("{\"result\":12}").unwrap(), 12);
    assert_eq!(node.peers("{\"result\":[]}").unwrap(), "[]");
    assert_eq!(node.relay_enough_peers("{\"result\":true}").unwrap(), true);
    assert_eq!(node.relay_enough_peers("{\"result\":false}").unwrap(), false);
    assert!(node.connect_peer_with_address(OK_REPLY).is_ok());
    assert_eq!(node.listen_addresses("{\"result\":[\"/ip4/127.0.0.1/tcp/60000\"]}").unwrap(),
        "[\"/ip4/127.0.0.1/tcp/60000\"]");
    assert_eq!(node.add_peer("{\"result\":\"QmStored\"}").unwrap(), "QmStored");
    assert_eq!(
        node.relay_publish_encrypt_asymmetric("{\"result\":\"0xasymmetric\"}").unwrap(),
        "0xasymmetric"
    );
    assert_eq!(
        node.relay_publish_encrypt_symmetric("{\"result\":\"0xsymmetric\"}").unwrap(),
        "0xsymmetric"
    );
    assert!(node.relay_subscribe(OK_REPLY).is_ok());
    assert!(node.relay_unsubscribe(OK_REPLY).is_ok());
    assert!(node.connect_peer_with_id(OK_REPLY).is_ok());
    assert!(node.disconnect_peer_with_id(OK_REPLY).is_ok());
    assert_eq!(
        node.relay_publish_message("{\"result\":\"0xmessagehash\"}").unwrap(),
        "0xmessagehash"
    );
    assert_eq!(
        node.relay_publish_message("{\"error\":\"not enough peers\"}").unwrap_err(),
        WakuError::NativeCallFailed(String::from("not enough peers"))
    );
    assert_eq!(node.peer_count("{\"result\":many}").unwrap_err(), WakuError::DecodeFailed);
    node.stop(&mut registry, OK_REPLY).unwrap();
}

#[test]
fn message_construction_keeps_fields() {
    let topic = WakuContentTopic::parse("/myapp/1/chat/proto").unwrap();
    let message = WakuMessage::new(vec![1, 2, 3], topic, 1, 1_700_000_000_000_000_000);
    assert_eq!(message.payload, vec![1, 2, 3]);
    assert_eq!(message.version, 1);
    assert_eq!(message.timestamp, 1_700_000_000_000_000_000);
    assert_eq!(message.content_topic.application_name, "myapp");
    assert_eq!(message.content_topic.encoding, Encoding::Proto);
}
