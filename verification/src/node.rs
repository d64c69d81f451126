//! Node lifecycle: the typestate handle, the single-instance registry, and
//! the operations gated on the node's state.
//!
//! The native engine that performs the networking is an external
//! collaborator: the embedder makes each native call and hands its textual
//! reply to the corresponding function here, which decodes it and carries
//! the state machine forward. A creation attempt that observes the
//! registry claimed fails before any native call is owed.

use core::marker::PhantomData;

use vstd::prelude::*;

use crate::error::WakuError;
use crate::message::{MessageId, PeerId};
use crate::response::{
    decode_bool_reply, decode_payload_reply, decode_string_reply, decode_unit_reply,
    decode_usize_reply,
};
use crate::response::{
    error_message, is_error_shape, is_json_string, is_result_shape, json_string_content,
    result_payload,
};
use crate::topic::{dec_value, is_dec_seq};

verus! {

/// Process-wide single-instance registry: `claimed` is true while a node
/// handle exists in the initialized or running state. Owned by whatever
/// composes the system and passed to the lifecycle functions, which keeps
/// the exclusivity invariant testable in isolation.
pub struct NodeRegistry {
    claimed: bool,
}

impl NodeRegistry {
    /// Whether a live node currently holds the single-instance slot.
    pub closed spec fn is_claimed(&self) -> bool {
        self.claimed
    }

    /// A fresh registry with the slot free.
    pub fn new() -> (r: NodeRegistry)
        ensures
            !r.is_claimed(),
    {
        NodeRegistry { claimed: false }
    }
}

/// Marker trait bounding the states a node handle can be tagged with.
pub trait WakuNodeState {

}

/// Waku node initialized state.
#[derive(Debug)]
pub struct Initialized;

/// Waku node running state.
#[derive(Debug)]
pub struct Running;

impl WakuNodeState for Initialized {

}

impl WakuNodeState for Running {

}

/// Handle to the one live node, tagged with its lifecycle state; carries
/// no state of its own, so illegal calls are rejected at compile time and
/// handles may be shared freely.
#[derive(Debug)]
pub struct WakuNodeHandle<State: WakuNodeState>(PhantomData<State>);

/// Claims the single-instance slot for a new node. A call that observes
/// the slot already claimed fails with `AlreadyRunning` before any native
/// call is made; the winner must next ask the native engine to construct
/// the node and hand the reply to `confirm_create`.
pub fn waku_new(registry: &mut NodeRegistry) -> (r: Result<
    WakuNodeHandle<Initialized>,
    WakuError,
>)
    ensures
        final(registry).is_claimed(),
        old(registry).is_claimed() ==> (r matches Err(e) && e is AlreadyRunning),
        !old(registry).is_claimed() ==> r is Ok,
{
    if registry.claimed {
        Err(WakuError::AlreadyRunning)
    } else {
        registry.claimed = true;
        Ok(WakuNodeHandle(PhantomData))
    }
}

/// Interprets the native engine's reply to the construction request that
/// follows a successful `waku_new`. On a native error or an undecodable
/// reply the claim is released, so the process can create a new node.
pub fn confirm_create(
    registry: &mut NodeRegistry,
    handle: WakuNodeHandle<Initialized>,
    engine_reply: &str,
) -> (r: Result<WakuNodeHandle<Initialized>, WakuError>)
    requires
        old(registry).is_claimed(),
    ensures
        is_result_shape(engine_reply@) ==> r is Ok && final(registry).is_claimed(),
        is_error_shape(engine_reply@) ==> ({
            &&& r matches Err(e) && e matches WakuError::NativeCallFailed(m) && m@
                == error_message(engine_reply@)
            &&& !final(registry).is_claimed()
        }),
        !is_result_shape(engine_reply@) && !is_error_shape(engine_reply@) ==> ({
            &&& r matches Err(e) && e is DecodeFailed
            &&& !final(registry).is_claimed()
        }),
{
    match decode_unit_reply(engine_reply) {
        Ok(_) => Ok(handle),
        Err(e) => {
            registry.claimed = false;
            Err(e)
        },
    }
}

/// Releases the single-instance claim and interprets the native engine's
/// reply to the stop request. The claim is released whatever the native
/// outcome: teardown is best-effort, and the process must stay able to
/// create a new node after a failed stop.
pub fn stop_node(registry: &mut NodeRegistry, engine_reply: &str) -> (r: Result<(), WakuError>)
    ensures
        !final(registry).is_claimed(),
        is_result_shape(engine_reply@) ==> r is Ok,
        is_error_shape(engine_reply@) ==> (r matches Err(e) && e matches
            WakuError::NativeCallFailed(m) && m@ == error_message(engine_reply@)),
        !is_result_shape(engine_reply@) && !is_error_shape(engine_reply@) ==> (r matches Err(e)
            && e is DecodeFailed),
{
    registry.claimed = false;
    decode_unit_reply(engine_reply)
}

/// Milliseconds handed to the native connect call: clamped to the largest
/// representable signed 32-bit value, zero (meaning no timeout) and every
/// other fitting value passed through unchanged, absence meaning zero.
pub fn connect_timeout_millis(timeout_millis: Option<u64>) -> (r: i32)
    ensures
        match timeout_millis {
            Some(ms) => (ms > i32::MAX as u64 ==> r == i32::MAX) && (ms <= i32::MAX as u64 ==> r
                == ms as i32),
            None => r == 0,
        },
{
    match timeout_millis {
        Some(ms) => {
            if ms > i32::MAX as u64 {
                i32::MAX
            } else {
                ms as i32
            }
        },
        None => 0,
    }
}

impl<State: WakuNodeState> WakuNodeHandle<State> {
    /// Interprets the native engine's reply to the peer-id request: the
    /// node's own peer id as a base58 string.
    pub fn peer_id(&self, engine_reply: &str) -> (r: Result<PeerId, WakuError>)
        ensures
            is_result_shape(engine_reply@) && is_json_string(result_payload(engine_reply@)) ==> (
            r matches Ok(v) && v@ == json_string_content(result_payload(engine_reply@))),
            is_result_shape(engine_reply@) && !is_json_string(result_payload(engine_reply@)) ==> (
            r matches Err(e) && e is DecodeFailed),
            is_error_shape(engine_reply@) ==> (r matches Err(e) && e matches
                WakuError::NativeCallFailed(m) && m@ == error_message(engine_reply@)),
            !is_result_shape(engine_reply@) && !is_error_shape(engine_reply@) ==> (r matches Err(e)
                && e is DecodeFailed),
    {
        decode_string_reply(engine_reply)
    }

    /// Interprets the native engine's reply to the listen-addresses
    /// request; the payload, an array of multiaddress strings, is handed
    /// through verbatim for the embedder to interpret.
    pub fn listen_addresses(&self, engine_reply: &str) -> (r: Result<String, WakuError>)
        ensures
            is_result_shape(engine_reply@) ==> (r matches Ok(v) && v@ == result_payload(
                engine_reply@,
            )),
            is_error_shape(engine_reply@) ==> (r matches Err(e) && e matches
                WakuError::NativeCallFailed(m) && m@ == error_message(engine_reply@)),
            !is_result_shape(engine_reply@) && !is_error_shape(engine_reply@) ==> (r matches Err(e)
                && e is DecodeFailed),
    {
        decode_payload_reply(engine_reply)
    }

    /// Interprets the native engine's reply to an add-peer request: the
    /// peer id under which the multiaddress was stored.
    pub fn add_peer(&self, engine_reply: &str) -> (r: Result<PeerId, WakuError>)
        ensures
            is_result_shape(engine_reply@) && is_json_string(result_payload(engine_reply@)) ==> (
            r matches Ok(v) && v@ == json_string_content(result_payload(engine_reply@))),
            is_result_shape(engine_reply@) && !is_json_string(result_payload(engine_reply@)) ==> (
            r matches Err(e) && e is DecodeFailed),
            is_error_shape(engine_reply@) ==> (r matches Err(e) && e matches
                WakuError::NativeCallFailed(m) && m@ == error_message(engine_reply@)),
            !is_result_shape(engine_reply@) && !is_error_shape(engine_reply@) ==> (r matches Err(e)
                && e is DecodeFailed),
    {
        decode_string_reply(engine_reply)
    }
}

impl WakuNodeHandle<Initialized> {
    /// Consumes the initialized handle and interprets the native engine's
    /// reply to the start request; on success the node is running.
    pub fn start(self, engine_reply: &str) -> (r: Result<WakuNodeHandle<Running>, WakuError>)
        ensures
            is_result_shape(engine_reply@) ==> r is Ok,
            is_error_shape(engine_reply@) ==> (r matches Err(e) && e matches
                WakuError::NativeCallFailed(m) && m@ == error_message(engine_reply@)),
            !is_result_shape(engine_reply@) && !is_error_shape(engine_reply@) ==> (r matches Err(e)
                && e is DecodeFailed),
    {
        match decode_unit_reply(engine_reply) {
            Ok(_) => Ok(WakuNodeHandle(PhantomData)),
            Err(e) => Err(e),
        }
    }

    /// Stops a node that was never started, releasing the claim.
    pub fn stop(self, registry: &mut NodeRegistry, engine_reply: &str) -> (r: Result<
        (),
        WakuError,
    >)
        ensures
            !final(registry).is_claimed(),
            is_result_shape(engine_reply@) ==> r is Ok,
            is_error_shape(engine_reply@) ==> (r matches Err(e) && e matches
                WakuError::NativeCallFailed(m) && m@ == error_message(engine_reply@)),
            !is_result_shape(engine_reply@) && !is_error_shape(engine_reply@) ==> (r matches Err(e)
                && e is DecodeFailed),
    {
        stop_node(registry, engine_reply)
    }
}

impl WakuNodeHandle<Running> {
    /// Stops a running node, releasing the claim.
    pub fn stop(self, registry: &mut NodeRegistry, engine_reply: &str) -> (r: Result<
        (),
        WakuError,
    >)
        ensures
            !final(registry).is_claimed(),
            is_result_shape(engine_reply@) ==> r is Ok,
            is_error_shape(engine_reply@) ==> (r matches Err(e) && e matches
                WakuError::NativeCallFailed(m) && m@ == error_message(engine_reply@)),
            !is_result_shape(engine_reply@) && !is_error_shape(engine_reply@) ==> (r matches Err(e)
                && e is DecodeFailed),
    {
        stop_node(registry, engine_reply)
    }

    /// Interprets the native engine's reply to a dial-by-multiaddress
    /// request; the address and the clamped timeout are handed to the
    /// native call by the embedder.
    pub fn connect_peer_with_address(&self, engine_reply: &str) -> (r: Result<(), WakuError>)
        ensures
            is_result_shape(engine_reply@) ==> r is Ok,
            is_error_shape(engine_reply@) ==> (r matches Err(e) && e matches
                WakuError::NativeCallFailed(m) && m@ == error_message(engine_reply@)),
            !is_result_shape(engine_reply@) && !is_error_shape(engine_reply@) ==> (r matches Err(e)
                && e is DecodeFailed),
    {
        decode_unit_reply(engine_reply)
    }

    /// Interprets the native engine's reply to a dial-by-peer-id request.
    pub fn connect_peer_with_id(&self, engine_reply: &str) -> (r: Result<(), WakuError>)
        ensures
            is_result_shape(engine_reply@) ==> r is Ok,
            is_error_shape(engine_reply@) ==> (r matches Err(e) && e matches
                WakuError::NativeCallFailed(m) && m@ == error_message(engine_reply@)),
            !is_result_shape(engine_reply@) && !is_error_shape(engine_reply@) ==> (r matches Err(e)
                && e is DecodeFailed),
    {
        decode_unit_reply(engine_reply)
    }

    /// Interprets the native engine's reply to a disconnect request.
    pub fn disconnect_peer_with_id(&self, engine_reply: &str) -> (r: Result<(), WakuError>)
        ensures
            is_result_shape(engine_reply@) ==> r is Ok,
            is_error_shape(engine_reply@) ==> (r matches Err(e) && e matches
                WakuError::NativeCallFailed(m) && m@ == error_message(engine_reply@)),
            !is_result_shape(engine_reply@) && !is_error_shape(engine_reply@) ==> (r matches Err(e)
                && e is DecodeFailed),
    {
        decode_unit_reply(engine_reply)
    }

    /// Interprets the native engine's reply to the peer-count request: the
    /// number of connected peers as a bare decimal.
    pub fn peer_count(&self, engine_reply: &str) -> (r: Result<usize, WakuError>)
        ensures
            ({
                let p = result_payload(engine_reply@);
                is_result_shape(engine_reply@) && is_dec_seq(p) && dec_value(p) <= usize::MAX ==> (
                r matches Ok(v) && v as nat == dec_value(p))
            }),
            ({
                let p = result_payload(engine_reply@);
                is_result_shape(engine_reply@) && !(is_dec_seq(p) && dec_value(p) <= usize::MAX)
                    ==> (r matches Err(e) && e is DecodeFailed)
            }),
            is_error_shape(engine_reply@) ==> (r matches Err(e) && e matches
                WakuError::NativeCallFailed(m) && m@ == error_message(engine_reply@)),
            !is_result_shape(engine_reply@) && !is_error_shape(engine_reply@) ==> (r matches Err(e)
                && e is DecodeFailed),
    {
        decode_usize_reply(engine_reply)
    }

    /// Interprets the native engine's reply to the peer-list request; the
    /// payload is handed through verbatim for the embedder to interpret.
    pub fn peers(&self, engine_reply: &str) -> (r: Result<String, WakuError>)
        ensures
            is_result_shape(engine_reply@) ==> (r matches Ok(v) && v@ == result_payload(
                engine_reply@,
            )),
            is_error_shape(engine_reply@) ==> (r matches Err(e) && e matches
                WakuError::NativeCallFailed(m) && m@ == error_message(engine_reply@)),
            !is_result_shape(engine_reply@) && !is_error_shape(engine_reply@) ==> (r matches Err(e)
                && e is DecodeFailed),
    {
        decode_payload_reply(engine_reply)
    }

    /// Interprets the native engine's reply to a relay-publish request:
    /// the content-addressed hash naming the published message.
    pub fn relay_publish_message(&self, engine_reply: &str) -> (r: Result<MessageId, WakuError>)
        ensures
            is_result_shape(engine_reply@) && is_json_string(result_payload(engine_reply@)) ==> (
            r matches Ok(v) && v@ == json_string_content(result_payload(engine_reply@))),
            is_result_shape(engine_reply@) && !is_json_string(result_payload(engine_reply@)) ==> (
            r matches Err(e) && e is DecodeFailed),
            is_error_shape(engine_reply@) ==> (r matches Err(e) && e matches
                WakuError::NativeCallFailed(m) && m@ == error_message(engine_reply@)),
            !is_result_shape(engine_reply@) && !is_error_shape(engine_reply@) ==> (r matches Err(e)
                && e is DecodeFailed),
    {
        decode_string_reply(engine_reply)
    }

    /// Interprets the native engine's reply to a relay-publish request
    /// made with asymmetric encryption; the key material is handed to the
    /// native call by the embedder.
    pub fn relay_publish_encrypt_asymmetric(&self, engine_reply: &str) -> (r: Result<
        MessageId,
        WakuError,
    >)
        ensures
            is_result_shape(engine_reply@) && is_json_string(result_payload(engine_reply@)) ==> (
            r matches Ok(v) && v@ == json_string_content(result_payload(engine_reply@))),
            is_result_shape(engine_reply@) && !is_json_string(result_payload(engine_reply@)) ==> (
            r matches Err(e) && e is DecodeFailed),
            is_error_shape(engine_reply@) ==> (r matches Err(e) && e matches
                WakuError::NativeCallFailed(m) && m@ == error_message(engine_reply@)),
            !is_result_shape(engine_reply@) && !is_error_shape(engine_reply@) ==> (r matches Err(e)
                && e is DecodeFailed),
    {
        decode_string_reply(engine_reply)
    }

    /// Interprets the native engine's reply to a relay-publish request
    /// made with symmetric encryption; the key material is handed to the
    /// native call by the embedder.
    pub fn relay_publish_encrypt_symmetric(&self, engine_reply: &str) -> (r: Result<
        MessageId,
        WakuError,
    >)
        ensures
            is_result_shape(engine_reply@) && is_json_string(result_payload(engine_reply@)) ==> (
            r matches Ok(v) && v@ == json_string_content(result_payload(engine_reply@))),
            is_result_shape(engine_reply@) && !is_json_string(result_payload(engine_reply@)) ==> (
            r matches Err(e) && e is DecodeFailed),
            is_error_shape(engine_reply@) ==> (r matches Err(e) && e matches
                WakuError::NativeCallFailed(m) && m@ == error_message(engine_reply@)),
            !is_result_shape(engine_reply@) && !is_error_shape(engine_reply@) ==> (r matches Err(e)
                && e is DecodeFailed),
    {
        decode_string_reply(engine_reply)
    }

    /// Interprets the native engine's reply to the enough-peers question
    /// for a pub/sub topic.
    pub fn relay_enough_peers(&self, engine_reply: &str) -> (r: Result<bool, WakuError>)
        ensures
            is_result_shape(engine_reply@) && result_payload(engine_reply@) == seq![
                't',
                'r',
                'u',
                'e',
            ] ==> (r matches Ok(b) && b == true),
            is_result_shape(engine_reply@) && result_payload(engine_reply@) == seq![
                'f',
                'a',
                'l',
                's',
                'e',
            ] ==> (r matches Ok(b) && b == false),
            is_result_shape(engine_reply@) && result_payload(engine_reply@) != seq![
                't',
                'r',
                'u',
                'e',
            ] && result_payload(engine_reply@) != seq!['f', 'a', 'l', 's', 'e'] ==> (r matches Err(
                e,
            ) && e is DecodeFailed),
            is_error_shape(engine_reply@) ==> (r matches Err(e) && e matches
                WakuError::NativeCallFailed(m) && m@ == error_message(engine_reply@)),
            !is_result_shape(engine_reply@) && !is_error_shape(engine_reply@) ==> (r matches Err(e)
                && e is DecodeFailed),
    {
        decode_bool_reply(engine_reply)
    }

    /// Interprets the native engine's reply to a relay-subscribe request.
    pub fn relay_subscribe(&self, engine_reply: &str) -> (r: Result<(), WakuError>)
        ensures
            is_result_shape(engine_reply@) ==> r is Ok,
            is_error_shape(engine_reply@) ==> (r matches Err(e) && e matches
                WakuError::NativeCallFailed(m) && m@ == error_message(engine_reply@)),
            !is_result_shape(engine_reply@) && !is_error_shape(engine_reply@) ==> (r matches Err(e)
                && e is DecodeFailed),
    {
        decode_unit_reply(engine_reply)
    }

    /// Interprets the native engine's reply to a relay-unsubscribe request.
    pub fn relay_unsubscribe(&self, engine_reply: &str) -> (r: Result<(), WakuError>)
        ensures
            is_result_shape(engine_reply@) ==> r is Ok,
            is_error_shape(engine_reply@) ==> (r matches Err(e) && e matches
                WakuError::NativeCallFailed(m) && m@ == error_message(engine_reply@)),
            !is_result_shape(engine_reply@) && !is_error_shape(engine_reply@) ==> (r matches Err(e)
                && e is DecodeFailed),
    {
        decode_unit_reply(engine_reply)
    }
}

/// One peer known to the node, as the embedder decodes it from the
/// peer-list payload: addresses are multiaddress strings.
#[derive(Clone, Debug)]
pub struct WakuPeerData {
    /// Base58 encoded peer id.
    pub peer_id: PeerId,
    /// Protocol identifiers the peer supports, in order.
    pub protocols: Vec<String>,
    /// Multiaddress strings of the peer, in order.
    pub addresses: Vec<String>,
    /// Whether the node is currently connected to this peer.
    pub connected: bool,
}

/// The list of peers known to the node.
pub type WakuPeers = Vec<WakuPeerData>;

} // verus!
