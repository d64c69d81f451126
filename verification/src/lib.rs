//! Client-side control surface for a peer-to-peer messaging node.
//!
//! The crate defines the strict addressing grammar for content topics and
//! pub/sub topics, the adapter that decodes the native engine's tagged
//! responses, the data model for transmitted messages, and the lifecycle
//! state machine that gates which node operations may be called and
//! guarantees at most one live node per registry.

pub mod error;
pub mod message;
pub mod node;
pub mod response;
pub mod topic;

pub use error::WakuError;
