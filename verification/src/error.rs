//! Error taxonomy surfaced to callers.

use vstd::prelude::*;

verus! {

/// Every failure this crate reports to a caller.
#[derive(Debug, Clone, PartialEq, Eq)]
pub enum WakuError {
    /// `waku_new` was called while the process-wide registry already
    /// holds a live node; recoverable by stopping the existing node first.
    AlreadyRunning,
    /// A topic string does not match the addressing grammar; carries the
    /// offending input verbatim.
    MalformedTopic(String),
    /// The native engine answered with its error tag; carries the engine's
    /// message verbatim, uninterpreted.
    NativeCallFailed(String),
    /// The native engine's response matched neither the success nor the
    /// error tag shape; a protocol-level fault, never silently defaulted.
    DecodeFailed,
    /// An embedder that guards the registry with a lock observed the lock
    /// poisoned by a prior panic; fatal to further node management.
    LockPoisoned,
}

impl WakuError {
    /// True exactly when this is the malformed-topic failure.
    pub fn is_malformed_topic(&self) -> (r: bool)
        ensures
            r == (self is MalformedTopic),
    {
        match self {
            WakuError::MalformedTopic(_) => true,
            _ => false,
        }
    }
}

} // verus!
