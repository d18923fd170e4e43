//! Error taxonomy of the runtime: every registry and messaging failure is
//! reported to the immediate caller as one of these values; none is retried
//! internally and none crashes the system.

use vstd::prelude::*;

verus! {

/// Failures that the runtime reports to callers.
#[derive(Clone, Copy, Debug, PartialEq, Eq, Structural)]
pub enum ActorError {
    /// `create` targeted a path that is already occupied by a live entry.
    AlreadyExists,
    /// An enqueue was attempted on a closed mailbox (the actor has stopped).
    SendFailure,
    /// The response channel was dropped without a reply: the message's
    /// effect is unknown to the caller.
    AskFailure,
}

} // verus!
