//! What a retry policy says to the engine.

use vstd::prelude::*;
use crate::transport::AttemptOutcome;

verus! {

/// The ceiling of a policy that does not choose its own: such a policy may
/// ask for another attempt seven times in one chain. The ceiling is the
/// safety valve against a policy that would chain without end.
pub const DEFAULT_MAXIMUM_CHAIN_LENGTH: u32 = 7;

/// The decision of a policy after one attempt.
pub enum ChainAction {
    /// Send the request again. The policy has already rewritten it in place.
    Retry,
    /// End the chain and hand this outcome to the caller.
    Complete(AttemptOutcome),
}

/// Marks a policy as the one that drives the chains of a client.
pub struct ChainMiddleware<T>(pub T);

impl<T> ChainMiddleware<T> {
    /// Wraps a policy.
    pub fn new(policy: T) -> (middleware: Self)
        ensures
            middleware.0 == policy,
    {
        ChainMiddleware(policy)
    }
}

} // verus!
