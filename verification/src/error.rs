//! How a chain can fail.

use vstd::prelude::*;

verus! {

/// The failure of a chain. Each kind ends the chain at once; none is retried.
#[derive(Debug)]
pub enum ChainError {
    /// The request could not be duplicated before an attempt: its body cannot
    /// be replayed. Nothing was sent for that attempt.
    DuplicationFailure,
    /// The policy had already asked for `ceiling` further attempts when the
    /// next outcome arrived.
    CeilingExceeded { ceiling: u32 },
    /// The policy itself failed while it decided.
    PolicyFailure(reqwest_middleware::Error),
    /// The transport failed, and the policy completed the chain with that
    /// failure.
    TransportFailure(reqwest_middleware::Error),
}

} // verus!
