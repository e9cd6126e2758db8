//! A retry decision engine for HTTP requests sent through `reqwest`.
//!
//! A *chain* is one logical request: it is sent, the outcome is shown to a
//! caller-supplied policy, and the policy either completes the chain or
//! rewrites the request so that it is sent again. The number of times the
//! policy may ask for another attempt is bounded by a ceiling.
//!
//! The engine never waits for anything itself. It is a state machine: every
//! step consumes the chain at one stage and returns the chain at the next
//! stage together with what the caller has to do (send a duplicate, consult
//! the policy, hand the final result back).
//!
//! - [`chainable`]: what a policy says to the engine.
//! - [`middleware`]: the steps of the executor.
//! - [`model`]: the chain as a mathematical state machine, which the steps
//!   follow.
//! - [`laws`]: what is proved of every run of that machine.
//! - [`error`]: how a chain can fail.
//! - [`transport`]: the requests, responses and errors of the HTTP client.

pub mod chainable;
pub mod error;
pub mod laws;
pub mod middleware;
pub mod model;
pub mod transport;

pub use chainable::{ChainAction, ChainMiddleware, DEFAULT_MAXIMUM_CHAIN_LENGTH};
pub use error::ChainError;
pub use middleware::{Attempt, Attempting, Chain, ChainView, Conclusion, Deciding, Received};
pub use transport::{duplicate_of, AttemptOutcome};
