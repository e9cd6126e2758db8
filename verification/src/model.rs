//! The chain as a mathematical state machine.
//!
//! A chain moves through stages. At each stage it awaits exactly one kind of
//! event from its surroundings, and the event decides the next stage:
//!
//! ```text
//! Ready --duplicated--> Attempting --returned--> Deciding --decided--> Ready
//!   |                       |                        |
//!   | not repeatable        | at the ceiling         | completed, or failed
//!   v                       v                        v
//!                      Terminated
//! ```

use vstd::prelude::*;
use crate::chainable::ChainAction;
use crate::error::ChainError;
use crate::transport::AttemptOutcome;

verus! {

/// Where a chain stands.
pub enum Stage {
    /// Between attempts: the request is about to be duplicated. `retries` is
    /// the number of times the policy has asked for another attempt.
    Ready { retries: nat },
    /// A duplicate is with the transport; its outcome is awaited.
    Attempting { retries: nat },
    /// The outcome is with the policy; its decision is awaited.
    Deciding { retries: nat },
    /// The chain is over, with the result that the caller receives.
    Terminated { result: Result<reqwest::Response, ChainError> },
}

/// What the surroundings of a chain report to it.
pub enum Event {
    /// The request was duplicated (`Some`), or cannot be (`None`).
    Duplicated(Option<reqwest::Request>),
    /// The transport returned the outcome of the attempt.
    Returned(AttemptOutcome),
    /// The policy returned its decision, or failed.
    Decided(Result<ChainAction, reqwest_middleware::Error>),
}

/// The result with which a decision ends the chain; `None` for a decision
/// that asks for another attempt.
pub open spec fn settle(decision: Result<ChainAction, reqwest_middleware::Error>) -> Option<
    Result<reqwest::Response, ChainError>,
> {
    match decision {
        Err(failure) => Some(Err(ChainError::PolicyFailure(failure))),
        Ok(ChainAction::Complete(Ok(response))) => Some(Ok(response)),
        Ok(ChainAction::Complete(Err(failure))) => Some(Err(ChainError::TransportFailure(failure))),
        Ok(ChainAction::Retry) => None,
    }
}

/// The stage after `event` arrives at `stage`, for a chain whose ceiling is
/// `ceiling`; `None` where the stage does not await that kind of event. A
/// terminated chain awaits none.
pub open spec fn step(ceiling: u32, stage: Stage, event: Event) -> Option<Stage> {
    match (stage, event) {
        (Stage::Ready { retries }, Event::Duplicated(None)) => Some(
            Stage::Terminated { result: Err(ChainError::DuplicationFailure) },
        ),
        (Stage::Ready { retries }, Event::Duplicated(Some(_))) => Some(Stage::Attempting { retries }),
        (Stage::Attempting { retries }, Event::Returned(_)) => if retries >= ceiling {
            Some(Stage::Terminated { result: Err(ChainError::CeilingExceeded { ceiling }) })
        } else {
            Some(Stage::Deciding { retries })
        },
        (Stage::Deciding { retries }, Event::Decided(decision)) => match settle(decision) {
            Some(result) => Some(Stage::Terminated { result }),
            None => Some(Stage::Ready { retries: retries + 1 }),
        },
        _ => None,
    }
}

/// The stage that a new chain reaches when `events` arrive one after the
/// other; `None` where some event arrives that the chain does not await at
/// that moment. Such a sequence is no run of a chain.
pub open spec fn run(ceiling: u32, events: Seq<Event>) -> Option<Stage>
    decreases events.len(),
{
    if events.len() == 0 {
        Some(Stage::Ready { retries: 0 })
    } else {
        match run(ceiling, events.drop_last()) {
            Some(stage) => step(ceiling, stage, events.last()),
            None => None,
        }
    }
}

/// The duplicates that went to the transport during a run, in the order in
/// which they were made.
pub open spec fn sent(events: Seq<Event>) -> Seq<reqwest::Request>
    decreases events.len(),
{
    if events.len() == 0 {
        Seq::empty()
    } else {
        let before = sent(events.drop_last());
        match events.last() {
            Event::Duplicated(Some(duplicate)) => before.push(duplicate),
            _ => before,
        }
    }
}

/// The outcomes that the transport returned during a run, in the order in
/// which they came.
pub open spec fn returned(events: Seq<Event>) -> Seq<AttemptOutcome>
    decreases events.len(),
{
    if events.len() == 0 {
        Seq::empty()
    } else {
        let before = returned(events.drop_last());
        match events.last() {
            Event::Returned(outcome) => before.push(outcome),
            _ => before,
        }
    }
}

/// The outcomes that were handed to the policy during a run, in the order in
/// which it saw them: an outcome is handed on when its arrival takes the
/// chain to [`Stage::Deciding`].
pub open spec fn observed(ceiling: u32, events: Seq<Event>) -> Seq<AttemptOutcome>
    decreases events.len(),
{
    if events.len() == 0 {
        Seq::empty()
    } else {
        let before = observed(ceiling, events.drop_last());
        match (run(ceiling, events), events.last()) {
            (Some(Stage::Deciding { .. }), Event::Returned(outcome)) => before.push(outcome),
            _ => before,
        }
    }
}

} // verus!
