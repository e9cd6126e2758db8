//! The chain executor: the steps that drive one chain from its first attempt
//! to its result.
//!
//! Each step consumes the chain at one stage and returns it at the next, so a
//! chain cannot be stepped out of order, and a terminated chain cannot be
//! stepped at all. The caller does what lies between the steps: it sends the
//! duplicate that [`Chain::attempt`] hands out, and it calls the policy with
//! the outcome that [`Attempting::receive`] hands out and with the state and
//! request that [`Deciding::policy_access`] lends.

use vstd::prelude::*;
use crate::chainable::ChainAction;
use crate::error::ChainError;
use crate::model::{settle, step, Event, Stage};
use crate::transport::{duplicate_of, AttemptOutcome};

verus! {

/// The view of a chain: what it holds at one moment.
pub struct ChainView<S> {
    /// The request as the policy last left it.
    pub request: reqwest::Request,
    /// The state that the policy keeps for this chain.
    pub state: S,
    /// How many times the policy has asked for another attempt.
    pub retries: nat,
    /// How many times it may.
    pub ceiling: u32,
}

/// The retries of a chain, counted against its ceiling.
struct Tally {
    n_past_retries: u32,
    max_chain_length: u32,
}

/// A tally with room for one more retry.
struct OpenTally {
    n_past_retries: u32,
    max_chain_length: u32,
}

/// A chain between attempts.
pub struct Chain<S> {
    request: reqwest::Request,
    state: S,
    tally: Tally,
}

/// A chain whose duplicate is with the transport.
pub struct Attempting<S> {
    chain: Chain<S>,
}

/// A chain whose latest outcome is with the policy.
pub struct Deciding<S> {
    request: reqwest::Request,
    state: S,
    tally: OpenTally,
}

/// The chain after [`Chain::attempt`].
pub enum Attempt<S> {
    /// Send the duplicate, then report its outcome to the chain.
    Send(Attempting<S>, reqwest::Request),
    /// The chain is over.
    Terminated(ChainError),
}

/// The chain after [`Attempting::receive`].
pub enum Received<S> {
    /// Call the policy with the outcome, then report its decision to the chain.
    Consult(Deciding<S>, AttemptOutcome),
    /// The chain is over.
    Terminated(ChainError),
}

/// The chain after [`Deciding::conclude`].
pub enum Conclusion<S> {
    /// Make another attempt.
    Retry(Chain<S>),
    /// The chain is over.
    Terminated(Result<reqwest::Response, ChainError>),
}

impl Tally {
    #[verifier::type_invariant]
    spec fn within_ceiling(self) -> bool {
        self.n_past_retries <= self.max_chain_length
    }
}

impl OpenTally {
    #[verifier::type_invariant]
    spec fn below_ceiling(self) -> bool {
        self.n_past_retries < self.max_chain_length
    }
}

impl<S> View for Chain<S> {
    type V = ChainView<S>;

    closed spec fn view(&self) -> ChainView<S> {
        ChainView {
            request: self.request,
            state: self.state,
            retries: self.tally.n_past_retries as nat,
            ceiling: self.tally.max_chain_length,
        }
    }
}

impl<S> View for Attempting<S> {
    type V = ChainView<S>;

    closed spec fn view(&self) -> ChainView<S> {
        self.chain@
    }
}

impl<S> View for Deciding<S> {
    type V = ChainView<S>;

    closed spec fn view(&self) -> ChainView<S> {
        ChainView {
            request: self.request,
            state: self.state,
            retries: self.tally.n_past_retries as nat,
            ceiling: self.tally.max_chain_length,
        }
    }
}

impl<S> Chain<S> {
    /// The stage of the state machine at which this chain stands.
    pub open spec fn stage(&self) -> Stage {
        Stage::Ready { retries: self@.retries }
    }

    /// Starts a chain for `request`, with a fresh default state and no retry
    /// behind it.
    pub fn new(request: reqwest::Request, max_chain_length: u32) -> (chain: Self) where
        S: Default,

        ensures
            chain@.request == request,
            call_ensures(S::default, (), chain@.state),
            chain@.retries == 0,
            chain@.ceiling == max_chain_length,
    {
        Chain { request, state: S::default(), tally: Tally { n_past_retries: 0, max_chain_length } }
    }

    /// How many times the policy has asked for another attempt so far. It is
    /// never more than the ceiling.
    pub fn n_past_retries(&self) -> (retries: u32)
        ensures
            retries == self@.retries,
            retries <= self@.ceiling,
    {
        proof {
            use_type_invariant(&self.tally);
        }
        self.tally.n_past_retries
    }

    /// The ceiling of this chain.
    pub fn max_chain_length(&self) -> (ceiling: u32)
        ensures
            ceiling == self@.ceiling,
    {
        self.tally.max_chain_length
    }

    /// Begins an attempt with the duplicate that the caller made of the
    /// request: the duplicate goes out unchanged, and without one the chain
    /// ends.
    pub fn attempt_with(self, duplicate: Option<reqwest::Request>) -> (attempt: Attempt<S>)
        ensures
            match duplicate {
                Some(copy) => attempt matches Attempt::Send(attempting, sent) && sent == copy
                    && attempting@ == self@,
                None => attempt == Attempt::<S>::Terminated(ChainError::DuplicationFailure),
            },
            Some(attempt.stage()) == step(self@.ceiling, self.stage(), Event::Duplicated(duplicate)),
    {
        match duplicate {
            Some(copy) => Attempt::Send(Attempting { chain: self }, copy),
            None => Attempt::Terminated(ChainError::DuplicationFailure),
        }
    }

    /// Begins an attempt: duplicates the request as it stands now, once, and
    /// hands the duplicate out to be sent. Where the request has no duplicate
    /// the chain ends with [`ChainError::DuplicationFailure`], and nothing is
    /// sent.
    pub fn attempt(self) -> (attempt: Attempt<S>)
        ensures
            match duplicate_of(self@.request) {
                Some(copy) => attempt matches Attempt::Send(attempting, sent) && sent == copy
                    && attempting@ == self@,
                None => attempt == Attempt::<S>::Terminated(ChainError::DuplicationFailure),
            },
            Some(attempt.stage()) == step(
                self@.ceiling,
                self.stage(),
                Event::Duplicated(duplicate_of(self@.request)),
            ),
    {
        let duplicate = self.request.try_clone();
        self.attempt_with(duplicate)
    }
}

impl<S> Attempt<S> {
    /// The stage of the state machine at which this chain stands.
    pub open spec fn stage(&self) -> Stage {
        match self {
            Attempt::Send(attempting, _) => attempting.stage(),
            Attempt::Terminated(error) => Stage::Terminated { result: Err(*error) },
        }
    }
}

impl<S> Attempting<S> {
    /// The stage of the state machine at which this chain stands.
    pub open spec fn stage(&self) -> Stage {
        Stage::Attempting { retries: self@.retries }
    }

    /// Takes the outcome of the attempt. Where the policy has already asked
    /// for as many attempts as the ceiling allows, the chain ends with
    /// [`ChainError::CeilingExceeded`], whatever the outcome was. Otherwise the
    /// outcome is handed on, unchanged, for the policy to see.
    pub fn receive(self, outcome: AttemptOutcome) -> (received: Received<S>)
        ensures
            if self@.retries >= self@.ceiling {
                received == Received::<S>::Terminated(
                    ChainError::CeilingExceeded { ceiling: self@.ceiling },
                )
            } else {
                received matches Received::Consult(deciding, handed) && handed == outcome
                    && deciding@ == self@
            },
            Some(received.stage()) == step(self@.ceiling, self.stage(), Event::Returned(outcome)),
    {
        let Attempting { chain } = self;
        let Chain { request, state, tally } = chain;
        let Tally { n_past_retries, max_chain_length } = tally;
        if n_past_retries >= max_chain_length {
            Received::Terminated(ChainError::CeilingExceeded { ceiling: max_chain_length })
        } else {
            let tally = OpenTally { n_past_retries, max_chain_length };
            Received::Consult(Deciding { request, state, tally }, outcome)
        }
    }
}

impl<S> Received<S> {
    /// The stage of the state machine at which this chain stands.
    pub open spec fn stage(&self) -> Stage {
        match self {
            Received::Consult(deciding, _) => deciding.stage(),
            Received::Terminated(error) => Stage::Terminated { result: Err(*error) },
        }
    }
}

impl<S> Deciding<S> {
    /// The stage of the state machine at which this chain stands.
    pub open spec fn stage(&self) -> Stage {
        Stage::Deciding { retries: self@.retries }
    }

    /// Lends the policy the state of the chain and the request, to rewrite as
    /// it sees fit. Whatever it leaves there is what the chain holds
    /// afterwards; the counters are out of its reach.
    pub fn policy_access(&mut self) -> (lent: (&mut S, &mut reqwest::Request))
        ensures
            *lent.0 == old(self)@.state,
            *lent.1 == old(self)@.request,
            final(self)@ == (ChainView {
                state: *final(lent.0),
                request: *final(lent.1),
                ..old(self)@
            }),
    {
        (&mut self.state, &mut self.request)
    }

    /// Takes the decision of the policy. A decision to retry counts one more
    /// retry and readies the chain for the next attempt, with the request and
    /// the state as the policy left them. Any other decision ends the chain:
    /// a completion with its outcome, a failure of the policy with that
    /// failure.
    pub fn conclude(self, decision: Result<ChainAction, reqwest_middleware::Error>) -> (conclusion:
        Conclusion<S>)
        ensures
            match settle(decision) {
                Some(result) => conclusion == Conclusion::<S>::Terminated(result),
                None => conclusion matches Conclusion::Retry(chain) && chain@ == (ChainView {
                    retries: self@.retries + 1,
                    ..self@
                }) && chain@.retries <= chain@.ceiling,
            },
            Some(conclusion.stage()) == step(self@.ceiling, self.stage(), Event::Decided(decision)),
    {
        proof {
            use_type_invariant(&self.tally);
        }
        match decision {
            Err(failure) => Conclusion::Terminated(Err(ChainError::PolicyFailure(failure))),
            Ok(ChainAction::Complete(Ok(response))) => Conclusion::Terminated(Ok(response)),
            Ok(ChainAction::Complete(Err(failure))) => Conclusion::Terminated(
                Err(ChainError::TransportFailure(failure)),
            ),
            Ok(ChainAction::Retry) => {
                let Deciding { request, state, tally } = self;
                let OpenTally { n_past_retries, max_chain_length } = tally;
                let tally = Tally { n_past_retries: n_past_retries + 1, max_chain_length };
                Conclusion::Retry(Chain { request, state, tally })
            },
        }
    }
}

impl<S> Conclusion<S> {
    /// The stage of the state machine at which this chain stands.
    pub open spec fn stage(&self) -> Stage {
        match self {
            Conclusion::Retry(chain) => chain.stage(),
            Conclusion::Terminated(result) => Stage::Terminated { result: *result },
        }
    }
}

} // verus!
