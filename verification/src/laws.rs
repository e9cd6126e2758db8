//! What holds of every run of a chain.

use vstd::prelude::*;
use crate::chainable::ChainAction;
use crate::error::ChainError;
use crate::model::{observed, returned, run, sent, settle, step, Event, Stage};

verus! {

/// How the length of a run and the sequences of what was sent, returned and
/// observed go with the stage that the run has reached.
spec fn accounted(ceiling: u32, events: Seq<Event>, stage: Stage) -> bool {
    let attempts = sent(events).len();
    &&& returned(events).len() <= attempts <= ceiling + 1
    &&& match stage {
        Stage::Ready { retries } => {
            &&& retries <= ceiling
            &&& events.len() == 3 * retries
            &&& attempts == retries
            &&& returned(events).len() == retries
            &&& observed(ceiling, events) == returned(events)
        },
        Stage::Attempting { retries } => {
            &&& retries <= ceiling
            &&& events.len() == 3 * retries + 1
            &&& attempts == retries + 1
            &&& returned(events).len() == retries
            &&& observed(ceiling, events) == returned(events)
        },
        Stage::Deciding { retries } => {
            &&& retries < ceiling
            &&& events.len() == 3 * retries + 2
            &&& attempts == retries + 1
            &&& returned(events).len() == retries + 1
            &&& observed(ceiling, events) == returned(events)
        },
        Stage::Terminated { result } => match result {
            Err(ChainError::DuplicationFailure) => {
                &&& attempts <= ceiling
                &&& events.len() == 3 * attempts + 1
                &&& returned(events).len() == attempts
                &&& observed(ceiling, events) == returned(events)
                &&& events.last() == Event::Duplicated(None)
            },
            Err(ChainError::CeilingExceeded { ceiling: reported }) => {
                &&& reported == ceiling
                &&& events.len() == 3 * ceiling + 2
                &&& attempts == ceiling + 1
                &&& returned(events).len() == ceiling + 1
                &&& observed(ceiling, events) == returned(events).drop_last()
                &&& events.last() is Returned
            },
            _ => {
                &&& 1 <= attempts <= ceiling
                &&& events.len() == 3 * attempts
                &&& returned(events).len() == attempts
                &&& observed(ceiling, events) == returned(events)
                &&& events.last() matches Event::Decided(decision) && settle(decision) == Some(
                    result,
                )
            },
        },
    }
}

/// Every run is accounted for.
proof fn lemma_accounted(ceiling: u32, events: Seq<Event>)
    requires
        run(ceiling, events) is Some,
    ensures
        accounted(ceiling, events, run(ceiling, events)->Some_0),
    decreases events.len(),
{
    if events.len() > 0 {
        let before = events.drop_last();
        lemma_accounted(ceiling, before);
        if let Event::Returned(outcome) = events.last() {
            assert(returned(events).drop_last() =~= returned(before));
        }
    }
}

/// One more event takes a run one step further. This is how the laws below
/// reach a chain that is driven step by step: each step of the executor moves
/// the chain as `step` says, so the chain always stands where `run` says,
/// for the events that have arrived so far.
pub proof fn run_follows_steps(ceiling: u32, events: Seq<Event>, event: Event)
    ensures
        run(ceiling, events.push(event)) == match run(ceiling, events) {
            Some(stage) => step(ceiling, stage, event),
            None => None,
        },
{
    assert(events.push(event).drop_last() =~= events);
}

/// A chain is bounded, whatever the policy decides: in every run the policy
/// is consulted at most `ceiling` times and the transport is called at most
/// `ceiling + 1` times, and no run is longer than `3 * ceiling + 2` events.
pub proof fn chain_is_bounded(ceiling: u32, events: Seq<Event>)
    requires
        run(ceiling, events) is Some,
    ensures
        observed(ceiling, events).len() <= ceiling,
        returned(events).len() <= sent(events).len() <= ceiling + 1,
        events.len() <= 3 * ceiling + 2,
{
    lemma_accounted(ceiling, events);
}

/// A policy that always asks for another attempt is stopped at the ceiling.
/// Take a run in which every duplication succeeds and every decision is
/// `Retry`. It is over exactly when it is `3 * ceiling + 2` events long, and
/// then it has ended with `CeilingExceeded`, which carries the ceiling; the
/// policy has been consulted exactly `ceiling` times, and the transport has
/// been called once more than that: the outcome of the last call arrived at
/// the ceiling and was dropped unseen.
pub proof fn always_retry_ends_at_ceiling(ceiling: u32, events: Seq<Event>)
    requires
        run(ceiling, events) is Some,
        forall|i: int| 0 <= i < events.len() ==> #[trigger] events[i] != Event::Duplicated(None),
        forall|i: int|
            0 <= i < events.len() && #[trigger] events[i] is Decided ==> events[i]
                == Event::Decided(Ok(ChainAction::Retry)),
    ensures
        events.len() <= 3 * ceiling + 2,
        run(ceiling, events)->Some_0 is Terminated <==> events.len() == 3 * ceiling + 2,
        run(ceiling, events)->Some_0 is Terminated ==> {
            &&& run(ceiling, events) == Some(
                Stage::Terminated { result: Err(ChainError::CeilingExceeded { ceiling }) },
            )
            &&& observed(ceiling, events).len() == ceiling
            &&& sent(events).len() == ceiling + 1
        },
{
    lemma_accounted(ceiling, events);
    if events.len() > 0 {
        let last = events[events.len() - 1];
        assert(last is Decided ==> last == Event::Decided(Ok(ChainAction::Retry)));
    }
}

/// A request that cannot be duplicated is never sent. A run whose first
/// duplication fails is over with that event: it has ended with
/// `DuplicationFailure`, and nothing went to the transport.
pub proof fn unrepeatable_request_is_never_sent(ceiling: u32, events: Seq<Event>)
    requires
        run(ceiling, events) is Some,
        events.len() > 0,
        events[0] == Event::Duplicated(None),
    ensures
        events.len() == 1,
        run(ceiling, events) == Some(
            Stage::Terminated { result: Err(ChainError::DuplicationFailure) },
        ),
        sent(events).len() == 0,
        returned(events).len() == 0,
    decreases events.len(),
{
    let before = events.drop_last();
    if before.len() > 0 {
        assert(before[0] == events[0]);
        unrepeatable_request_is_never_sent(ceiling, before);
        assert(run(ceiling, events) == step(ceiling, run(ceiling, before)->Some_0, events.last()));
    } else {
        assert(events.last() == events[0]);
        assert(sent(before).len() == 0);
        assert(returned(before).len() == 0);
    }
}

/// Termination is final. Once a run has ended, no event continues it: the
/// chain sends nothing more and consults the policy no more.
pub proof fn terminated_is_final(ceiling: u32, events: Seq<Event>, more: Seq<Event>)
    requires
        run(ceiling, events) matches Some(stage) && stage is Terminated,
        more.len() > 0,
    ensures
        run(ceiling, events + more) is None,
    decreases more.len(),
{
    let longer = events + more;
    assert(longer.drop_last() =~= events + more.drop_last());
    assert(longer.last() == more.last());
    if more.len() > 1 {
        terminated_is_final(ceiling, events, more.drop_last());
    } else {
        assert(events + more.drop_last() =~= events);
    }
}

/// The result of a chain tells why it ended, and how much was done.
///
/// - A run that has ended with `DuplicationFailure` ended on a duplication
///   that failed. Every duplicate sent before that was answered and its
///   outcome seen by the policy, and there were at most `ceiling` of them.
/// - A run that has ended with `CeilingExceeded` ended on an outcome that
///   arrived at the ceiling, and reports that ceiling. `ceiling + 1`
///   duplicates were sent and answered, and the policy saw all outcomes but
///   the last.
/// - Every other result is the one that the last decision of the policy
///   settled on. As many duplicates were sent as outcomes returned and seen
///   by the policy: at least one, and at most `ceiling`.
pub proof fn ending_tells_its_cause(
    ceiling: u32,
    events: Seq<Event>,
    result: Result<reqwest::Response, ChainError>,
)
    requires
        run(ceiling, events) == Some(Stage::Terminated { result }),
    ensures
        events.len() > 0,
        match result {
            Err(ChainError::DuplicationFailure) => {
                &&& events.last() == Event::Duplicated(None)
                &&& sent(events).len() <= ceiling
                &&& returned(events).len() == sent(events).len()
                &&& observed(ceiling, events).len() == sent(events).len()
                &&& events.len() == 3 * sent(events).len() + 1
            },
            Err(ChainError::CeilingExceeded { ceiling: reported }) => {
                &&& events.last() is Returned
                &&& reported == ceiling
                &&& sent(events).len() == ceiling + 1
                &&& returned(events).len() == ceiling + 1
                &&& observed(ceiling, events).len() == ceiling
                &&& events.len() == 3 * ceiling + 2
            },
            _ => {
                &&& events.last() matches Event::Decided(decision) && settle(decision) == Some(
                    result,
                )
                &&& 1 <= sent(events).len() <= ceiling
                &&& returned(events).len() == sent(events).len()
                &&& observed(ceiling, events).len() == sent(events).len()
                &&& events.len() == 3 * sent(events).len()
            },
        },
{
    lemma_accounted(ceiling, events);
}

/// While a chain is under way, its counter tells how much was done. With
/// `retries` retries behind it, a chain between attempts has sent `retries`
/// duplicates, and each was answered and its outcome seen by the policy. A
/// chain that awaits an outcome has sent one more. A chain that awaits a
/// decision has sent, got back and shown to the policy `retries + 1`, and
/// stands below its ceiling.
pub proof fn counter_tells_the_work_done(ceiling: u32, events: Seq<Event>)
    requires
        run(ceiling, events) is Some,
    ensures
        match run(ceiling, events)->Some_0 {
            Stage::Ready { retries } => {
                &&& retries <= ceiling
                &&& sent(events).len() == retries
                &&& returned(events).len() == retries
                &&& observed(ceiling, events).len() == retries
                &&& events.len() == 3 * retries
            },
            Stage::Attempting { retries } => {
                &&& retries <= ceiling
                &&& sent(events).len() == retries + 1
                &&& returned(events).len() == retries
                &&& observed(ceiling, events).len() == retries
                &&& events.len() == 3 * retries + 1
            },
            Stage::Deciding { retries } => {
                &&& retries < ceiling
                &&& sent(events).len() == retries + 1
                &&& returned(events).len() == retries + 1
                &&& observed(ceiling, events).len() == retries + 1
                &&& events.len() == 3 * retries + 2
            },
            Stage::Terminated { .. } => true,
        },
{
    lemma_accounted(ceiling, events);
}

/// The policy sees the outcomes in the order in which the transport returned
/// them, each once and none left out, but for one case: where the run has
/// ended with `CeilingExceeded`, the last outcome was dropped unseen.
pub proof fn policy_observes_outcomes_in_order(ceiling: u32, events: Seq<Event>)
    requires
        run(ceiling, events) is Some,
    ensures
        match run(ceiling, events) {
            Some(Stage::Terminated { result: Err(ChainError::CeilingExceeded { .. }) }) => {
                &&& returned(events).len() > 0
                &&& observed(ceiling, events) == returned(events).drop_last()
            },
            _ => observed(ceiling, events) == returned(events),
        },
{
    lemma_accounted(ceiling, events);
}

} // verus!
