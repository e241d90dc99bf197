//! The order of work in a batch fan-out: creating a batch and cancelling one
//! both admit the request first, then call each provider in turn, stop at
//! the first call that fails, and write the virtual batch only after every
//! provider call went through. The handlers perform the actions and report
//! back each call's outcome.

use vstd::prelude::*;

verus! {

/// Where a fan-out over `provider_count` providers stands.
#[derive(Clone, Copy, Debug, PartialEq, Eq, Structural)]
pub struct FanoutState {
    pub provider_count: usize,
    /// How many provider calls went through.
    pub completed: usize,
    /// Whether the fan-out ended: refused, failed, or handed to persistence.
    pub finished: bool,
}

/// The outcome of the provider call that was asked for last.
#[derive(Clone, Copy, Debug, PartialEq, Eq, Structural)]
pub enum FanoutEvent {
    CallSucceeded,
    CallFailed,
}

/// What the handler does next.
#[derive(Clone, Copy, Debug, PartialEq, Eq, Structural)]
pub enum FanoutAction {
    /// Call the provider at this index (and write back its record).
    CallProvider(usize),
    /// Every provider call went through: write the virtual batch.
    PersistVirtualBatch,
    /// Answer with the error at hand; nothing more is written.
    Fail,
    /// The fan-out has ended; nothing is left to do.
    Idle,
}

pub open spec fn spec_fanout_start(admitted: bool, provider_count: usize) -> (FanoutState, FanoutAction) {
    if !admitted {
        (FanoutState { provider_count, completed: 0, finished: true }, FanoutAction::Fail)
    } else if provider_count == 0 {
        (FanoutState { provider_count, completed: 0, finished: true }, FanoutAction::PersistVirtualBatch)
    } else {
        (FanoutState { provider_count, completed: 0, finished: false }, FanoutAction::CallProvider(0))
    }
}

pub open spec fn spec_fanout_step(s: FanoutState, e: FanoutEvent) -> (FanoutState, FanoutAction) {
    if s.finished || s.completed >= s.provider_count {
        (FanoutState { finished: true, ..s }, FanoutAction::Idle)
    } else {
        match e {
            FanoutEvent::CallFailed => (FanoutState { finished: true, ..s }, FanoutAction::Fail),
            FanoutEvent::CallSucceeded => {
                let next = (s.completed + 1) as usize;
                if next < s.provider_count {
                    (FanoutState { completed: next, ..s }, FanoutAction::CallProvider(next))
                } else {
                    (
                        FanoutState { completed: next, finished: true, ..s },
                        FanoutAction::PersistVirtualBatch,
                    )
                }
            },
        }
    }
}

/// The state and the last action after a fan-out was started and then told
/// the outcomes `events`, in order.
pub open spec fn fanout_run(admitted: bool, provider_count: usize, events: Seq<FanoutEvent>) -> (
    FanoutState,
    FanoutAction,
)
    decreases events.len(),
{
    if events.len() == 0 {
        spec_fanout_start(admitted, provider_count)
    } else {
        spec_fanout_step(fanout_run(admitted, provider_count, events.drop_last()).0, events.last())
    }
}

pub open spec fn all_succeeded(events: Seq<FanoutEvent>) -> bool {
    forall|i: int| 0 <= i < events.len() ==> #[trigger] events[i] == FanoutEvent::CallSucceeded
}

/// Starts a fan-out over `provider_count` providers once the request was
/// checked: a refused request fails at once and calls no provider; with no
/// provider the virtual batch is written at once; otherwise the first
/// provider is called.
pub fn fanout_start(admitted: bool, provider_count: usize) -> (r: (FanoutState, FanoutAction))
    ensures
        r == spec_fanout_start(admitted, provider_count),
{
    if !admitted {
        (FanoutState { provider_count, completed: 0, finished: true }, FanoutAction::Fail)
    } else if provider_count == 0 {
        (FanoutState { provider_count, completed: 0, finished: true }, FanoutAction::PersistVirtualBatch)
    } else {
        (FanoutState { provider_count, completed: 0, finished: false }, FanoutAction::CallProvider(0))
    }
}

/// The next step of a fan-out after the outcome of the last provider call:
/// a failure ends it with the error, a success moves to the next provider
/// or, after the last one, to writing the virtual batch.
pub fn fanout_step(state: FanoutState, event: FanoutEvent) -> (r: (FanoutState, FanoutAction))
    ensures
        r == spec_fanout_step(state, event),
{
    if state.finished || state.completed >= state.provider_count {
        return (FanoutState { finished: true, ..state }, FanoutAction::Idle);
    }
    match event {
        FanoutEvent::CallFailed => (FanoutState { finished: true, ..state }, FanoutAction::Fail),
        FanoutEvent::CallSucceeded => {
            let next = state.completed + 1;
            if next < state.provider_count {
                (FanoutState { completed: next, ..state }, FanoutAction::CallProvider(next))
            } else {
                (
                    FanoutState { completed: next, finished: true, ..state },
                    FanoutAction::PersistVirtualBatch,
                )
            }
        },
    }
}

/// What holds after any run: the count stays, a running fan-out was admitted
/// and has seen only successes, one per call, and each action is explained
/// by the outcomes before it.
proof fn lemma_fanout_run(admitted: bool, provider_count: usize, events: Seq<FanoutEvent>)
    ensures
        ({
            let (s, a) = fanout_run(admitted, provider_count, events);
            &&& s.provider_count == provider_count
            &&& !s.finished ==> admitted && s.completed == events.len() && s.completed
                < provider_count && all_succeeded(events)
            &&& a matches FanoutAction::CallProvider(i) ==> !s.finished && i == events.len()
            &&& a == FanoutAction::PersistVirtualBatch ==> admitted && events.len()
                == provider_count && all_succeeded(events)
            &&& a == FanoutAction::Fail ==> s.finished
        }),
    decreases events.len(),
{
    if events.len() > 0 {
        let pre = events.drop_last();
        lemma_fanout_run(admitted, provider_count, pre);
        assert forall|i: int| 0 <= i < pre.len() implies #[trigger] pre[i] == events[i] by {}
        if events.last() == FanoutEvent::CallSucceeded {
            assert forall|i: int| 0 <= i < events.len() && all_succeeded(pre) implies #[trigger] events[i]
                == FanoutEvent::CallSucceeded by {
                if i < pre.len() {
                    assert(pre[i] == events[i]);
                }
            }
        }
    }
}

/// The virtual batch is written only after every provider was called and
/// every call succeeded, and only for an admitted request.
pub proof fn law_fanout_persists_only_after_every_call_succeeded(
    admitted: bool,
    provider_count: usize,
    events: Seq<FanoutEvent>,
)
    requires
        fanout_run(admitted, provider_count, events).1 == FanoutAction::PersistVirtualBatch,
    ensures
        admitted,
        events.len() == provider_count,
        forall|i: int| 0 <= i < events.len() ==> #[trigger] events[i] == FanoutEvent::CallSucceeded,
{
    lemma_fanout_run(admitted, provider_count, events);
}

/// Providers are called one after another, in order: the provider called
/// next is the one after those whose calls succeeded, and none is called
/// after a refusal or a failure.
pub proof fn law_fanout_calls_providers_in_order(
    admitted: bool,
    provider_count: usize,
    events: Seq<FanoutEvent>,
    index: usize,
)
    requires
        fanout_run(admitted, provider_count, events).1 == FanoutAction::CallProvider(index),
    ensures
        admitted,
        index == events.len(),
        index < provider_count,
        forall|i: int| 0 <= i < events.len() ==> #[trigger] events[i] == FanoutEvent::CallSucceeded,
{
    lemma_fanout_run(admitted, provider_count, events);
}

/// A fan-out that saw a failed call neither calls another provider nor
/// writes the virtual batch, whatever outcomes are reported afterwards.
pub proof fn law_fanout_stops_at_first_failure(
    admitted: bool,
    provider_count: usize,
    events: Seq<FanoutEvent>,
    failed_at: int,
)
    requires
        0 <= failed_at < events.len(),
        events[failed_at] == FanoutEvent::CallFailed,
    ensures
        !(fanout_run(admitted, provider_count, events).1 is CallProvider),
        fanout_run(admitted, provider_count, events).1 != FanoutAction::PersistVirtualBatch,
{
    lemma_fanout_run(admitted, provider_count, events);
}

/// A refused request calls no provider and writes no batch, whatever
/// outcomes are reported afterwards.
pub proof fn law_fanout_refusal_calls_no_provider(provider_count: usize, events: Seq<FanoutEvent>)
    ensures
        !(fanout_run(false, provider_count, events).1 is CallProvider),
        fanout_run(false, provider_count, events).1 != FanoutAction::PersistVirtualBatch,
{
    lemma_fanout_run(false, provider_count, events);
}

} // verus!
