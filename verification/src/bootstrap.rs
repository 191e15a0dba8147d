//! Step functions of the connection bring-up state machine and of the
//! running event loop. The surrounding process drives the opaque
//! connection (iterate, read state, subscribe, quit, disconnect) and asks
//! these functions what to do after each observation.

use vstd::prelude::*;

verus! {

/// The connection's bring-up state, as the core reads it. `Connecting`
/// stands for every transitional state before the connection is usable.
#[derive(Clone, Copy, PartialEq, Eq, Structural, Debug)]
pub enum ConnectionState {
    Connecting,
    Ready,
    Failed,
    Terminated,
}

/// What one call of the connection's iterate-once operation reported.
#[derive(Clone, Copy, PartialEq, Eq, Structural, Debug)]
pub enum IterateOutcome {
    /// The loop made progress (possibly none was needed).
    Progressed,
    /// The underlying loop ended.
    Ended,
    /// The underlying loop errored.
    Errored,
}

/// The decision after one bring-up iteration.
#[derive(Clone, Copy, PartialEq, Eq, Structural, Debug)]
pub enum BootstrapStep {
    /// Keep iterating: the connection is still on its way up.
    Continue,
    /// The connection is ready: stop iterating and subscribe.
    Proceed,
    /// The iterate call reported the loop ended or errored: fatal,
    /// exit without subscribing.
    FatalIterate,
    /// The connection reached a failed or terminated state: fatal,
    /// exit without subscribing.
    FatalState,
}

/// The outcome of driving the bring-up over a whole observation sequence.
#[derive(Clone, Copy, PartialEq, Eq, Structural, Debug)]
pub enum BootstrapResult {
    /// A `Proceed` decision was reached: subscribe.
    Ready,
    /// An iterate failure was the first fatal observation.
    FatalIterate,
    /// A failed/terminated connection state was the first fatal
    /// observation.
    FatalState,
    /// Every observation said to continue: the connection is still
    /// coming up.
    Pending,
}

/// The decision after one running-phase iteration.
#[derive(Clone, Copy, PartialEq, Eq, Structural, Debug)]
pub enum RunStep {
    /// Keep pumping events.
    Continue,
    /// The iterate call reported the loop ended or errored: perform the
    /// clean shutdown sequence (quit, disconnect) and exit nonzero.
    FatalShutdown,
}

/// The bring-up decision: an iterate failure is fatal before the state is
/// even read; a ready state proceeds to subscription; a failed or
/// terminated state is fatal; anything else continues the busy-poll.
pub open spec fn spec_bootstrap_step(it: IterateOutcome, state: ConnectionState) -> BootstrapStep {
    if it is Ended || it is Errored {
        BootstrapStep::FatalIterate
    } else if state is Ready {
        BootstrapStep::Proceed
    } else if state is Failed || state is Terminated {
        BootstrapStep::FatalState
    } else {
        BootstrapStep::Continue
    }
}

/// Decides one step of the bring-up loop.
pub fn bootstrap_step(it: IterateOutcome, state: ConnectionState) -> (r: BootstrapStep)
    ensures
        r == spec_bootstrap_step(it, state),
{
    match it {
        IterateOutcome::Ended | IterateOutcome::Errored => BootstrapStep::FatalIterate,
        IterateOutcome::Progressed => match state {
            ConnectionState::Ready => BootstrapStep::Proceed,
            ConnectionState::Failed | ConnectionState::Terminated => BootstrapStep::FatalState,
            ConnectionState::Connecting => BootstrapStep::Continue,
        },
    }
}

/// The bring-up outcome over a sequence of observations: the first
/// non-continue decision settles it; a sequence of continues alone leaves
/// the bring-up pending.
pub open spec fn spec_bootstrap_outcome(
    obs: Seq<(IterateOutcome, ConnectionState)>,
) -> BootstrapResult
    decreases obs.len(),
{
    if obs.len() == 0 {
        BootstrapResult::Pending
    } else {
        match spec_bootstrap_step(obs[0].0, obs[0].1) {
            BootstrapStep::Continue => spec_bootstrap_outcome(obs.drop_first()),
            BootstrapStep::Proceed => BootstrapResult::Ready,
            BootstrapStep::FatalIterate => BootstrapResult::FatalIterate,
            BootstrapStep::FatalState => BootstrapResult::FatalState,
        }
    }
}

/// Drives the bring-up decisions over a recorded observation sequence, in
/// order, stopping at the first decisive step.
pub fn bootstrap_outcome(obs: &Vec<(IterateOutcome, ConnectionState)>) -> (r: BootstrapResult)
    ensures
        r == spec_bootstrap_outcome(obs@),
{
    let mut i: usize = 0;
    proof {
        assert(obs@.skip(0) =~= obs@);
    }
    while i < obs.len()
        invariant
            i <= obs@.len(),
            spec_bootstrap_outcome(obs@) == spec_bootstrap_outcome(obs@.skip(i as int)),
        decreases obs@.len() - i,
    {
        let (it, state) = obs[i];
        proof {
            assert(obs@.skip(i as int)[0] == obs@[i as int]);
            assert(obs@.skip(i as int).drop_first() =~= obs@.skip(i as int + 1));
        }
        match bootstrap_step(it, state) {
            BootstrapStep::Continue => {
                i = i + 1;
            },
            BootstrapStep::Proceed => {
                return BootstrapResult::Ready;
            },
            BootstrapStep::FatalIterate => {
                return BootstrapResult::FatalIterate;
            },
            BootstrapStep::FatalState => {
                return BootstrapResult::FatalState;
            },
        }
    }
    BootstrapResult::Pending
}

/// Decides one step of the running loop: a reported end or error of the
/// underlying loop is fatal and triggers the clean shutdown sequence;
/// otherwise the loop keeps pumping events.
pub fn run_step(it: IterateOutcome) -> (r: RunStep)
    ensures
        r is FatalShutdown <==> (it is Ended || it is Errored),
{
    match it {
        IterateOutcome::Ended | IterateOutcome::Errored => RunStep::FatalShutdown,
        IterateOutcome::Progressed => RunStep::Continue,
    }
}

/// Decides the reaction to the subscription request's completion report:
/// a failure is fatal.
pub fn subscription_step(success: bool) -> (fatal: bool)
    ensures
        fatal == !success,
{
    !success
}

/// Every observation strictly before `i` decides `Continue`.
pub open spec fn continues_before(obs: Seq<(IterateOutcome, ConnectionState)>, i: int) -> bool {
    forall|j: int|
        0 <= j < i ==> spec_bootstrap_step(obs[j].0, obs[j].1) == BootstrapStep::Continue
}

/// Observation `i` is the first decisive one and decides `Proceed`.
pub open spec fn proceeds_at(obs: Seq<(IterateOutcome, ConnectionState)>, i: int) -> bool {
    &&& 0 <= i < obs.len()
    &&& spec_bootstrap_step(obs[i].0, obs[i].1) == BootstrapStep::Proceed
    &&& continues_before(obs, i)
}

/// The bring-up subscribes only from a ready state: the outcome is
/// `Ready` exactly when some observation decides `Proceed` after nothing
/// but `Continue` decisions; in particular a sequence that never reaches
/// a ready state never leads to a subscription.
pub proof fn lemma_bootstrap_subscribes_only_when_ready(obs: Seq<(IterateOutcome, ConnectionState)>)
    ensures
        spec_bootstrap_outcome(obs) == BootstrapResult::Ready <==> exists|i: int|
            proceeds_at(obs, i),
    decreases obs.len(),
{
    if obs.len() == 0 {
    } else {
        let rest = obs.drop_first();
        match spec_bootstrap_step(obs[0].0, obs[0].1) {
            BootstrapStep::Proceed => {
                assert(proceeds_at(obs, 0));
            },
            BootstrapStep::Continue => {
                lemma_bootstrap_subscribes_only_when_ready(rest);
                if spec_bootstrap_outcome(obs) == BootstrapResult::Ready {
                    let i = choose|i: int| proceeds_at(rest, i);
                    assert(rest[i] == obs[i + 1]);
                    assert(continues_before(obs, i + 1)) by {
                        assert forall|j: int|
                            0 <= j < i + 1 implies spec_bootstrap_step(obs[j].0, obs[j].1)
                            == BootstrapStep::Continue by {
                            if j >= 1 {
                                assert(obs[j] == rest[j - 1]);
                            }
                        }
                    }
                    assert(proceeds_at(obs, i + 1));
                }
                if exists|i: int| proceeds_at(obs, i) {
                    let i = choose|i: int| proceeds_at(obs, i);
                    assert(i >= 1);
                    assert(obs[i] == rest[i - 1]);
                    assert(continues_before(rest, i - 1)) by {
                        assert forall|j: int|
                            0 <= j < i - 1 implies spec_bootstrap_step(rest[j].0, rest[j].1)
                            == BootstrapStep::Continue by {
                            assert(rest[j] == obs[j + 1]);
                        }
                    }
                    assert(proceeds_at(rest, i - 1));
                }
            },
            BootstrapStep::FatalIterate | BootstrapStep::FatalState => {
                if exists|i: int| proceeds_at(obs, i) {
                    let i = choose|i: int| proceeds_at(obs, i);
                    if i >= 1 {
                        assert(spec_bootstrap_step(obs[0].0, obs[0].1) == BootstrapStep::Continue);
                    }
                    assert(false);
                }
            },
        }
    }
}

} // verus!
