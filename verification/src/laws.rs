//! Run-wide guarantees of the pipeline, proved over its transition
//! relation.

use vstd::prelude::*;
use solana_sdk::transaction::VersionedTransaction;
use crate::aggregate::quorum_met;
use crate::pipeline::steps_to;
use crate::pipeline::rank;
use crate::pipeline::Action;
use crate::pipeline::CrankConfig;
use crate::pipeline::Event;
use crate::pipeline::RunState;

verus! {

/// A complete or partial run: `states[0]` is the starting state and each
/// event moves `states[i]` to `states[i + 1]` while requesting
/// `actions[i]`.
pub open spec fn valid_trace(
    cfg: CrankConfig,
    states: Seq<RunState>,
    events: Seq<Event>,
    actions: Seq<Action>,
) -> bool {
    &&& states.len() == events.len() + 1
    &&& actions.len() == events.len()
    &&& states[0] == RunState::ResolvingQueue
    &&& forall|i: int|
        0 <= i < events.len() ==> #[trigger] steps_to(
            cfg,
            states[i],
            events[i],
            states[i + 1],
            actions[i],
        )
}

/// This event does not report a gateway reply that meets the quorum
/// threshold.
pub open spec fn below_quorum_event(cfg: CrankConfig, e: Event) -> bool {
    e matches Event::UpdateFetched(res) ==> (res matches Ok(bundle) ==> !quorum_met(
        bundle.responses@,
        cfg.quorum_threshold,
    ))
}

/// This event does not report a clean simulation.
pub open spec fn erroring_simulation_event(e: Event) -> bool {
    e matches Event::SimulationFinished(res) ==> (res matches Ok(outcome) ==> outcome.err is Some)
}

/// Law: every step moves the run forward; no state ever goes back.
pub proof fn lemma_rank_nondecreasing(
    cfg: CrankConfig,
    s: RunState,
    e: Event,
    s2: RunState,
    a: Action,
)
    requires
        steps_to(cfg, s, e, s2, a),
    ensures
        rank(s2) >= rank(s),
{
}

/// Law: a simulation is requested exactly on entering the signed state,
/// and carries the transaction that was signed.
pub proof fn lemma_simulate_carries_signed_tx(
    cfg: CrankConfig,
    s: RunState,
    e: Event,
    s2: RunState,
    a: Action,
)
    requires
        steps_to(cfg, s, e, s2, a),
        a matches Action::Simulate { .. },
    ensures
        s2 matches RunState::Signed { tx } && a == (Action::Simulate { tx }),
        s matches RunState::FetchingBlockhash { .. },
{
}

/// Law: a submission is requested only from the signed state, only by a
/// simulation outcome that carried no execution error, and it carries
/// exactly the transaction that was simulated.
pub proof fn lemma_submit_only_after_clean_simulation(
    cfg: CrankConfig,
    s: RunState,
    e: Event,
    s2: RunState,
    a: Action,
)
    requires
        steps_to(cfg, s, e, s2, a),
        a matches Action::SubmitAndConfirm { .. },
    ensures
        s matches RunState::Signed { tx } && a == (Action::SubmitAndConfirm { tx }) && s2 == (
        RunState::Submitted { tx }),
        e matches Event::SimulationFinished(res) && res matches Ok(outcome) && outcome.err is None,
{
}

/// Law: a clean simulation outcome always requests the submission of
/// exactly the simulated transaction; the run reaches the submitted
/// state with it.
pub proof fn lemma_clean_simulation_submits(
    cfg: CrankConfig,
    s: RunState,
    e: Event,
    s2: RunState,
    a: Action,
    tx: VersionedTransaction,
)
    requires
        steps_to(cfg, s, e, s2, a),
        s == (RunState::Signed { tx }),
        e matches Event::SimulationFinished(res) && res matches Ok(outcome) && outcome.err
            is None,
    ensures
        s2 == (RunState::Submitted { tx }),
        a == (Action::SubmitAndConfirm { tx }),
{
}

/// Law: when no gateway reply in a run meets the quorum threshold, the
/// run never reaches the signed state, nor any state past it; it stays
/// before the blockhash request or fails.
pub proof fn lemma_below_quorum_never_signed(
    cfg: CrankConfig,
    states: Seq<RunState>,
    events: Seq<Event>,
    actions: Seq<Action>,
    k: int,
)
    requires
        valid_trace(cfg, states, events, actions),
        forall|i: int| 0 <= i < events.len() ==> below_quorum_event(cfg, #[trigger] events[i]),
        0 <= k < states.len(),
    ensures
        rank(states[k]) < 2 || states[k] is Failed,
        !(states[k] is Signed),
        !(states[k] is Submitted),
        !(states[k] is Confirmed),
    decreases k,
{
    if k > 0 {
        let i = k - 1;
        lemma_below_quorum_never_signed(cfg, states, events, actions, i);
        assert(steps_to(cfg, states[i], events[i], states[i + 1], actions[i]));
        assert(below_quorum_event(cfg, events[i]));
    }
}

/// Law: when every simulation outcome in a run reports an execution
/// error, the run never reaches the submitted state and never confirms.
pub proof fn lemma_simulation_error_never_submitted(
    cfg: CrankConfig,
    states: Seq<RunState>,
    events: Seq<Event>,
    actions: Seq<Action>,
    k: int,
)
    requires
        valid_trace(cfg, states, events, actions),
        forall|i: int| 0 <= i < events.len() ==> erroring_simulation_event(#[trigger] events[i]),
        0 <= k < states.len(),
    ensures
        !(states[k] is Submitted),
        !(states[k] is Confirmed),
    decreases k,
{
    if k > 0 {
        let i = k - 1;
        lemma_simulation_error_never_submitted(cfg, states, events, actions, i);
        assert(steps_to(cfg, states[i], events[i], states[i + 1], actions[i]));
        assert(erroring_simulation_event(events[i]));
    }
}

/// Law: when every simulation outcome in a run reports an execution
/// error, no step of the run requests a submission.
pub proof fn lemma_simulation_error_no_submission(
    cfg: CrankConfig,
    states: Seq<RunState>,
    events: Seq<Event>,
    actions: Seq<Action>,
    j: int,
)
    requires
        valid_trace(cfg, states, events, actions),
        forall|i: int| 0 <= i < events.len() ==> erroring_simulation_event(#[trigger] events[i]),
        0 <= j < actions.len(),
    ensures
        !(actions[j] matches Action::SubmitAndConfirm { .. }),
{
    assert(steps_to(cfg, states[j], events[j], states[j + 1], actions[j]));
    assert(erroring_simulation_event(events[j]));
    if actions[j] matches Action::SubmitAndConfirm { .. } {
        lemma_submit_only_after_clean_simulation(
            cfg,
            states[j],
            events[j],
            states[j + 1],
            actions[j],
        );
    }
}

/// Law: every state of a run stands at least as far along as every
/// earlier one.
pub proof fn lemma_trace_rank_monotone(
    cfg: CrankConfig,
    states: Seq<RunState>,
    events: Seq<Event>,
    actions: Seq<Action>,
    i: int,
    j: int,
)
    requires
        valid_trace(cfg, states, events, actions),
        0 <= i <= j < states.len(),
    ensures
        rank(states[j]) >= rank(states[i]),
    decreases j - i,
{
    if i < j {
        let m = j - 1;
        lemma_trace_rank_monotone(cfg, states, events, actions, i, m);
        assert(steps_to(cfg, states[m], events[m], states[m + 1], actions[m]));
        lemma_rank_nondecreasing(cfg, states[m], events[m], states[m + 1], actions[m]);
    }
}

/// Law: one run requests at most one submission.
pub proof fn lemma_at_most_one_submission(
    cfg: CrankConfig,
    states: Seq<RunState>,
    events: Seq<Event>,
    actions: Seq<Action>,
    i: int,
    j: int,
)
    requires
        valid_trace(cfg, states, events, actions),
        0 <= i < j < actions.len(),
        actions[i] matches Action::SubmitAndConfirm { .. },
    ensures
        !(actions[j] matches Action::SubmitAndConfirm { .. }),
{
    assert(steps_to(cfg, states[i], events[i], states[i + 1], actions[i]));
    lemma_submit_only_after_clean_simulation(cfg, states[i], events[i], states[i + 1], actions[i]);
    assert(rank(states[i + 1]) == 4);
    lemma_trace_rank_monotone(cfg, states, events, actions, i + 1, j);
    if actions[j] matches Action::SubmitAndConfirm { .. } {
        assert(steps_to(cfg, states[j], events[j], states[j + 1], actions[j]));
        lemma_submit_only_after_clean_simulation(
            cfg,
            states[j],
            events[j],
            states[j + 1],
            actions[j],
        );
        assert(rank(states[j]) == 3);
    }
}

/// Law: a run that stands in the signed state got there by requesting a
/// simulation of exactly the signed transaction.
pub proof fn lemma_signed_tx_was_simulated(
    cfg: CrankConfig,
    states: Seq<RunState>,
    events: Seq<Event>,
    actions: Seq<Action>,
    k: int,
    tx: VersionedTransaction,
)
    requires
        valid_trace(cfg, states, events, actions),
        0 <= k < states.len(),
        states[k] == (RunState::Signed { tx }),
    ensures
        exists|i: int| #![trigger actions[i]] 0 <= i < k && actions[i] == (Action::Simulate { tx }),
    decreases k,
{
    assert(k > 0);
    let m = k - 1;
    assert(steps_to(cfg, states[m], events[m], states[m + 1], actions[m]));
    if states[m] == states[k] {
        lemma_signed_tx_was_simulated(cfg, states, events, actions, m, tx);
    } else {
        assert(actions[m] == (Action::Simulate { tx }));
    }
}

/// Law: a submitted transaction is exactly one that was simulated
/// earlier in the same run: no instruction is rebuilt between the
/// simulation and the submission.
pub proof fn lemma_submitted_tx_was_simulated(
    cfg: CrankConfig,
    states: Seq<RunState>,
    events: Seq<Event>,
    actions: Seq<Action>,
    j: int,
    tx: VersionedTransaction,
)
    requires
        valid_trace(cfg, states, events, actions),
        0 <= j < actions.len(),
        actions[j] == (Action::SubmitAndConfirm { tx }),
    ensures
        exists|i: int| #![trigger actions[i]] 0 <= i < j && actions[i] == (Action::Simulate { tx }),
{
    assert(steps_to(cfg, states[j], events[j], states[j + 1], actions[j]));
    lemma_submit_only_after_clean_simulation(cfg, states[j], events[j], states[j + 1], actions[j]);
    assert(states[j] == (RunState::Signed { tx }));
    lemma_signed_tx_was_simulated(cfg, states, events, actions, j, tx);
}

} // verus!
