//! Laws about whole runs of the cascade workflow.
//!
//! A run is the abstract workflow model folded over a sequence of events.
//! The lemmas here bound how many remote calls of each kind any run can
//! make: verification performs at most the configured number of health
//! checks and stops at the first success, exhaustion is reported only after
//! exactly the budget of unsuccessful checks, and a failed establishment is
//! followed by no verification and no cleanup calls at all.

use vstd::prelude::*;
use crate::workflow::{
    step_model, wf_model, CauseModel, EventModel, PhaseModel, WorkflowModel,
};

verus! {

/// The model after consuming `events` in order.
pub open spec fn run_model(m: WorkflowModel, events: Seq<EventModel>) -> WorkflowModel
    decreases events.len(),
{
    if events.len() == 0 {
        m
    } else {
        run_model(step_model(m, events[0]), events.skip(1))
    }
}

/// How many health checks a run performs: the steps that consume a health
/// outcome while verifying.
pub open spec fn health_checks(m: WorkflowModel, events: Seq<EventModel>) -> nat
    decreases events.len(),
{
    if events.len() == 0 {
        0
    } else {
        (if m.phase is Verify && events[0] is Health {
            1nat
        } else {
            0nat
        }) + health_checks(step_model(m, events[0]), events.skip(1))
    }
}

/// How many cleanup calls a run performs: the steps that consume the
/// origin's session list or a deletion outcome.
pub open spec fn cleanup_calls(m: WorkflowModel, events: Seq<EventModel>) -> nat
    decreases events.len(),
{
    if events.len() == 0 {
        0
    } else {
        (if (m.phase is FetchSessions && events[0] is Sessions) || (m.phase is Cleanup
            && events[0] is Delete) {
            1nat
        } else {
            0nat
        }) + cleanup_calls(step_model(m, events[0]), events.skip(1))
    }
}

/// How many health checks the current phase still allows.
pub open spec fn verify_budget(m: WorkflowModel) -> int {
    match m.phase {
        PhaseModel::Establish => m.max_attempts,
        PhaseModel::Verify { used } => m.max_attempts - used,
        _ => 0,
    }
}

/// One step preserves the model's internal consistency.
pub proof fn lemma_step_model_wf(m: WorkflowModel, e: EventModel)
    requires
        wf_model(m),
    ensures
        wf_model(step_model(m, e)),
{
}

/// A terminal model absorbs every event: the run never leaves it and
/// performs no call of any kind.
pub proof fn lemma_terminal_absorbs(m: WorkflowModel, events: Seq<EventModel>)
    requires
        m.phase is Done || m.phase is Failed,
    ensures
        run_model(m, events) == m,
        health_checks(m, events) == 0,
        cleanup_calls(m, events) == 0,
    decreases events.len(),
{
    if events.len() > 0 {
        assert(step_model(m, events[0]) == m);
        lemma_terminal_absorbs(m, events.skip(1));
    }
}

/// LAW: verification performs at most `max_attempts` health checks. Any
/// run makes no more health checks than the current phase's budget: the
/// whole attempt budget before and while verifying, none afterwards.
pub proof fn lemma_health_checks_bounded(m: WorkflowModel, events: Seq<EventModel>)
    requires
        wf_model(m),
    ensures
        health_checks(m, events) <= if m.phase is Establish || m.phase is Verify {
            verify_budget(m)
        } else {
            0
        },
        health_checks(m, events) <= m.max_attempts,
    decreases events.len(),
{
    if events.len() > 0 {
        lemma_step_model_wf(m, events[0]);
        lemma_health_checks_bounded(step_model(m, events[0]), events.skip(1));
    }
}

/// LAW: verification stops at the first success. A successful health check
/// leaves the verifying phase with one more attempt used, and no later
/// step of the run performs a health check.
pub proof fn lemma_verification_stops_at_success(
    m: WorkflowModel,
    e: EventModel,
    later: Seq<EventModel>,
)
    requires
        wf_model(m),
        m.phase is Verify,
        e matches EventModel::Health { present: true },
    ensures
        (step_model(m, e).phase matches PhaseModel::FetchSessions { used } && m.close_other_sub
            && used == m.phase->Verify_used + 1) || (step_model(m, e).phase
            matches PhaseModel::Done { used } && !m.close_other_sub && used == m.phase->Verify_used
            + 1),
        health_checks(step_model(m, e), later) == 0,
{
    lemma_step_model_wf(m, e);
    lemma_no_checks_past_verification(step_model(m, e), later);
}

/// After verification has ended (successfully or not), no later step
/// performs a health check.
proof fn lemma_no_checks_past_verification(m: WorkflowModel, events: Seq<EventModel>)
    requires
        m.phase is FetchSessions || m.phase is Cleanup || m.phase is Done || m.phase is Failed,
    ensures
        health_checks(m, events) == 0,
    decreases events.len(),
{
    if events.len() > 0 {
        lemma_no_checks_past_verification(step_model(m, events[0]), events.skip(1));
    }
}

/// From any phase past verification other than exhaustion itself, a run
/// can never reach the exhaustion failure.
proof fn lemma_no_exhaustion_past_verification(m: WorkflowModel, events: Seq<EventModel>)
    requires
        m.phase is FetchSessions || m.phase is Cleanup || m.phase is Done || m.phase
            matches PhaseModel::Failed { cause: CauseModel::Establishment },
    ensures
        !(run_model(m, events).phase matches PhaseModel::Failed { cause: CauseModel::Exhaustion }),
    decreases events.len(),
{
    if events.len() > 0 {
        lemma_no_exhaustion_past_verification(step_model(m, events[0]), events.skip(1));
    }
}

/// Splitting a run after its first event.
proof fn lemma_run_take_shift(m: WorkflowModel, events: Seq<EventModel>, i: int)
    requires
        1 <= i <= events.len(),
    ensures
        run_model(m, events.take(i)) == run_model(
            step_model(m, events[0]),
            events.skip(1).take(i - 1),
        ),
{
    assert(events.take(i)[0] == events[0]);
    assert(events.take(i).skip(1) =~= events.skip(1).take(i - 1));
}

/// LAW: verification reports exhaustion only after its whole budget of
/// consecutive unsuccessful checks. A run from the start of the workflow
/// (or from within verification) that ends in the exhaustion failure has
/// performed exactly its budget of health checks, and every health outcome
/// it consumed while verifying reported the stream absent.
pub proof fn lemma_exhaustion_exact(m: WorkflowModel, events: Seq<EventModel>)
    requires
        wf_model(m),
        m.phase is Establish || m.phase is Verify,
        run_model(m, events).phase matches PhaseModel::Failed { cause: CauseModel::Exhaustion },
    ensures
        health_checks(m, events) == verify_budget(m),
        forall|i: int|
            0 <= i < events.len() && run_model(m, #[trigger] events.take(i)).phase is Verify
                && events[i] is Health ==> !(events[i]->Health_present),
    decreases events.len(),
{
    if events.len() == 0 {
        assert(run_model(m, events) == m);
    } else {
        let e0 = events[0];
        let m1 = step_model(m, e0);
        lemma_step_model_wf(m, e0);
        assert(run_model(m, events) == run_model(m1, events.skip(1)));
        if m.phase is Establish {
            match e0 {
                EventModel::Establish { ok } => {
                    if ok {
                        lemma_exhaustion_exact(m1, events.skip(1));
                    } else {
                        lemma_terminal_absorbs(m1, events.skip(1));
                        assert(false);
                    }
                },
                _ => {
                    assert(m1 == m);
                    lemma_exhaustion_exact(m1, events.skip(1));
                },
            }
        } else {
            let used = m.phase->Verify_used;
            match e0 {
                EventModel::Health { present } => {
                    if present {
                        lemma_no_exhaustion_past_verification(m1, events.skip(1));
                        assert(false);
                    } else {
                        if used + 1 < m.max_attempts {
                            lemma_exhaustion_exact(m1, events.skip(1));
                        } else {
                            lemma_terminal_absorbs(m1, events.skip(1));
                            lemma_no_checks_past_verification(m1, events.skip(1));
                        }
                    }
                },
                _ => {
                    assert(m1 == m);
                    lemma_exhaustion_exact(m1, events.skip(1));
                },
            }
        }
        assert forall|i: int|
            0 <= i < events.len() && run_model(m, #[trigger] events.take(i)).phase is Verify
                && events[i] is Health implies !(events[i]->Health_present) by {
            if i == 0 {
                assert(run_model(m, events.take(0)) == m);
                if m.phase is Verify && e0 is Health {
                    if e0->Health_present {
                        lemma_no_exhaustion_past_verification(
                            step_model(m, e0),
                            events.skip(1),
                        );
                        assert(false);
                    }
                }
            } else {
                lemma_run_take_shift(m, events, i);
                assert(events.skip(1)[i - 1] == events[i]);
                if m1.phase is Done || m1.phase is Failed {
                    lemma_terminal_absorbs(m1, events.skip(1).take(i - 1));
                    assert(run_model(m, events.take(i)) == m1);
                }
            }
        }
    }
}

/// LAW: a failed establishment is silent. When the one push or pull call
/// fails, the workflow ends in the establishment failure and the rest of
/// the run performs zero health checks and zero cleanup calls.
pub proof fn lemma_establishment_failure_silent(m: WorkflowModel, events: Seq<EventModel>)
    requires
        wf_model(m),
        m.phase is Establish,
        events.len() >= 1,
        events[0] matches EventModel::Establish { ok: false },
    ensures
        run_model(m, events).phase matches PhaseModel::Failed {
            cause: CauseModel::Establishment,
        },
        health_checks(m, events) == 0,
        cleanup_calls(m, events) == 0,
{
    let m1 = step_model(m, events[0]);
    lemma_terminal_absorbs(m1, events.skip(1));
}

} // verus!
