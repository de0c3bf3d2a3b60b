//! The cascade workflow state machine.
//!
//! After a destination has been selected, the remaining stages run in a
//! detached background task: establish the relay (one push or pull call),
//! verify it with a bounded number of health checks, and optionally collapse
//! the origin's now-redundant direct subscriptions. This module holds those
//! decisions as a step machine: [`Workflow::next_action`] names the remote
//! call to perform for the current state, and [`Workflow::step`] consumes
//! that call's outcome. The unverified driver performs the calls; every
//! error past selection is terminal-local (logged by the driver, never
//! reported back to the caller of the selection).

use vstd::prelude::*;
use crate::node::Node;
use crate::select::Selection;
use crate::session::{delete_plan, ids_of, StreamInfo};
use crate::CascadeMode;

verus! {

/// A terminal failure of the background workflow. Never reported to the
/// caller that triggered the cascade; only observable through the driver's
/// logs.
#[derive(Clone, Copy, Debug, PartialEq, Eq, Structural)]
pub enum CascadeError {
    /// The single push or pull call failed; no further stage runs.
    EstablishmentFailed { mode: CascadeMode },
    /// The health check never reported the stream present within the
    /// attempt budget; `attempts` is that budget.
    VerificationExhausted { attempts: u64 },
}

/// Where the background workflow stands.
#[derive(Debug)]
pub enum Phase {
    /// The one push or pull call has not been answered yet.
    Establish,
    /// The relay is being health-checked; `attempts_used` checks have been
    /// answered so far, none of them successful.
    Verify { attempts_used: u64 },
    /// Verification succeeded after `attempts_used` checks; the origin's
    /// session list has been asked for.
    FetchSessions { attempts_used: u64 },
    /// Deleting the origin's redundant direct subscriptions: the session
    /// ids in `pending`, of which the first `next` have been attempted.
    Cleanup { attempts_used: u64, pending: Vec<String>, next: usize },
    /// Terminal success, reporting the number of health checks used.
    Done { attempts_used: u64 },
    /// Terminal failure.
    Failed { error: CascadeError },
}

/// The remote call the driver must perform next.
#[derive(Debug)]
pub enum Action {
    /// Instruct `origin` to push `stream` towards the destination,
    /// announcing `callback` as this controller's public address.
    Push { origin: Node, destination: Node, stream: String, callback: String },
    /// Instruct `destination` to pull `stream` from the origin.
    Pull { destination: Node, origin: Node, stream: String },
    /// Ask `node` whether it serves `stream`.
    HealthCheck { node: Node, stream: String },
    /// Ask the registry for the streams `node` serves.
    FetchStreamInfo { node: Node },
    /// Ask `node` to delete the session `session_id` of `stream`.
    DeleteSession { node: Node, stream: String, session_id: String },
    /// The workflow is over; there is nothing to perform.
    Finished,
}

/// The outcome of a remote call, handed back by the driver.
#[derive(Debug)]
pub enum Event {
    /// Whether the push or pull call succeeded.
    EstablishOutcome { ok: bool },
    /// Whether a health check reported the stream present. A failed remote
    /// call counts as not present: it uses up an attempt.
    HealthOutcome { present: bool },
    /// The registry's stream list for the origin, or `None` when the read
    /// failed (cleanup is then abandoned, the workflow still succeeds).
    SessionsOutcome { infos: Option<Vec<StreamInfo>> },
    /// Whether one session deletion succeeded. Failures do not stop the
    /// remaining deletions.
    DeleteOutcome { ok: bool },
}

/// The phase of a workflow with its data abstracted to counts: enough to
/// state how many remote calls of each kind a run can make.
pub enum PhaseModel {
    Establish,
    Verify { used: int },
    FetchSessions { used: int },
    Cleanup { used: int, remaining: int },
    Done { used: int },
    Failed { cause: CauseModel },
}

/// Which stage a workflow failed in.
pub enum CauseModel {
    Establishment,
    Exhaustion,
}

/// A workflow with its data abstracted to counts.
pub struct WorkflowModel {
    pub max_attempts: int,
    pub close_other_sub: bool,
    pub phase: PhaseModel,
}

/// An event with its data abstracted: a sessions answer keeps only how many
/// deletions it gives rise to.
pub enum EventModel {
    Establish { ok: bool },
    Health { present: bool },
    Sessions { plan_len: Option<int> },
    Delete,
}

/// The abstraction of one event, relative to the stream being cascaded.
pub open spec fn event_model(e: Event, stream: Seq<char>) -> EventModel {
    match e {
        Event::EstablishOutcome { ok } => EventModel::Establish { ok },
        Event::HealthOutcome { present } => EventModel::Health { present },
        Event::SessionsOutcome { infos } => EventModel::Sessions {
            plan_len: match infos {
                Option::Some(v) => Option::Some(delete_plan(v@, stream).len() as int),
                Option::None => Option::None,
            },
        },
        Event::DeleteOutcome { .. } => EventModel::Delete,
    }
}

/// The transition relation of the workflow, on the abstract model. An event
/// that does not answer the current phase's call leaves the model unchanged,
/// and the two terminal phases absorb every event.
pub open spec fn step_model(m: WorkflowModel, e: EventModel) -> WorkflowModel {
    WorkflowModel { phase: phase_step(m, e), ..m }
}

/// The phase after consuming one event.
pub open spec fn phase_step(m: WorkflowModel, e: EventModel) -> PhaseModel {
    match (m.phase, e) {
        (PhaseModel::Establish, EventModel::Establish { ok }) => if ok {
            PhaseModel::Verify { used: 0 }
        } else {
            PhaseModel::Failed { cause: CauseModel::Establishment }
        },
        (PhaseModel::Verify { used }, EventModel::Health { present }) => if present {
            if m.close_other_sub {
                PhaseModel::FetchSessions { used: used + 1 }
            } else {
                PhaseModel::Done { used: used + 1 }
            }
        } else {
            if used + 1 < m.max_attempts {
                PhaseModel::Verify { used: used + 1 }
            } else {
                PhaseModel::Failed { cause: CauseModel::Exhaustion }
            }
        },
        (PhaseModel::FetchSessions { used }, EventModel::Sessions { plan_len }) => match plan_len {
            Option::Some(k) => if k > 0 {
                PhaseModel::Cleanup { used, remaining: k }
            } else {
                PhaseModel::Done { used }
            },
            Option::None => PhaseModel::Done { used },
        },
        (PhaseModel::Cleanup { used, remaining }, EventModel::Delete) => if remaining > 1 {
            PhaseModel::Cleanup { used, remaining: remaining - 1 }
        } else {
            PhaseModel::Done { used }
        },
        _ => m.phase,
    }
}

/// Internal consistency of a model: the attempt budget is at least one,
/// attempt counts stay within it, and the cleanup phases exist only when
/// cleanup is enabled.
pub open spec fn wf_model(m: WorkflowModel) -> bool {
    &&& m.max_attempts >= 1
    &&& (m.phase matches PhaseModel::Verify { used } ==> 0 <= used < m.max_attempts)
    &&& (m.phase matches PhaseModel::FetchSessions { used } ==> 1 <= used <= m.max_attempts
        && m.close_other_sub)
    &&& (m.phase matches PhaseModel::Cleanup { used, remaining } ==> 1 <= used <= m.max_attempts
        && remaining >= 1 && m.close_other_sub)
    &&& (m.phase matches PhaseModel::Done { used } ==> 1 <= used <= m.max_attempts)
}

/// One in-flight cascade: the configuration it was started under, the nodes
/// and stream it concerns, and the current phase.
#[derive(Debug)]
pub struct Workflow {
    /// The establishment strategy, fixed by configuration.
    pub mode: CascadeMode,
    /// The verification attempt budget, at least one.
    pub max_attempts: u64,
    /// Whether duplicate-subscription cleanup runs after verification.
    pub close_other_sub: bool,
    /// This controller's externally reachable address, the push callback
    /// target.
    pub public: String,
    /// The origin node the relay forwards from.
    pub source: Node,
    /// The destination node hosting the relay copy.
    pub destination: Node,
    /// The stream being cascaded.
    pub stream: String,
    /// Where the workflow stands.
    pub phase: Phase,
}

impl Workflow {
    /// The abstract model of this workflow.
    pub open spec fn model(&self) -> WorkflowModel {
        WorkflowModel {
            max_attempts: self.max_attempts as int,
            close_other_sub: self.close_other_sub,
            phase: match self.phase {
                Phase::Establish => PhaseModel::Establish,
                Phase::Verify { attempts_used } => PhaseModel::Verify {
                    used: attempts_used as int,
                },
                Phase::FetchSessions { attempts_used } => PhaseModel::FetchSessions {
                    used: attempts_used as int,
                },
                Phase::Cleanup { attempts_used, pending, next } => PhaseModel::Cleanup {
                    used: attempts_used as int,
                    remaining: pending@.len() - next,
                },
                Phase::Done { attempts_used } => PhaseModel::Done { used: attempts_used as int },
                Phase::Failed { error } => PhaseModel::Failed {
                    cause: match error {
                        CascadeError::EstablishmentFailed { .. } => CauseModel::Establishment,
                        CascadeError::VerificationExhausted { .. } => CauseModel::Exhaustion,
                    },
                },
            },
        }
    }

    /// Internal consistency: the model is consistent, a cleanup cursor
    /// stays inside its list, and terminal failure data matches the
    /// configuration.
    pub open spec fn wf(&self) -> bool {
        &&& wf_model(self.model())
        &&& (self.phase matches Phase::Cleanup { pending, next, .. } ==> next < pending@.len())
        &&& (self.phase matches Phase::Failed { error } ==> match error {
            CascadeError::EstablishmentFailed { mode } => mode == self.mode,
            CascadeError::VerificationExhausted { attempts } => attempts == self.max_attempts,
        })
    }

    /// Starts a workflow for a fresh selection, ready to establish.
    pub fn new(
        mode: CascadeMode,
        max_attempts: u64,
        close_other_sub: bool,
        public: String,
        selection: Selection,
        stream: String,
    ) -> (w: Workflow)
        requires
            max_attempts >= 1,
        ensures
            w.wf(),
            w.mode == mode,
            w.max_attempts == max_attempts,
            w.close_other_sub == close_other_sub,
            w.public == public,
            w.source == selection.source,
            w.destination == selection.destination,
            w.stream == stream,
            w.phase is Establish,
    {
        Workflow {
            mode,
            max_attempts,
            close_other_sub,
            public,
            source: selection.source,
            destination: selection.destination,
            stream,
            phase: Phase::Establish,
        }
    }

    /// Whether the workflow has reached a terminal phase.
    pub fn is_finished(&self) -> (r: bool)
        ensures
            r == (self.phase is Done || self.phase is Failed),
    {
        match &self.phase {
            Phase::Done { .. } => true,
            Phase::Failed { .. } => true,
            _ => false,
        }
    }

    /// The remote call to perform for the current phase: the one push or
    /// pull call while establishing, a health check of the destination
    /// while verifying, the origin's stream list once, then one deletion
    /// per planned session, in plan order.
    pub fn next_action(&self) -> (a: Action)
        requires
            self.wf(),
        ensures
            self.phase is Establish && self.mode is Push ==> (a matches Action::Push {
                origin,
                destination,
                stream,
                callback,
            } && origin == self.source && destination == self.destination && stream == self.stream
                && callback == self.public),
            self.phase is Establish && self.mode is Pull ==> (a matches Action::Pull {
                destination,
                origin,
                stream,
            } && destination == self.destination && origin == self.source && stream == self.stream),
            self.phase is Verify ==> (a matches Action::HealthCheck { node, stream } && node
                == self.destination && stream == self.stream),
            self.phase is FetchSessions ==> (a matches Action::FetchStreamInfo { node } && node
                == self.source),
            self.phase matches Phase::Cleanup { pending, next, .. } ==> (a
                matches Action::DeleteSession { node, stream, session_id } && node == self.source
                && stream == self.stream && session_id == pending@[next as int]),
            self.phase is Done || self.phase is Failed ==> a is Finished,
    {
        match &self.phase {
            Phase::Establish => match self.mode {
                CascadeMode::Push => Action::Push {
                    origin: self.source.clone(),
                    destination: self.destination.clone(),
                    stream: self.stream.clone(),
                    callback: self.public.clone(),
                },
                CascadeMode::Pull => Action::Pull {
                    destination: self.destination.clone(),
                    origin: self.source.clone(),
                    stream: self.stream.clone(),
                },
            },
            Phase::Verify { .. } => Action::HealthCheck {
                node: self.destination.clone(),
                stream: self.stream.clone(),
            },
            Phase::FetchSessions { .. } => Action::FetchStreamInfo { node: self.source.clone() },
            Phase::Cleanup { pending, next, .. } => Action::DeleteSession {
                node: self.source.clone(),
                stream: self.stream.clone(),
                session_id: pending[*next].clone(),
            },
            Phase::Done { .. } => Action::Finished,
            Phase::Failed { .. } => Action::Finished,
        }
    }

    /// Consumes the outcome of the call named by [`Self::next_action`].
    ///
    /// The abstract model moves by [`step_model`]; the configuration, the
    /// nodes and the stream never change. Entering cleanup, the pending
    /// list is exactly the delete plan of the fetched stream list; a
    /// deletion outcome, successful or not, moves the cursor to the next
    /// planned session.
    pub fn step(&mut self, event: Event)
        requires
            old(self).wf(),
        ensures
            final(self).wf(),
            final(self).model() == step_model(
                old(self).model(),
                event_model(event, old(self).stream@),
            ),
            final(self).mode == old(self).mode,
            final(self).max_attempts == old(self).max_attempts,
            final(self).close_other_sub == old(self).close_other_sub,
            final(self).public == old(self).public,
            final(self).source == old(self).source,
            final(self).destination == old(self).destination,
            final(self).stream == old(self).stream,
            old(self).phase is FetchSessions && event is SessionsOutcome
                && event->SessionsOutcome_infos is Some && final(self).phase is Cleanup ==> (
            final(self).phase matches Phase::Cleanup { pending, next, .. } && ids_of(pending@)
                == delete_plan((event->SessionsOutcome_infos)->0@, old(self).stream@) && next
                == 0),
            old(self).phase is Cleanup && event is DeleteOutcome ==> ({
                let pending_before = old(self).phase->Cleanup_pending;
                let next_before = old(self).phase->Cleanup_next;
                let used_before = old(self).phase->Cleanup_attempts_used;
                if next_before + 1 < pending_before@.len() {
                    final(self).phase matches Phase::Cleanup {
                        pending: pending_after,
                        next: next_after,
                        attempts_used: used_after,
                    } && pending_after@ == pending_before@ && next_after == next_before + 1
                        && used_after == used_before
                } else {
                    final(self).phase matches Phase::Done { attempts_used: used_after }
                        && used_after == used_before
                }
            }),
            !event_answers_phase(old(self).phase, event) ==> *final(self) == *old(self),
    {
        match event {
            Event::EstablishOutcome { ok } => {
                let in_establish = match &self.phase {
                    Phase::Establish => true,
                    _ => false,
                };
                if in_establish {
                    if ok {
                        self.phase = Phase::Verify { attempts_used: 0 };
                    } else {
                        self.phase = Phase::Failed {
                            error: CascadeError::EstablishmentFailed { mode: self.mode },
                        };
                    }
                }
            },
            Event::HealthOutcome { present } => {
                let used_now: Option<u64> = match &self.phase {
                    Phase::Verify { attempts_used } => Option::Some(*attempts_used),
                    _ => Option::None,
                };
                match used_now {
                    Option::Some(used) => {
                        if present {
                            if self.close_other_sub {
                                self.phase = Phase::FetchSessions { attempts_used: used + 1 };
                            } else {
                                self.phase = Phase::Done { attempts_used: used + 1 };
                            }
                        } else {
                            if used + 1 < self.max_attempts {
                                self.phase = Phase::Verify { attempts_used: used + 1 };
                            } else {
                                self.phase = Phase::Failed {
                                    error: CascadeError::VerificationExhausted {
                                        attempts: self.max_attempts,
                                    },
                                };
                            }
                        }
                    },
                    Option::None => {},
                }
            },
            Event::SessionsOutcome { infos } => {
                let used_now: Option<u64> = match &self.phase {
                    Phase::FetchSessions { attempts_used } => Option::Some(*attempts_used),
                    _ => Option::None,
                };
                match used_now {
                    Option::Some(used) => match infos {
                        Option::Some(v) => {
                            let pending = crate::session::sessions_to_delete(&v, &self.stream);
                            if pending.len() > 0 {
                                self.phase = Phase::Cleanup { attempts_used: used, pending, next: 0 };
                            } else {
                                self.phase = Phase::Done { attempts_used: used };
                            }
                        },
                        Option::None => {
                            self.phase = Phase::Done { attempts_used: used };
                        },
                    },
                    Option::None => {},
                }
            },
            Event::DeleteOutcome { .. } => {
                let advance: Option<(u64, bool)> = match &self.phase {
                    Phase::Cleanup { attempts_used, pending, next } => {
                        let len = pending.len();
                        proof {
                            assert(*next < pending@.len());
                        }
                        Option::Some((*attempts_used, *next + 1 < len))
                    },
                    _ => Option::None,
                };
                match advance {
                    Option::Some((used, more)) => {
                        if more {
                            if let Phase::Cleanup { next, .. } = &mut self.phase {
                                *next = *next + 1;
                            }
                        } else {
                            self.phase = Phase::Done { attempts_used: used };
                        }
                    },
                    Option::None => {},
                }
            },
        }
    }
}

/// Whether an event is the answer to the remote call the given phase is
/// waiting for.
pub open spec fn event_answers_phase(phase: Phase, event: Event) -> bool {
    match phase {
        Phase::Establish => event is EstablishOutcome,
        Phase::Verify { .. } => event is HealthOutcome,
        Phase::FetchSessions { .. } => event is SessionsOutcome,
        Phase::Cleanup { .. } => event is DeleteOutcome,
        Phase::Done { .. } => false,
        Phase::Failed { .. } => false,
    }
}

} // verus!
