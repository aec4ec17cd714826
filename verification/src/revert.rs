//! Undoing a plan, step by step.
//!
//! Receipts are undone in the exact reverse of the order in which their steps
//! were applied. As during an install, the run only decides: between two steps
//! it asks whether a cancellation was requested, then it hands out the latest
//! receipt still standing. A reversal that fails ends the run; what was undone
//! stays undone and the rest is left alone.

use vstd::prelude::*;
use crate::action::Receipt;
use crate::error::{ActionError, ActionErrorView, ErrorView, HarmonicError};
use crate::plan::{InstallPlan, PlanView};

verus! {

/// What the caller reports to a [`RevertRun`].
#[derive(Debug, Clone, PartialEq, Eq)]
pub enum RevertEvent {
    /// The cancellation signal was sampled between two steps.
    Boundary { cancelled: bool },
    /// The receipt handed out was undone.
    StepSucceeded,
    /// The receipt handed out could not be undone.
    StepFailed(ActionError),
}

/// Mathematical content of a [`RevertEvent`].
pub enum RevertEventView {
    Boundary { cancelled: bool },
    StepSucceeded,
    StepFailed(ActionErrorView),
}

impl View for RevertEvent {
    type V = RevertEventView;

    open spec fn view(&self) -> RevertEventView {
        match self {
            RevertEvent::Boundary { cancelled } => RevertEventView::Boundary {
                cancelled: *cancelled,
            },
            RevertEvent::StepSucceeded => RevertEventView::StepSucceeded,
            RevertEvent::StepFailed(e) => RevertEventView::StepFailed(e@),
        }
    }
}

/// What a [`RevertRun`] asks of the caller.
#[derive(Debug, Clone, Copy, PartialEq, Eq, Structural)]
pub enum RevertCommand {
    /// Sample the cancellation signal and report [`RevertEvent::Boundary`].
    CheckCancellation,
    /// Undo `receipt`, left by the step at `index` of the plan, and report how
    /// it went.
    Revert { index: usize, receipt: Receipt },
    /// The run is over; [`RevertRun::result`] tells how.
    Finish,
    /// The event answers nothing the run asked for. Nothing changed.
    Ignored,
}

/// Where a [`RevertRun`] stands.
#[derive(Debug, Clone, PartialEq, Eq)]
pub enum RevertPhase {
    /// Between two steps, waiting for the cancellation sample.
    Ready,
    /// A receipt is being undone.
    Reverting,
    /// Every receipt was undone.
    Completed,
    /// The run was stopped.
    Failed(HarmonicError),
}

/// Mathematical content of a [`RevertPhase`].
pub enum RevertPhaseView {
    Ready,
    Reverting,
    Completed,
    Failed(ErrorView),
}

impl View for RevertPhase {
    type V = RevertPhaseView;

    open spec fn view(&self) -> RevertPhaseView {
        match self {
            RevertPhase::Ready => RevertPhaseView::Ready,
            RevertPhase::Reverting => RevertPhaseView::Reverting,
            RevertPhase::Completed => RevertPhaseView::Completed,
            RevertPhase::Failed(e) => RevertPhaseView::Failed(e@),
        }
    }
}

/// Mathematical content of a [`RevertRun`]. The plan holds the receipts that
/// still stand.
pub struct RevertRunView {
    pub plan: PlanView,
    pub phase: RevertPhaseView,
}

/// The run as it begins, and the first thing it asks for. A plan without
/// receipts has nothing to undo.
pub open spec fn revert_start(plan: PlanView) -> (RevertRunView, RevertCommand) {
    if plan.receipts.len() == 0 {
        (RevertRunView { plan, phase: RevertPhaseView::Completed }, RevertCommand::Finish)
    } else {
        (RevertRunView { plan, phase: RevertPhaseView::Ready }, RevertCommand::CheckCancellation)
    }
}

/// The run after `event`, and what it asks for next.
pub open spec fn revert_step(run: RevertRunView, event: RevertEventView) -> (
    RevertRunView,
    RevertCommand,
) {
    match (run.phase, event) {
        (RevertPhaseView::Ready, RevertEventView::Boundary { cancelled }) => {
            if run.plan.receipts.len() == 0 {
                (
                    RevertRunView { plan: run.plan, phase: RevertPhaseView::Completed },
                    RevertCommand::Finish,
                )
            } else if cancelled {
                (
                    RevertRunView {
                        plan: run.plan,
                        phase: RevertPhaseView::Failed(ErrorView::Cancelled),
                    },
                    RevertCommand::Finish,
                )
            } else {
                (
                    RevertRunView { plan: run.plan, phase: RevertPhaseView::Reverting },
                    RevertCommand::Revert {
                        index: (run.plan.receipts.len() - 1) as usize,
                        receipt: run.plan.receipts.last(),
                    },
                )
            }
        },
        (RevertPhaseView::Reverting, RevertEventView::StepSucceeded) => {
            if run.plan.receipts.len() == 0 {
                (run, RevertCommand::Ignored)
            } else if run.plan.receipts.len() == 1 {
                (
                    RevertRunView {
                        plan: run.plan.revert_last(),
                        phase: RevertPhaseView::Completed,
                    },
                    RevertCommand::Finish,
                )
            } else {
                (
                    RevertRunView { plan: run.plan.revert_last(), phase: RevertPhaseView::Ready },
                    RevertCommand::CheckCancellation,
                )
            }
        },
        (RevertPhaseView::Reverting, RevertEventView::StepFailed(e)) => (
            RevertRunView { plan: run.plan, phase: RevertPhaseView::Failed(ErrorView::Action(e)) },
            RevertCommand::Finish,
        ),
        _ => (run, RevertCommand::Ignored),
    }
}

/// A plan that is being undone.
#[derive(Debug, Clone, PartialEq, Eq)]
pub struct RevertRun {
    plan: InstallPlan,
    phase: RevertPhase,
}

impl View for RevertRun {
    type V = RevertRunView;

    closed spec fn view(&self) -> RevertRunView {
        RevertRunView { plan: self.plan@, phase: self.phase@ }
    }
}

impl RevertRun {
    /// Takes the plan over and says what to do first.
    pub fn start(plan: InstallPlan) -> (r: (RevertRun, RevertCommand))
        ensures
            (r.0@, r.1) == revert_start(plan@),
    {
        if plan.receipts.len() == 0 {
            (RevertRun { plan, phase: RevertPhase::Completed }, RevertCommand::Finish)
        } else {
            (RevertRun { plan, phase: RevertPhase::Ready }, RevertCommand::CheckCancellation)
        }
    }

    /// Takes in what the caller reports and says what to do next.
    pub fn step(self, event: RevertEvent) -> (r: (RevertRun, RevertCommand))
        ensures
            (r.0@, r.1) == revert_step(self@, event@),
    {
        let RevertRun { mut plan, phase } = self;
        match (phase, event) {
            (RevertPhase::Ready, RevertEvent::Boundary { cancelled }) => {
                let standing = plan.receipts.len();
                if standing == 0 {
                    (RevertRun { plan, phase: RevertPhase::Completed }, RevertCommand::Finish)
                } else if cancelled {
                    (
                        RevertRun { plan, phase: RevertPhase::Failed(HarmonicError::Cancelled) },
                        RevertCommand::Finish,
                    )
                } else {
                    let command = RevertCommand::Revert {
                        index: standing - 1,
                        receipt: plan.receipts[standing - 1],
                    };
                    (RevertRun { plan, phase: RevertPhase::Reverting }, command)
                }
            },
            (RevertPhase::Reverting, RevertEvent::StepSucceeded) => {
                let standing = plan.receipts.len();
                if standing == 0 {
                    (RevertRun { plan, phase: RevertPhase::Reverting }, RevertCommand::Ignored)
                } else {
                    plan.receipts.pop();
                    if standing == 1 {
                        (RevertRun { plan, phase: RevertPhase::Completed }, RevertCommand::Finish)
                    } else {
                        (
                            RevertRun { plan, phase: RevertPhase::Ready },
                            RevertCommand::CheckCancellation,
                        )
                    }
                }
            },
            (RevertPhase::Reverting, RevertEvent::StepFailed(e)) => (
                RevertRun { plan, phase: RevertPhase::Failed(HarmonicError::Action(e)) },
                RevertCommand::Finish,
            ),
            (phase, _) => (RevertRun { plan, phase }, RevertCommand::Ignored),
        }
    }

    /// The plan as it stands: the receipts not undone yet, and the actions
    /// that were never applied.
    pub fn plan(&self) -> (plan: &InstallPlan)
        ensures
            plan@ == self@.plan,
    {
        &self.plan
    }

    /// Whether the run stands between two steps.
    pub fn is_ready(&self) -> (ready: bool)
        ensures
            ready == (self@.phase is Ready),
    {
        match self.phase {
            RevertPhase::Ready => true,
            _ => false,
        }
    }

    /// Whether the run is over.
    pub fn is_over(&self) -> (over: bool)
        ensures
            over == (self@.phase is Completed || self@.phase is Failed),
    {
        match self.phase {
            RevertPhase::Completed => true,
            RevertPhase::Failed(_) => true,
            _ => false,
        }
    }

    /// How the run ended. `None` while the run is not over.
    pub fn result(self) -> (r: Option<Result<(), HarmonicError>>)
        ensures
            match self@.phase {
                RevertPhaseView::Completed => r == Some(Ok::<(), HarmonicError>(())),
                RevertPhaseView::Failed(e) => r matches Some(Err(error)) && error@ == e,
                _ => r is None,
            },
    {
        match self.phase {
            RevertPhase::Completed => Some(Ok(())),
            RevertPhase::Failed(error) => Some(Err(error)),
            _ => None,
        }
    }
}

} // verus!
