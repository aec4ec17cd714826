//! Applying a plan, step by step.
//!
//! The run never touches the machine itself. It says what has to happen next
//! and is told what came of it: between two steps it asks whether a
//! cancellation was requested, then it hands out the next action, and after
//! every step that succeeded it asks for the plan to be written down before
//! it goes on. A step that fails ends the run; nothing is rolled back.

use vstd::prelude::*;
use crate::action::{Action, Receipt};
use crate::error::{ActionError, ActionErrorView, Context, ErrorView, HarmonicError};
use crate::plan::{InstallPlan, PlanView};

verus! {

/// What the caller reports to an [`InstallRun`].
#[derive(Debug, Clone, PartialEq, Eq)]
pub enum InstallEvent {
    /// The cancellation signal was sampled between two steps.
    Boundary { cancelled: bool },
    /// The action handed out was applied and left this receipt.
    StepSucceeded(Receipt),
    /// The action handed out failed.
    StepFailed(ActionError),
    /// The plan was written to the receipt location.
    Saved,
    /// The plan could not be written.
    SaveFailed(String),
}

/// Mathematical content of an [`InstallEvent`].
pub enum InstallEventView {
    Boundary { cancelled: bool },
    StepSucceeded(Receipt),
    StepFailed(ActionErrorView),
    Saved,
    SaveFailed(Seq<char>),
}

impl View for InstallEvent {
    type V = InstallEventView;

    open spec fn view(&self) -> InstallEventView {
        match self {
            InstallEvent::Boundary { cancelled } => InstallEventView::Boundary {
                cancelled: *cancelled,
            },
            InstallEvent::StepSucceeded(receipt) => InstallEventView::StepSucceeded(*receipt),
            InstallEvent::StepFailed(e) => InstallEventView::StepFailed(e@),
            InstallEvent::Saved => InstallEventView::Saved,
            InstallEvent::SaveFailed(cause) => InstallEventView::SaveFailed(cause@),
        }
    }
}

/// What an [`InstallRun`] asks of the caller.
#[derive(Debug, Clone, Copy, PartialEq, Eq, Structural)]
pub enum InstallCommand {
    /// Sample the cancellation signal and report [`InstallEvent::Boundary`].
    CheckCancellation,
    /// Apply `action`, the step at `index` of the plan, and report how it went.
    Execute { index: usize, action: Action },
    /// Write the plan to the receipt location and report how it went.
    Save,
    /// The run is over; [`InstallRun::result`] tells how.
    Finish,
    /// The event answers nothing the run asked for. Nothing changed.
    Ignored,
}

/// Where an [`InstallRun`] stands.
#[derive(Debug, Clone, PartialEq, Eq)]
pub enum InstallPhase {
    /// Between two steps, waiting for the cancellation sample.
    Ready,
    /// An action is being applied.
    Running,
    /// The plan is being written down.
    Saving,
    /// Every step was applied.
    Completed,
    /// The run was stopped.
    Failed(HarmonicError),
}

/// Mathematical content of an [`InstallPhase`].
pub enum InstallPhaseView {
    Ready,
    Running,
    Saving,
    Completed,
    Failed(ErrorView),
}

impl View for InstallPhase {
    type V = InstallPhaseView;

    open spec fn view(&self) -> InstallPhaseView {
        match self {
            InstallPhase::Ready => InstallPhaseView::Ready,
            InstallPhase::Running => InstallPhaseView::Running,
            InstallPhase::Saving => InstallPhaseView::Saving,
            InstallPhase::Completed => InstallPhaseView::Completed,
            InstallPhase::Failed(e) => InstallPhaseView::Failed(e@),
        }
    }
}

/// Mathematical content of an [`InstallRun`].
pub struct InstallRunView {
    pub plan: PlanView,
    pub phase: InstallPhaseView,
}

/// The run as it begins, and the first thing it asks for. A plan with nothing
/// left to apply is complete at once.
pub open spec fn install_start(plan: PlanView) -> (InstallRunView, InstallCommand) {
    if plan.actions.len() == 0 {
        (InstallRunView { plan, phase: InstallPhaseView::Completed }, InstallCommand::Finish)
    } else {
        (InstallRunView { plan, phase: InstallPhaseView::Ready }, InstallCommand::CheckCancellation)
    }
}

/// The run after `event`, and what it asks for next.
pub open spec fn install_step(run: InstallRunView, event: InstallEventView) -> (
    InstallRunView,
    InstallCommand,
) {
    match (run.phase, event) {
        (InstallPhaseView::Ready, InstallEventView::Boundary { cancelled }) => {
            if run.plan.actions.len() == 0 {
                (
                    InstallRunView { plan: run.plan, phase: InstallPhaseView::Completed },
                    InstallCommand::Finish,
                )
            } else if cancelled {
                (
                    InstallRunView {
                        plan: run.plan,
                        phase: InstallPhaseView::Failed(ErrorView::Cancelled),
                    },
                    InstallCommand::Finish,
                )
            } else {
                (
                    InstallRunView { plan: run.plan, phase: InstallPhaseView::Running },
                    InstallCommand::Execute {
                        index: run.plan.receipts.len() as usize,
                        action: run.plan.actions[0],
                    },
                )
            }
        },
        (InstallPhaseView::Running, InstallEventView::StepSucceeded(receipt)) => {
            if run.plan.actions.len() == 0 {
                (run, InstallCommand::Ignored)
            } else {
                (
                    InstallRunView {
                        plan: run.plan.complete_next(receipt),
                        phase: InstallPhaseView::Saving,
                    },
                    InstallCommand::Save,
                )
            }
        },
        (InstallPhaseView::Running, InstallEventView::StepFailed(e)) => (
            InstallRunView { plan: run.plan, phase: InstallPhaseView::Failed(ErrorView::Action(e)) },
            InstallCommand::Finish,
        ),
        (InstallPhaseView::Saving, InstallEventView::Saved) => {
            if run.plan.actions.len() == 0 {
                (
                    InstallRunView { plan: run.plan, phase: InstallPhaseView::Completed },
                    InstallCommand::Finish,
                )
            } else {
                (
                    InstallRunView { plan: run.plan, phase: InstallPhaseView::Ready },
                    InstallCommand::CheckCancellation,
                )
            }
        },
        (InstallPhaseView::Saving, InstallEventView::SaveFailed(cause)) => (
            InstallRunView {
                plan: run.plan,
                phase: InstallPhaseView::Failed(
                    ErrorView::Outside { context: Context::WritingReceipt, cause },
                ),
            },
            InstallCommand::Finish,
        ),
        _ => (run, InstallCommand::Ignored),
    }
}

/// A plan that is being applied.
#[derive(Debug, Clone, PartialEq, Eq)]
pub struct InstallRun {
    plan: InstallPlan,
    phase: InstallPhase,
}

impl View for InstallRun {
    type V = InstallRunView;

    closed spec fn view(&self) -> InstallRunView {
        InstallRunView { plan: self.plan@, phase: self.phase@ }
    }
}

impl InstallRun {
    /// Takes the plan over and says what to do first.
    pub fn start(plan: InstallPlan) -> (r: (InstallRun, InstallCommand))
        ensures
            (r.0@, r.1) == install_start(plan@),
    {
        if plan.actions.len() == 0 {
            (InstallRun { plan, phase: InstallPhase::Completed }, InstallCommand::Finish)
        } else {
            (InstallRun { plan, phase: InstallPhase::Ready }, InstallCommand::CheckCancellation)
        }
    }

    /// Takes in what the caller reports and says what to do next.
    pub fn step(self, event: InstallEvent) -> (r: (InstallRun, InstallCommand))
        ensures
            (r.0@, r.1) == install_step(self@, event@),
    {
        let InstallRun { mut plan, phase } = self;
        match (phase, event) {
            (InstallPhase::Ready, InstallEvent::Boundary { cancelled }) => {
                if plan.actions.len() == 0 {
                    (InstallRun { plan, phase: InstallPhase::Completed }, InstallCommand::Finish)
                } else if cancelled {
                    (
                        InstallRun { plan, phase: InstallPhase::Failed(HarmonicError::Cancelled) },
                        InstallCommand::Finish,
                    )
                } else {
                    let command = InstallCommand::Execute {
                        index: plan.receipts.len(),
                        action: plan.actions[0],
                    };
                    (InstallRun { plan, phase: InstallPhase::Running }, command)
                }
            },
            (InstallPhase::Running, InstallEvent::StepSucceeded(receipt)) => {
                if plan.actions.len() == 0 {
                    (InstallRun { plan, phase: InstallPhase::Running }, InstallCommand::Ignored)
                } else {
                    plan.complete_next(receipt);
                    (InstallRun { plan, phase: InstallPhase::Saving }, InstallCommand::Save)
                }
            },
            (InstallPhase::Running, InstallEvent::StepFailed(e)) => (
                InstallRun { plan, phase: InstallPhase::Failed(HarmonicError::Action(e)) },
                InstallCommand::Finish,
            ),
            (InstallPhase::Saving, InstallEvent::Saved) => {
                if plan.actions.len() == 0 {
                    (InstallRun { plan, phase: InstallPhase::Completed }, InstallCommand::Finish)
                } else {
                    (
                        InstallRun { plan, phase: InstallPhase::Ready },
                        InstallCommand::CheckCancellation,
                    )
                }
            },
            (InstallPhase::Saving, InstallEvent::SaveFailed(cause)) => (
                InstallRun {
                    plan,
                    phase: InstallPhase::Failed(
                        HarmonicError::Outside { context: Context::WritingReceipt, cause },
                    ),
                },
                InstallCommand::Finish,
            ),
            (phase, _) => (InstallRun { plan, phase }, InstallCommand::Ignored),
        }
    }

    /// The plan as it stands: what [`InstallCommand::Save`] asks to be written.
    pub fn plan(&self) -> (plan: &InstallPlan)
        ensures
            plan@ == self@.plan,
    {
        &self.plan
    }

    /// Whether the run is over.
    pub fn is_over(&self) -> (over: bool)
        ensures
            over == (self@.phase is Completed || self@.phase is Failed),
    {
        match self.phase {
            InstallPhase::Completed => true,
            InstallPhase::Failed(_) => true,
            _ => false,
        }
    }

    /// How the run ended: the plan with all its receipts, or what stopped it.
    /// `None` while the run is not over.
    pub fn result(self) -> (r: Option<Result<InstallPlan, HarmonicError>>)
        ensures
            match self@.phase {
                InstallPhaseView::Completed => r matches Some(Ok(plan)) && plan@ == self@.plan,
                InstallPhaseView::Failed(e) => r matches Some(Err(error)) && error@ == e,
                _ => r is None,
            },
    {
        match self.phase {
            InstallPhase::Completed => Some(Ok(self.plan)),
            InstallPhase::Failed(error) => Some(Err(error)),
            _ => None,
        }
    }
}

} // verus!
