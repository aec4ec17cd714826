//! The uninstall command: everything it decides between being started and
//! leaving with an exit status.
//!
//! The command checks for superuser privilege, gets out of the way if it runs
//! from the tree it is about to remove, loads the receipt, asks the user unless
//! told not to, and then undoes the plan. All of the outside work is done by
//! the caller, who is told what to do by an [`UninstallCommand`] and answers
//! with an [`UninstallEvent`].

use vstd::prelude::*;
use crate::action::Receipt;
use crate::description::texts;
use crate::error::{ActionError, ActionErrorView, Context, ErrorView, HarmonicError};
use crate::plan::{render_uninstall, InstallPlan, PlanView};
use crate::guard::{
    any_contains_nul,
    any_has_nul,
    contains_nul,
    ensure_root,
    has_nul,
    is_trailer,
    random_trailer,
    runs_from_install_location,
    temp_executable_name,
    temp_name,
    INSTALL_LOCATION,
};
use crate::revert::{
    revert_start,
    revert_step,
    RevertCommand,
    RevertEvent,
    RevertEventView,
    RevertPhaseView,
    RevertRun,
    RevertRunView,
};
use crate::style::{
    declined_report,
    declined_text,
    failure_report,
    red_text,
    success_report,
    success_text,
};

verus! {

/// A path of the file system. The library hands it on and never looks inside.
#[verifier::external_type_specification]
#[verifier::external_body]
pub struct ExPathBuf(std::path::PathBuf);

/// Uninstall a previously installed Nix (only installs done by this installer
/// are supported).
#[derive(Debug, PartialEq, Eq)]
pub struct Uninstall {
    /// Undo the plan without asking first.
    pub no_confirm: bool,
    /// Show the explanation of every step in the prompt.
    pub explain: bool,
    /// Where the receipt is read from.
    pub receipt: std::path::PathBuf,
}

/// How the process leaves.
#[derive(Debug, Clone, Copy, PartialEq, Eq, Structural)]
pub enum ExitStatus {
    Success,
    Failure,
}

/// How the command ended.
#[derive(Debug, Clone, PartialEq, Eq)]
pub enum Outcome {
    /// Every receipt was undone.
    Uninstalled,
    /// The user said no; nothing was touched.
    Declined,
    /// The command was stopped.
    Failed(HarmonicError),
}

/// Mathematical content of an [`Outcome`].
pub enum OutcomeView {
    Uninstalled,
    Declined,
    Failed(ErrorView),
}

impl View for Outcome {
    type V = OutcomeView;

    open spec fn view(&self) -> OutcomeView {
        match self {
            Outcome::Uninstalled => OutcomeView::Uninstalled,
            Outcome::Declined => OutcomeView::Declined,
            Outcome::Failed(e) => OutcomeView::Failed(e@),
        }
    }
}

impl OutcomeView {
    /// Success after a clean uninstall and after a declined prompt, failure
    /// after any error.
    pub open spec fn exit_status(self) -> ExitStatus {
        match self {
            OutcomeView::Uninstalled => ExitStatus::Success,
            OutcomeView::Declined => ExitStatus::Success,
            OutcomeView::Failed(_) => ExitStatus::Failure,
        }
    }

    /// The failure that is handed up to whoever ran the command, with its
    /// causal chain: any failure that is not an expected one.
    pub open spec fn unexpected(self) -> Option<ErrorView> {
        match self {
            OutcomeView::Failed(e) => if e.is_expected() {
                None
            } else {
                Some(e)
            },
            _ => None,
        }
    }

    /// What the command itself prints before it leaves. An unexpected failure
    /// prints nothing here: it is handed up with its causal chain.
    pub open spec fn report(self) -> Option<Seq<char>> {
        match self {
            OutcomeView::Uninstalled => Some(success_text()),
            OutcomeView::Declined => Some(declined_text()),
            OutcomeView::Failed(e) => match e.expected() {
                Some(message) => Some(red_text(message)),
                None => None,
            },
        }
    }
}

impl Outcome {
    pub fn exit_status(&self) -> (status: ExitStatus)
        ensures
            status == self@.exit_status(),
    {
        match self {
            Outcome::Uninstalled => ExitStatus::Success,
            Outcome::Declined => ExitStatus::Success,
            Outcome::Failed(_) => ExitStatus::Failure,
        }
    }

    /// The failure to hand up, if the command ended in an unexpected one.
    pub fn unexpected(self) -> (error: Option<HarmonicError>)
        ensures
            match error {
                Some(e) => self@.unexpected() == Some(e@),
                None => self@.unexpected() is None,
            },
    {
        match self {
            Outcome::Failed(e) => if e.is_expected() {
                None
            } else {
                Some(e)
            },
            _ => None,
        }
    }

    /// What the command itself prints before it leaves, if anything.
    pub fn report(&self) -> (text: Option<String>)
        ensures
            match text {
                Some(t) => self@.report() == Some(t@),
                None => self@.report() is None,
            },
    {
        match self {
            Outcome::Uninstalled => Some(success_report()),
            Outcome::Declined => Some(declined_report()),
            Outcome::Failed(e) => match e.expected() {
                Some(message) => Some(failure_report(message.as_str())),
                None => None,
            },
        }
    }
}

/// What the caller reports to an [`UninstallRun`].
#[derive(Debug, Clone, PartialEq, Eq)]
pub enum UninstallEvent {
    /// The process as it was started: whether it has superuser privilege, and
    /// the path of the running executable if it can be told.
    Started { is_root: bool, current_exe: Option<String> },
    /// The executable was copied; `temp_exe` is the path of the copy and
    /// `args` are the arguments the process was started with.
    Copied { temp_exe: String, args: Vec<String> },
    /// The receipt was read and held this plan.
    Loaded(InstallPlan),
    /// The user answered the prompt.
    Answered(bool),
    /// The cancellation signal was sampled between two steps.
    Boundary { cancelled: bool },
    /// The receipt handed out was undone.
    StepSucceeded,
    /// The receipt handed out could not be undone.
    StepFailed(ActionError),
    /// The outside work that was asked for failed, for the given reason.
    Failed(String),
}

/// Mathematical content of an [`UninstallEvent`].
pub enum UninstallEventView {
    Started { is_root: bool, current_exe: Option<Seq<char>> },
    Copied { temp_exe: Seq<char>, args: Seq<Seq<char>> },
    Loaded(PlanView),
    Answered(bool),
    Boundary { cancelled: bool },
    StepSucceeded,
    StepFailed(ActionErrorView),
    Failed(Seq<char>),
}

impl View for UninstallEvent {
    type V = UninstallEventView;

    open spec fn view(&self) -> UninstallEventView {
        match self {
            UninstallEvent::Started { is_root, current_exe } => UninstallEventView::Started {
                is_root: *is_root,
                current_exe: match current_exe {
                    Some(path) => Some(path@),
                    None => None,
                },
            },
            UninstallEvent::Copied { temp_exe, args } => UninstallEventView::Copied {
                temp_exe: temp_exe@,
                args: texts(args@),
            },
            UninstallEvent::Loaded(plan) => UninstallEventView::Loaded(plan@),
            UninstallEvent::Answered(yes) => UninstallEventView::Answered(*yes),
            UninstallEvent::Boundary { cancelled } => UninstallEventView::Boundary {
                cancelled: *cancelled,
            },
            UninstallEvent::StepSucceeded => UninstallEventView::StepSucceeded,
            UninstallEvent::StepFailed(e) => UninstallEventView::StepFailed(e@),
            UninstallEvent::Failed(cause) => UninstallEventView::Failed(cause@),
        }
    }
}

/// What an [`UninstallRun`] asks of the caller.
#[derive(Debug, PartialEq, Eq)]
pub enum UninstallCommand {
    /// Copy the file `from` into the temporary directory under `file_name`
    /// and report [`UninstallEvent::Copied`], with the arguments of the
    /// process.
    CopyExecutable { from: String, file_name: String },
    /// Replace the process by `program`, run with `args`. There is a report
    /// only if that fails.
    Reexecute { program: String, args: Vec<String> },
    /// Read the receipt at this path and report [`UninstallEvent::Loaded`].
    ReadReceipt(std::path::PathBuf),
    /// Show the text, ask whether to go on, and report
    /// [`UninstallEvent::Answered`].
    Confirm(String),
    /// Sample the cancellation signal and report [`UninstallEvent::Boundary`].
    CheckCancellation,
    /// Undo `receipt`, left by the step at `index` of the plan, and report how
    /// it went.
    Revert { index: usize, receipt: Receipt },
    /// The command is over; [`UninstallRun::outcome`] tells how.
    Exit,
    /// The event answers nothing the command asked for. Nothing changed.
    Ignored,
}

/// Mathematical content of an [`UninstallCommand`].
pub enum UninstallCommandView {
    CopyExecutable { from: Seq<char>, file_name: Seq<char> },
    Reexecute { program: Seq<char>, args: Seq<Seq<char>> },
    ReadReceipt(std::path::PathBuf),
    Confirm(Seq<char>),
    CheckCancellation,
    Revert { index: usize, receipt: Receipt },
    Exit,
    Ignored,
}

impl View for UninstallCommand {
    type V = UninstallCommandView;

    open spec fn view(&self) -> UninstallCommandView {
        match self {
            UninstallCommand::CopyExecutable { from, file_name } => {
                UninstallCommandView::CopyExecutable { from: from@, file_name: file_name@ }
            },
            UninstallCommand::Reexecute { program, args } => UninstallCommandView::Reexecute {
                program: program@,
                args: texts(args@),
            },
            UninstallCommand::ReadReceipt(path) => UninstallCommandView::ReadReceipt(*path),
            UninstallCommand::Confirm(text) => UninstallCommandView::Confirm(text@),
            UninstallCommand::CheckCancellation => UninstallCommandView::CheckCancellation,
            UninstallCommand::Revert { index, receipt } => UninstallCommandView::Revert {
                index: *index,
                receipt: *receipt,
            },
            UninstallCommand::Exit => UninstallCommandView::Exit,
            UninstallCommand::Ignored => UninstallCommandView::Ignored,
        }
    }
}

/// Mathematical content of an [`UninstallRun`]: where the command stands.
pub enum UninstallView {
    /// Nothing happened yet; the command waits to hear how it was started.
    Start(Uninstall),
    /// The executable is being copied.
    Copying,
    /// The copy is taking the process over.
    Executing,
    /// The receipt is being read.
    Loading { no_confirm: bool, explain: bool },
    /// The user is being asked.
    Confirming(PlanView),
    /// The plan is being undone.
    Reverting(RevertRunView),
    /// The command is over.
    Done(OutcomeView),
}

/// Why text with a zero byte is turned down.
pub open spec fn nul_cause() -> Seq<char> {
    "nul byte found in provided data"@
}

/// The command once it was stopped while doing the outside work `context`.
pub open spec fn stopped(context: Context, cause: Seq<char>) -> (
    UninstallView,
    UninstallCommandView,
) {
    (
        UninstallView::Done(OutcomeView::Failed(ErrorView::Outside { context, cause })),
        UninstallCommandView::Exit,
    )
}

/// The command as it follows what the run that undoes the plan asks for.
pub open spec fn follow(run: RevertRunView, command: RevertCommand) -> (
    UninstallView,
    UninstallCommandView,
) {
    match command {
        RevertCommand::CheckCancellation => (
            UninstallView::Reverting(run),
            UninstallCommandView::CheckCancellation,
        ),
        RevertCommand::Revert { index, receipt } => (
            UninstallView::Reverting(run),
            UninstallCommandView::Revert { index, receipt },
        ),
        RevertCommand::Ignored => (UninstallView::Reverting(run), UninstallCommandView::Ignored),
        RevertCommand::Finish => (
            UninstallView::Done(
                match run.phase {
                    RevertPhaseView::Failed(e) => OutcomeView::Failed(e),
                    _ => OutcomeView::Uninstalled,
                },
            ),
            UninstallCommandView::Exit,
        ),
    }
}

/// The command as it starts to undo `plan`.
pub open spec fn begin_reverting(plan: PlanView) -> (UninstallView, UninstallCommandView) {
    follow(revert_start(plan).0, revert_start(plan).1)
}

/// Whether the command, on this report, moves its executable: it has
/// superuser privilege and runs from the place an install left it in.
pub open spec fn relocates(run: UninstallView, event: UninstallEventView) -> bool {
    &&& run is Start
    &&& event matches UninstallEventView::Started { is_root, current_exe }
    &&& is_root
    &&& current_exe == Some(INSTALL_LOCATION@)
}

/// The command after `event`, and what it asks for next. `trailer` is the
/// random part of the temporary name, used if the executable has to move.
pub open spec fn uninstall_step(
    run: UninstallView,
    event: UninstallEventView,
    trailer: Seq<char>,
) -> (UninstallView, UninstallCommandView) {
    match (run, event) {
        (UninstallView::Start(options), UninstallEventView::Started { is_root, current_exe }) => {
            if !is_root {
                (
                    UninstallView::Done(OutcomeView::Failed(ErrorView::RootRequired)),
                    UninstallCommandView::Exit,
                )
            } else if current_exe == Some(INSTALL_LOCATION@) {
                (
                    UninstallView::Copying,
                    UninstallCommandView::CopyExecutable {
                        from: INSTALL_LOCATION@,
                        file_name: temp_name(trailer),
                    },
                )
            } else {
                (
                    UninstallView::Loading {
                        no_confirm: options.no_confirm,
                        explain: options.explain,
                    },
                    UninstallCommandView::ReadReceipt(options.receipt),
                )
            }
        },
        (UninstallView::Copying, UninstallEventView::Copied { temp_exe, args }) => {
            if any_has_nul(args) {
                stopped(Context::MakingArgument, nul_cause())
            } else if has_nul(temp_exe) {
                stopped(Context::MakingExecutablePath, nul_cause())
            } else {
                (
                    UninstallView::Executing,
                    UninstallCommandView::Reexecute { program: temp_exe, args },
                )
            }
        },
        (UninstallView::Copying, UninstallEventView::Failed(cause)) => stopped(
            Context::CopyingExecutable,
            cause,
        ),
        (UninstallView::Executing, UninstallEventView::Failed(cause)) => stopped(
            Context::ExecutingCopy,
            cause,
        ),
        (UninstallView::Loading { no_confirm, explain }, UninstallEventView::Loaded(plan)) => {
            if no_confirm {
                begin_reverting(plan)
            } else {
                (
                    UninstallView::Confirming(plan),
                    UninstallCommandView::Confirm(render_uninstall(plan.receipts, explain)),
                )
            }
        },
        (UninstallView::Loading { .. }, UninstallEventView::Failed(cause)) => stopped(
            Context::ReadingReceipt,
            cause,
        ),
        (UninstallView::Confirming(plan), UninstallEventView::Answered(yes)) => {
            if yes {
                begin_reverting(plan)
            } else {
                (UninstallView::Done(OutcomeView::Declined), UninstallCommandView::Exit)
            }
        },
        (UninstallView::Confirming(_), UninstallEventView::Failed(cause)) => stopped(
            Context::Confirming,
            cause,
        ),
        (UninstallView::Reverting(revert), UninstallEventView::Boundary { cancelled }) => {
            let (next, command) = revert_step(revert, RevertEventView::Boundary { cancelled });
            follow(next, command)
        },
        (UninstallView::Reverting(revert), UninstallEventView::StepSucceeded) => {
            let (next, command) = revert_step(revert, RevertEventView::StepSucceeded);
            follow(next, command)
        },
        (UninstallView::Reverting(revert), UninstallEventView::StepFailed(e)) => {
            let (next, command) = revert_step(revert, RevertEventView::StepFailed(e));
            follow(next, command)
        },
        (UninstallView::Reverting(revert), UninstallEventView::Failed(cause)) => {
            if revert.phase is Ready {
                stopped(Context::WatchingSignals, cause)
            } else {
                (run, UninstallCommandView::Ignored)
            }
        },
        _ => (run, UninstallCommandView::Ignored),
    }
}

/// Where an [`UninstallRun`] stands.
#[derive(Debug, PartialEq, Eq)]
enum Phase {
    Start(Uninstall),
    Copying,
    Executing,
    Loading { no_confirm: bool, explain: bool },
    Confirming(InstallPlan),
    Reverting(RevertRun),
    Done(Outcome),
}

/// The uninstall command while it runs.
#[derive(Debug, PartialEq, Eq)]
pub struct UninstallRun {
    phase: Phase,
}

impl View for UninstallRun {
    type V = UninstallView;

    closed spec fn view(&self) -> UninstallView {
        match self.phase {
            Phase::Start(options) => UninstallView::Start(options),
            Phase::Copying => UninstallView::Copying,
            Phase::Executing => UninstallView::Executing,
            Phase::Loading { no_confirm, explain } => UninstallView::Loading {
                no_confirm,
                explain,
            },
            Phase::Confirming(plan) => UninstallView::Confirming(plan@),
            Phase::Reverting(run) => UninstallView::Reverting(run@),
            Phase::Done(outcome) => UninstallView::Done(outcome@),
        }
    }
}

fn stop(context: Context, cause: String) -> (r: (UninstallRun, UninstallCommand))
    ensures
        (r.0@, r.1@) == stopped(context, cause@),
{
    (
        UninstallRun {
            phase: Phase::Done(Outcome::Failed(HarmonicError::Outside { context, cause })),
        },
        UninstallCommand::Exit,
    )
}

fn follow_run(run: RevertRun, command: RevertCommand) -> (r: (UninstallRun, UninstallCommand))
    ensures
        (r.0@, r.1@) == follow(run@, command),
{
    match command {
        RevertCommand::CheckCancellation => (
            UninstallRun { phase: Phase::Reverting(run) },
            UninstallCommand::CheckCancellation,
        ),
        RevertCommand::Revert { index, receipt } => (
            UninstallRun { phase: Phase::Reverting(run) },
            UninstallCommand::Revert { index, receipt },
        ),
        RevertCommand::Ignored => (
            UninstallRun { phase: Phase::Reverting(run) },
            UninstallCommand::Ignored,
        ),
        RevertCommand::Finish => {
            let outcome = match run.result() {
                Some(Err(error)) => Outcome::Failed(error),
                _ => Outcome::Uninstalled,
            };
            (UninstallRun { phase: Phase::Done(outcome) }, UninstallCommand::Exit)
        },
    }
}

fn begin(plan: InstallPlan) -> (r: (UninstallRun, UninstallCommand))
    ensures
        (r.0@, r.1@) == begin_reverting(plan@),
{
    let (run, command) = RevertRun::start(plan);
    follow_run(run, command)
}

impl UninstallRun {
    /// The command before anything happened. It waits for
    /// [`UninstallEvent::Started`].
    pub fn new(options: Uninstall) -> (run: Self)
        ensures
            run@ == UninstallView::Start(options),
    {
        UninstallRun { phase: Phase::Start(options) }
    }

    /// Takes in what the caller reports and says what to do next, with
    /// `trailer` as the random part of the temporary name.
    pub fn step_with(self, event: UninstallEvent, trailer: &str) -> (r: (
        UninstallRun,
        UninstallCommand,
    ))
        ensures
            (r.0@, r.1@) == uninstall_step(self@, event@, trailer@),
    {
        match (self.phase, event) {
            (Phase::Start(options), UninstallEvent::Started { is_root, current_exe }) => {
                if let Err(error) = ensure_root(is_root) {
                    return (
                        UninstallRun { phase: Phase::Done(Outcome::Failed(error)) },
                        UninstallCommand::Exit,
                    );
                }
                if runs_from_install_location(&current_exe) {
                    (
                        UninstallRun { phase: Phase::Copying },
                        UninstallCommand::CopyExecutable {
                            from: String::from_str(INSTALL_LOCATION),
                            file_name: temp_executable_name(trailer),
                        },
                    )
                } else {
                    (
                        UninstallRun {
                            phase: Phase::Loading {
                                no_confirm: options.no_confirm,
                                explain: options.explain,
                            },
                        },
                        UninstallCommand::ReadReceipt(options.receipt),
                    )
                }
            },
            (Phase::Copying, UninstallEvent::Copied { temp_exe, args }) => {
                if any_contains_nul(&args) {
                    stop(Context::MakingArgument, String::from_str("nul byte found in provided data"))
                } else if contains_nul(temp_exe.as_str()) {
                    stop(
                        Context::MakingExecutablePath,
                        String::from_str("nul byte found in provided data"),
                    )
                } else {
                    (
                        UninstallRun { phase: Phase::Executing },
                        UninstallCommand::Reexecute { program: temp_exe, args },
                    )
                }
            },
            (Phase::Copying, UninstallEvent::Failed(cause)) => stop(
                Context::CopyingExecutable,
                cause,
            ),
            (Phase::Executing, UninstallEvent::Failed(cause)) => stop(Context::ExecutingCopy, cause),
            (Phase::Loading { no_confirm, explain }, UninstallEvent::Loaded(plan)) => {
                if no_confirm {
                    begin(plan)
                } else {
                    let text = plan.describe_uninstall(explain);
                    (UninstallRun { phase: Phase::Confirming(plan) }, UninstallCommand::Confirm(text))
                }
            },
            (Phase::Loading { .. }, UninstallEvent::Failed(cause)) => stop(
                Context::ReadingReceipt,
                cause,
            ),
            (Phase::Confirming(plan), UninstallEvent::Answered(yes)) => {
                if yes {
                    begin(plan)
                } else {
                    (UninstallRun { phase: Phase::Done(Outcome::Declined) }, UninstallCommand::Exit)
                }
            },
            (Phase::Confirming(_), UninstallEvent::Failed(cause)) => stop(Context::Confirming, cause),
            (Phase::Reverting(run), UninstallEvent::Boundary { cancelled }) => {
                let (next, command) = run.step(RevertEvent::Boundary { cancelled });
                follow_run(next, command)
            },
            (Phase::Reverting(run), UninstallEvent::StepSucceeded) => {
                let (next, command) = run.step(RevertEvent::StepSucceeded);
                follow_run(next, command)
            },
            (Phase::Reverting(run), UninstallEvent::StepFailed(e)) => {
                let (next, command) = run.step(RevertEvent::StepFailed(e));
                follow_run(next, command)
            },
            (Phase::Reverting(run), UninstallEvent::Failed(cause)) => {
                if run.is_ready() {
                    stop(Context::WatchingSignals, cause)
                } else {
                    (UninstallRun { phase: Phase::Reverting(run) }, UninstallCommand::Ignored)
                }
            },
            (phase, _) => (UninstallRun { phase }, UninstallCommand::Ignored),
        }
    }

    /// Takes in what the caller reports and says what to do next. Where the
    /// executable has to move, the random part of its new name is drawn here.
    pub fn step(self, event: UninstallEvent) -> (r: (UninstallRun, UninstallCommand))
        ensures
            exists|trailer: Seq<char>|
                (relocates(self@, event@) ==> is_trailer(trailer)) && (r.0@, r.1@)
                    == #[trigger] uninstall_step(self@, event@, trailer),
    {
        let moves = match (&self.phase, &event) {
            (Phase::Start(_), UninstallEvent::Started { is_root, current_exe }) => {
                *is_root && runs_from_install_location(current_exe)
            },
            _ => false,
        };
        let trailer = if moves {
            random_trailer()
        } else {
            String::new()
        };
        self.step_with(event, trailer.as_str())
    }

    /// Whether the command is over.
    pub fn is_over(&self) -> (over: bool)
        ensures
            over == (self@ is Done),
    {
        match self.phase {
            Phase::Done(_) => true,
            _ => false,
        }
    }

    /// How the command ended. `None` while it is not over.
    pub fn outcome(self) -> (outcome: Option<Outcome>)
        ensures
            match self@ {
                UninstallView::Done(o) => outcome matches Some(out) && out@ == o,
                _ => outcome is None,
            },
    {
        match self.phase {
            Phase::Done(outcome) => Some(outcome),
            _ => None,
        }
    }
}

} // verus!
