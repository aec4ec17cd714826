//! What holds of every plan and every run, proved from the definitions.

use vstd::prelude::*;
use crate::action::{Action, Receipt};
use crate::error::{cancelled_message, ActionErrorView, Context, ErrorView};
use crate::install::{
    install_start,
    install_step,
    InstallCommand,
    InstallEventView,
    InstallPhaseView,
    InstallRunView,
};
use crate::plan::{receipts_first, PlanView, Step};
use crate::guard::{any_has_nul, has_nul, temp_name, INSTALL_LOCATION};
use crate::revert::{
    revert_start,
    revert_step,
    RevertCommand,
    RevertEventView,
    RevertPhaseView,
    RevertRunView,
};
use crate::style::{red_text, success_text};
use crate::uninstall::{
    begin_reverting,
    uninstall_step,
    ExitStatus,
    OutcomeView,
    Uninstall,
    UninstallCommandView,
    UninstallEventView,
    UninstallView,
};

verus! {

/// A plan of which nothing has been applied.
pub open spec fn fresh(actions: Seq<Action>) -> PlanView {
    PlanView { receipts: Seq::empty(), actions }
}

/// One round of an install that goes well: no cancellation is pending at the
/// boundary, the action handed out leaves `receipt`, and the plan is written
/// down.
pub open spec fn install_round(run: InstallRunView, receipt: Receipt) -> InstallRunView {
    let running = install_step(run, InstallEventView::Boundary { cancelled: false }).0;
    let saving = install_step(running, InstallEventView::StepSucceeded(receipt)).0;
    install_step(saving, InstallEventView::Saved).0
}

/// An install of `plan` after as many rounds as there are receipts, the
/// receipts being those that the steps left, in the order of the steps.
pub open spec fn installed(plan: PlanView, receipts: Seq<Receipt>) -> InstallRunView
    decreases receipts.len(),
{
    if receipts.len() == 0 {
        install_start(plan).0
    } else {
        install_round(installed(plan, receipts.drop_last()), receipts.last())
    }
}

/// One round of an uninstall that goes well: no cancellation is pending at
/// the boundary and the receipt handed out is undone.
pub open spec fn revert_round(run: RevertRunView) -> RevertRunView {
    let reverting = revert_step(run, RevertEventView::Boundary { cancelled: false }).0;
    revert_step(reverting, RevertEventView::StepSucceeded).0
}

/// An uninstall of `plan` after `rounds` rounds.
pub open spec fn reverted(plan: PlanView, rounds: nat) -> RevertRunView
    decreases rounds,
{
    if rounds == 0 {
        revert_start(plan).0
    } else {
        revert_round(reverted(plan, (rounds - 1) as nat))
    }
}

/// In every plan the receipts come first: no step that was applied stands
/// behind one that was not.
pub proof fn law_receipts_come_first(plan: PlanView)
    ensures
        receipts_first(plan.steps()),
        plan.steps().len() == plan.len(),
        forall|i: int|
            0 <= i < plan.receipts.len() ==> #[trigger] plan.steps()[i] == Step::Completed(
                plan.receipts[i],
            ),
        forall|i: int|
            plan.receipts.len() <= i < plan.len() ==> #[trigger] plan.steps()[i] == Step::Planned(
                plan.actions[i - plan.receipts.len()],
            ),
{
}

/// A plan is known by its steps: two plans with the same steps are the same
/// plan. So a plan that is written down step by step and read back is the
/// plan that was written.
pub proof fn law_steps_determine_plan(a: PlanView, b: PlanView)
    requires
        a.steps() == b.steps(),
    ensures
        a == b,
{
    law_receipts_come_first(a);
    law_receipts_come_first(b);
    let n = a.receipts.len() as int;
    let m = b.receipts.len() as int;
    // Where one plan has its first action, the other cannot have a receipt.
    if n < m {
        assert(a.steps()[n] is Planned && b.steps()[n] is Completed);
    }
    if m < n {
        assert(b.steps()[m] is Planned && a.steps()[m] is Completed);
    }
    assert(a.receipts =~= b.receipts) by {
        assert forall|i: int| 0 <= i < n implies a.receipts[i] == b.receipts[i] by {
            assert(a.steps()[i] == b.steps()[i]);
        }
    }
    assert(a.actions =~= b.actions) by {
        assert forall|i: int| 0 <= i < a.actions.len() implies a.actions[i] == b.actions[i] by {
            assert(a.steps()[i + n] == b.steps()[i + n]);
        }
    }
}

/// After `k` rounds of an install, the first `k` steps of the plan hold the
/// receipts that were left, in the order of the steps, and every later step
/// is the action it was. The run waits at the boundary while steps are left
/// and is complete once there are none.
pub proof fn law_install_keeps_order(actions: Seq<Action>, receipts: Seq<Receipt>)
    requires
        receipts.len() <= actions.len(),
    ensures
        installed(fresh(actions), receipts).plan == (PlanView {
            receipts,
            actions: actions.skip(receipts.len() as int),
        }),
        installed(fresh(actions), receipts).phase == if receipts.len() == actions.len() {
            InstallPhaseView::Completed
        } else {
            InstallPhaseView::Ready
        },
    decreases receipts.len(),
{
    let k = receipts.len() as int;
    if k == 0 {
        assert(actions.skip(0) =~= actions);
        assert(receipts =~= Seq::empty());
    } else {
        let earlier = receipts.drop_last();
        law_install_keeps_order(actions, earlier);
        assert(earlier.push(receipts.last()) =~= receipts);
        assert(actions.skip(k - 1).skip(1) =~= actions.skip(k));
    }
}

/// Steps are applied in plan order: with `k` steps applied, the action that
/// the run hands out next is the one at position `k` of the plan.
pub proof fn law_install_in_order(actions: Seq<Action>, receipts: Seq<Receipt>)
    requires
        receipts.len() < actions.len(),
    ensures
        install_step(
            installed(fresh(actions), receipts),
            InstallEventView::Boundary { cancelled: false },
        ).1 == (InstallCommand::Execute {
            index: receipts.len() as usize,
            action: actions[receipts.len() as int],
        }),
{
    law_install_keeps_order(actions, receipts);
}

/// What is written down after a step holds exactly the receipts of the steps
/// applied so far, in order, followed by the actions that were not applied.
/// A process that dies right after that leaves a plan that can be read back
/// and carried on with, or undone.
pub proof fn law_saved_plan(actions: Seq<Action>, receipts: Seq<Receipt>, receipt: Receipt)
    requires
        receipts.len() < actions.len(),
    ensures
        ({
            let ready = installed(fresh(actions), receipts);
            let running = install_step(ready, InstallEventView::Boundary { cancelled: false }).0;
            let (saving, command) = install_step(running, InstallEventView::StepSucceeded(receipt));
            &&& command == InstallCommand::Save
            &&& saving.plan == (PlanView {
                receipts: receipts.push(receipt),
                actions: actions.skip(receipts.len() as int + 1),
            })
            &&& receipts_first(saving.plan.steps())
        }),
{
    law_install_keeps_order(actions, receipts);
    let k = receipts.len() as int;
    assert(actions.skip(k).skip(1) =~= actions.skip(k + 1));
    let ready = installed(fresh(actions), receipts);
    let running = install_step(ready, InstallEventView::Boundary { cancelled: false }).0;
    let saving = install_step(running, InstallEventView::StepSucceeded(receipt)).0;
    law_receipts_come_first(saving.plan);
}

/// A cancellation seen between two steps of an install stops the run there:
/// the steps applied so far keep their receipts, no other step is touched,
/// the failure is an expected one, and whatever is reported afterwards starts
/// nothing.
pub proof fn law_install_cancelled(
    actions: Seq<Action>,
    receipts: Seq<Receipt>,
    later: InstallEventView,
)
    requires
        receipts.len() < actions.len(),
    ensures
        ({
            let ready = installed(fresh(actions), receipts);
            let (stopped, command) = install_step(
                ready,
                InstallEventView::Boundary { cancelled: true },
            );
            &&& command == InstallCommand::Finish
            &&& stopped.phase == InstallPhaseView::Failed(ErrorView::Cancelled)
            &&& ErrorView::Cancelled.is_expected()
            &&& stopped.plan == (PlanView {
                receipts,
                actions: actions.skip(receipts.len() as int),
            })
            &&& install_step(stopped, later) == (stopped, InstallCommand::Ignored)
        }),
{
    law_install_keeps_order(actions, receipts);
}

/// A step that fails during an install stops the run: the steps applied
/// before keep their receipts, the failed step and those behind it stay
/// actions, and nothing is rolled back.
pub proof fn law_install_halts_on_failure(
    actions: Seq<Action>,
    receipts: Seq<Receipt>,
    failure: ActionErrorView,
    later: InstallEventView,
)
    requires
        receipts.len() < actions.len(),
    ensures
        ({
            let ready = installed(fresh(actions), receipts);
            let running = install_step(ready, InstallEventView::Boundary { cancelled: false }).0;
            let (stopped, command) = install_step(running, InstallEventView::StepFailed(failure));
            &&& command == InstallCommand::Finish
            &&& stopped.phase == InstallPhaseView::Failed(ErrorView::Action(failure))
            &&& stopped.plan == (PlanView {
                receipts,
                actions: actions.skip(receipts.len() as int),
            })
            &&& install_step(stopped, later) == (stopped, InstallCommand::Ignored)
        }),
{
    law_install_keeps_order(actions, receipts);
}

/// After `rounds` rounds of an uninstall, the latest `rounds` receipts are
/// gone and the earlier ones stand as they were. The run waits at the
/// boundary while receipts are left and is complete once there are none.
pub proof fn law_uninstall_keeps_order(plan: PlanView, rounds: nat)
    requires
        rounds <= plan.receipts.len(),
    ensures
        reverted(plan, rounds).plan == (PlanView {
            receipts: plan.receipts.take(plan.receipts.len() - rounds),
            actions: plan.actions,
        }),
        reverted(plan, rounds).phase == if rounds == plan.receipts.len() {
            RevertPhaseView::Completed
        } else {
            RevertPhaseView::Ready
        },
    decreases rounds,
{
    let n = plan.receipts.len() as int;
    if rounds == 0 {
        assert(plan.receipts.take(n) =~= plan.receipts);
    } else {
        law_uninstall_keeps_order(plan, (rounds - 1) as nat);
        assert(plan.receipts.take(n - rounds + 1).drop_last() =~= plan.receipts.take(n - rounds));
    }
}

/// Receipts are undone in the exact reverse of plan order: with `rounds`
/// receipts undone, the receipt that the run hands out next is the one that
/// stands `rounds` places before the end.
pub proof fn law_uninstall_in_reverse(plan: PlanView, rounds: nat)
    requires
        rounds < plan.receipts.len(),
    ensures
        revert_step(reverted(plan, rounds), RevertEventView::Boundary { cancelled: false }).1 == (
        RevertCommand::Revert {
            index: (plan.receipts.len() - 1 - rounds) as usize,
            receipt: plan.receipts[plan.receipts.len() - 1 - rounds],
        }),
{
    law_uninstall_keeps_order(plan, rounds);
}

/// A plan that was applied from the first step to the last holds the receipts
/// in the order of its actions, and its uninstall hands them out last to
/// first.
pub proof fn law_install_then_uninstall(
    actions: Seq<Action>,
    receipts: Seq<Receipt>,
    rounds: nat,
)
    requires
        receipts.len() == actions.len(),
        rounds < receipts.len(),
    ensures
        ({
            let done = installed(fresh(actions), receipts);
            &&& done.phase == InstallPhaseView::Completed
            &&& done.plan.receipts == receipts
            &&& done.plan.actions.len() == 0
            &&& revert_step(
                reverted(done.plan, rounds),
                RevertEventView::Boundary { cancelled: false },
            ).1 == (RevertCommand::Revert {
                index: (receipts.len() - 1 - rounds) as usize,
                receipt: receipts[receipts.len() - 1 - rounds],
            })
            &&& reverted(done.plan, receipts.len()).phase == RevertPhaseView::Completed
            &&& reverted(done.plan, receipts.len()).plan.receipts.len() == 0
        }),
{
    law_install_keeps_order(actions, receipts);
    let done = installed(fresh(actions), receipts);
    law_uninstall_in_reverse(done.plan, rounds);
    law_uninstall_keeps_order(done.plan, receipts.len());
}

/// A cancellation seen between two steps of an uninstall stops the run there:
/// what was undone stays undone, the other receipts stand untouched, the
/// failure is an expected one, and whatever is reported afterwards starts
/// nothing.
pub proof fn law_uninstall_cancelled(plan: PlanView, rounds: nat, later: RevertEventView)
    requires
        rounds < plan.receipts.len(),
    ensures
        ({
            let ready = reverted(plan, rounds);
            let (stopped, command) = revert_step(
                ready,
                RevertEventView::Boundary { cancelled: true },
            );
            &&& command == RevertCommand::Finish
            &&& stopped.phase == RevertPhaseView::Failed(ErrorView::Cancelled)
            &&& ErrorView::Cancelled.is_expected()
            &&& stopped.plan == (PlanView {
                receipts: plan.receipts.take(plan.receipts.len() - rounds),
                actions: plan.actions,
            })
            &&& revert_step(stopped, later) == (stopped, RevertCommand::Ignored)
        }),
{
    law_uninstall_keeps_order(plan, rounds);
}

/// A reversal that fails stops the uninstall: the failed receipt and the
/// earlier ones stand as they were, and nothing that was undone is applied
/// again.
pub proof fn law_uninstall_halts_on_failure(
    plan: PlanView,
    rounds: nat,
    failure: ActionErrorView,
    later: RevertEventView,
)
    requires
        rounds < plan.receipts.len(),
    ensures
        ({
            let ready = reverted(plan, rounds);
            let reverting = revert_step(ready, RevertEventView::Boundary { cancelled: false }).0;
            let (stopped, command) = revert_step(reverting, RevertEventView::StepFailed(failure));
            &&& command == RevertCommand::Finish
            &&& stopped.phase == RevertPhaseView::Failed(ErrorView::Action(failure))
            &&& stopped.plan == (PlanView {
                receipts: plan.receipts.take(plan.receipts.len() - rounds),
                actions: plan.actions,
            })
            &&& revert_step(stopped, later) == (stopped, RevertCommand::Ignored)
        }),
{
    law_uninstall_keeps_order(plan, rounds);
}

/// Without superuser privilege the uninstall command ends at once, before it
/// asks for any outside work, with an expected failure and a failure status.
pub proof fn law_root_required(
    options: Uninstall,
    current_exe: Option<Seq<char>>,
    trailer: Seq<char>,
)
    ensures
        ({
            let (after, command) = uninstall_step(
                UninstallView::Start(options),
                UninstallEventView::Started { is_root: false, current_exe },
                trailer,
            );
            &&& command == UninstallCommandView::Exit
            &&& after == UninstallView::Done(OutcomeView::Failed(ErrorView::RootRequired))
            &&& ErrorView::RootRequired.is_expected()
            &&& OutcomeView::Failed(ErrorView::RootRequired).exit_status() == ExitStatus::Failure
        }),
{
}

/// When the command runs from the place an install left it in, it moves
/// before anything else: the copy gets a name that ends in the random part,
/// and it is started with the arguments the command was started with, none
/// added, dropped or changed.
pub proof fn law_relocation_keeps_arguments(
    options: Uninstall,
    args: Seq<Seq<char>>,
    trailer: Seq<char>,
    temp_exe: Seq<char>,
)
    requires
        !any_has_nul(args),
        !has_nul(temp_exe),
    ensures
        ({
            let (copying, first) = uninstall_step(
                UninstallView::Start(options),
                UninstallEventView::Started { is_root: true, current_exe: Some(INSTALL_LOCATION@) },
                trailer,
            );
            let (executing, second) = uninstall_step(
                copying,
                UninstallEventView::Copied { temp_exe, args },
                trailer,
            );
            &&& first == (UninstallCommandView::CopyExecutable {
                from: INSTALL_LOCATION@,
                file_name: temp_name(trailer),
            })
            &&& second == (UninstallCommandView::Reexecute { program: temp_exe, args })
        }),
{
}

/// A "no" at the prompt ends the command with a success status. No receipt is
/// handed out to be undone, then or later.
pub proof fn law_declined(plan: PlanView, trailer: Seq<char>, later: UninstallEventView)
    ensures
        ({
            let (after, command) = uninstall_step(
                UninstallView::Confirming(plan),
                UninstallEventView::Answered(false),
                trailer,
            );
            &&& command == UninstallCommandView::Exit
            &&& after == UninstallView::Done(OutcomeView::Declined)
            &&& OutcomeView::Declined.exit_status() == ExitStatus::Success
            &&& uninstall_step(after, later, trailer) == (after, UninstallCommandView::Ignored)
        }),
{
}

/// The prompt is skipped only when the command was told so.
pub proof fn law_prompt_before_reverting(plan: PlanView, explain: bool, trailer: Seq<char>)
    ensures
        uninstall_step(
            UninstallView::Loading { no_confirm: false, explain },
            UninstallEventView::Loaded(plan),
            trailer,
        ).0 == UninstallView::Confirming(plan),
        uninstall_step(
            UninstallView::Loading { no_confirm: false, explain },
            UninstallEventView::Loaded(plan),
            trailer,
        ).1 is Confirm,
{
}

/// A receipt that cannot be read, or that holds no plan, ends the command
/// with an unexpected failure whose causal chain names the reading of the
/// receipt. No receipt is handed out to be undone, then or later.
pub proof fn law_unreadable_receipt(
    no_confirm: bool,
    explain: bool,
    cause: Seq<char>,
    trailer: Seq<char>,
    later: UninstallEventView,
)
    ensures
        ({
            let (after, command) = uninstall_step(
                UninstallView::Loading { no_confirm, explain },
                UninstallEventView::Failed(cause),
                trailer,
            );
            let error = ErrorView::Outside { context: Context::ReadingReceipt, cause };
            &&& command == UninstallCommandView::Exit
            &&& after == UninstallView::Done(OutcomeView::Failed(error))
            &&& !error.is_expected()
            &&& error.chain().contains("Reading receipt"@)
            &&& error.chain().contains(cause)
            &&& OutcomeView::Failed(error).exit_status() == ExitStatus::Failure
            &&& OutcomeView::Failed(error).report() is None
            &&& uninstall_step(after, later, trailer) == (after, UninstallCommandView::Ignored)
        }),
{
    let error = ErrorView::Outside { context: Context::ReadingReceipt, cause };
    assert(error.chain()[0] == "Reading receipt"@);
    assert(error.chain()[1] == cause);
}

/// The uninstall command while it undoes `plan`, after `rounds` rounds that
/// went well: no cancellation was pending and the receipt handed out was
/// undone.
pub open spec fn undoing(plan: PlanView, rounds: nat, trailer: Seq<char>) -> UninstallView
    decreases rounds,
{
    if rounds == 0 {
        begin_reverting(plan).0
    } else {
        let before = undoing(plan, (rounds - 1) as nat, trailer);
        let reverting = uninstall_step(
            before,
            UninstallEventView::Boundary { cancelled: false },
            trailer,
        ).0;
        uninstall_step(reverting, UninstallEventView::StepSucceeded, trailer).0
    }
}

/// The uninstall command follows the run that undoes the plan round by
/// round, and is over with a clean uninstall once no receipt is left.
pub proof fn law_command_follows_the_run(plan: PlanView, rounds: nat, trailer: Seq<char>)
    requires
        rounds <= plan.receipts.len(),
    ensures
        undoing(plan, rounds, trailer) == if rounds == plan.receipts.len() {
            UninstallView::Done(OutcomeView::Uninstalled)
        } else {
            UninstallView::Reverting(reverted(plan, rounds))
        },
    decreases rounds,
{
    if rounds > 0 {
        law_command_follows_the_run(plan, (rounds - 1) as nat, trailer);
        law_uninstall_keeps_order(plan, (rounds - 1) as nat);
        law_uninstall_keeps_order(plan, rounds);
    }
}

/// The uninstall command hands the receipts out last to first, and leaves
/// with a success status and the success message once all are undone.
pub proof fn law_command_undoes_in_reverse(plan: PlanView, rounds: nat, trailer: Seq<char>)
    requires
        rounds < plan.receipts.len(),
    ensures
        uninstall_step(
            undoing(plan, rounds, trailer),
            UninstallEventView::Boundary { cancelled: false },
            trailer,
        ).1 == (UninstallCommandView::Revert {
            index: (plan.receipts.len() - 1 - rounds) as usize,
            receipt: plan.receipts[plan.receipts.len() - 1 - rounds],
        }),
        undoing(plan, plan.receipts.len(), trailer) == UninstallView::Done(
            OutcomeView::Uninstalled,
        ),
        OutcomeView::Uninstalled.exit_status() == ExitStatus::Success,
        OutcomeView::Uninstalled.report() == Some(success_text()),
{
    law_command_follows_the_run(plan, rounds, trailer);
    law_command_follows_the_run(plan, plan.receipts.len(), trailer);
    law_uninstall_in_reverse(plan, rounds);
    law_uninstall_keeps_order(plan, rounds);
}

/// A cancellation seen between two steps ends the uninstall command with an
/// expected failure: the message is shown in red, the status is a failure,
/// and no other receipt is handed out.
pub proof fn law_command_cancelled(
    plan: PlanView,
    rounds: nat,
    trailer: Seq<char>,
    later: UninstallEventView,
)
    requires
        rounds < plan.receipts.len(),
    ensures
        ({
            let (after, command) = uninstall_step(
                undoing(plan, rounds, trailer),
                UninstallEventView::Boundary { cancelled: true },
                trailer,
            );
            let outcome = OutcomeView::Failed(ErrorView::Cancelled);
            &&& command == UninstallCommandView::Exit
            &&& after == UninstallView::Done(outcome)
            &&& outcome.exit_status() == ExitStatus::Failure
            &&& outcome.report() == Some(red_text(cancelled_message()))
            &&& uninstall_step(after, later, trailer) == (after, UninstallCommandView::Ignored)
        }),
{
    law_command_follows_the_run(plan, rounds, trailer);
    law_uninstall_keeps_order(plan, rounds);
}

/// However the command ends, it either says so itself or hands the failure
/// up, never both and never neither: a clean uninstall, a declined prompt and
/// an expected failure are reported by the command, an unexpected failure is
/// handed up.
pub proof fn law_shown_or_handed_up(outcome: OutcomeView)
    ensures
        outcome.report() is Some <==> outcome.unexpected() is None,
        outcome.unexpected() is Some ==> outcome.exit_status() == ExitStatus::Failure,
        outcome.exit_status() == ExitStatus::Success <==> outcome is Uninstalled
            || outcome is Declined,
{
}

} // verus!
