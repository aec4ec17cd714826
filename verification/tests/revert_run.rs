use harmonic::action::{Action, PlaceNixConfiguration, PlaceNixConfigurationReceipt, Receipt};
use harmonic::error::{ActionError, HarmonicError};
use harmonic::install::{InstallCommand, InstallEvent, InstallRun};
use harmonic::plan::InstallPlan;
use harmonic::revert::{RevertCommand, RevertEvent, RevertRun};

fn action() -> Action {
    Action::PlaceNixConfiguration(PlaceNixConfiguration::plan())
}

fn receipt() -> Receipt {
    Receipt::PlaceNixConfiguration(PlaceNixConfigurationReceipt {})
}

fn applied(n: usize) -> InstallPlan {
    InstallPlan { receipts: vec![receipt(); n], actions: vec![] }
}

#[test]
fn uninstall_undoes_receipts_last_to_first() {
    let (mut run, command) = RevertRun::start(applied(3));
    assert_eq!(command, RevertCommand::CheckCancellation);
    let mut handed_out = vec![];
    for round in 0..3 {
        let (next, command) = run.step(RevertEvent::Boundary { cancelled: false });
        match command {
            RevertCommand::Revert { index, receipt: r } => {
                assert_eq!(r, receipt());
                handed_out.push(index);
            }
            other => panic!("no receipt was handed out: {:?}", other),
        }
        let (next, command) = next.step(RevertEvent::StepSucceeded);
        run = next;
        if round < 2 {
            assert_eq!(command, RevertCommand::CheckCancellation);
        } else {
            assert_eq!(command, RevertCommand::Finish);
        }
    }
    assert_eq!(handed_out, vec![2, 1, 0]);
    assert!(run.is_over());
    assert_eq!(run.plan().completed(), 0);
    assert_eq!(run.result(), Some(Ok(())));
}

#[test]
fn install_then_uninstall_walks_the_plan_both_ways() {
    let (mut run, _) = InstallRun::start(InstallPlan::new(vec![action(); 4]));
    let mut applied_order = vec![];
    loop {
        let (next, command) = run.step(InstallEvent::Boundary { cancelled: false });
        match command {
            InstallCommand::Execute { index, .. } => applied_order.push(index),
            other => panic!("no action was handed out: {:?}", other),
        }
        let (next, _) = next.step(InstallEvent::StepSucceeded(receipt()));
        let (next, command) = next.step(InstallEvent::Saved);
        run = next;
        if command == InstallCommand::Finish {
            break;
        }
    }
    assert_eq!(applied_order, vec![0, 1, 2, 3]);
    let plan = run.result().unwrap().unwrap();

    let (mut run, _) = RevertRun::start(plan);
    let mut undone_order = vec![];
    loop {
        let (next, command) = run.step(RevertEvent::Boundary { cancelled: false });
        match command {
            RevertCommand::Revert { index, .. } => undone_order.push(index),
            other => panic!("no receipt was handed out: {:?}", other),
        }
        let (next, command) = next.step(RevertEvent::StepSucceeded);
        run = next;
        if command == RevertCommand::Finish {
            break;
        }
    }
    assert_eq!(undone_order, vec![3, 2, 1, 0]);
}

#[test]
fn uninstall_of_nothing_is_complete_at_once() {
    let (run, command) = RevertRun::start(InstallPlan::new(vec![action()]));
    assert_eq!(command, RevertCommand::Finish);
    assert!(run.is_over());
    assert!(!run.is_ready());
    assert_eq!(run.plan().pending(), 1);
    assert_eq!(run.result(), Some(Ok(())));
}

#[test]
fn uninstall_leaves_actions_that_were_never_applied() {
    let plan = InstallPlan { receipts: vec![receipt()], actions: vec![action(), action()] };
    let (run, _) = RevertRun::start(plan);
    assert!(run.is_ready());
    let (run, command) = run.step(RevertEvent::Boundary { cancelled: false });
    assert_eq!(command, RevertCommand::Revert { index: 0, receipt: receipt() });
    assert!(!run.is_ready());
    let (run, command) = run.step(RevertEvent::StepSucceeded);
    assert_eq!(command, RevertCommand::Finish);
    assert_eq!(run.plan(), &InstallPlan::new(vec![action(), action()]));
}

#[test]
fn cancellation_between_steps_stops_the_uninstall() {
    let (run, _) = RevertRun::start(applied(3));
    let (run, _) = run.step(RevertEvent::Boundary { cancelled: false });
    let (run, _) = run.step(RevertEvent::StepSucceeded);
    let (run, command) = run.step(RevertEvent::Boundary { cancelled: true });
    assert_eq!(command, RevertCommand::Finish);
    assert_eq!(run.plan(), &applied(2));
    let (run, command) = run.step(RevertEvent::Boundary { cancelled: false });
    assert_eq!(command, RevertCommand::Ignored);
    let error = run.result().unwrap().unwrap_err();
    assert_eq!(error, HarmonicError::Cancelled);
    assert!(error.is_expected());
}

#[test]
fn a_reversal_that_was_started_is_not_cancelled() {
    let (run, _) = RevertRun::start(applied(1));
    let (run, _) = run.step(RevertEvent::Boundary { cancelled: false });
    let (run, command) = run.step(RevertEvent::Boundary { cancelled: true });
    assert_eq!(command, RevertCommand::Ignored);
    let (run, command) = run.step(RevertEvent::StepSucceeded);
    assert_eq!(command, RevertCommand::Finish);
    assert_eq!(run.result(), Some(Ok(())));
}

#[test]
fn a_failed_reversal_stops_the_uninstall() {
    let (run, _) = RevertRun::start(applied(3));
    let (run, _) = run.step(RevertEvent::Boundary { cancelled: false });
    let (run, _) = run.step(RevertEvent::StepSucceeded);
    let (run, command) = run.step(RevertEvent::Boundary { cancelled: false });
    assert_eq!(command, RevertCommand::Revert { index: 1, receipt: receipt() });
    let failure = ActionError { message: "The unit is not loaded".to_string(), expected: true };
    let (run, command) = run.step(RevertEvent::StepFailed(failure.clone()));
    assert_eq!(command, RevertCommand::Finish);
    assert_eq!(run.plan(), &applied(2));
    let (run, command) = run.step(RevertEvent::StepSucceeded);
    assert_eq!(command, RevertCommand::Ignored);
    let error = run.result().unwrap().unwrap_err();
    assert_eq!(error, HarmonicError::Action(failure));
    assert_eq!(error.expected(), Some("The unit is not loaded".to_string()));
}

#[test]
fn reversal_events_out_of_turn_change_nothing() {
    let (run, _) = RevertRun::start(applied(2));
    let before = run.clone();
    let (run, command) = run.step(RevertEvent::StepSucceeded);
    assert_eq!(command, RevertCommand::Ignored);
    assert_eq!(run, before);
    let failure = ActionError { message: "x".to_string(), expected: false };
    let (run, command) = run.step(RevertEvent::StepFailed(failure));
    assert_eq!(command, RevertCommand::Ignored);
    assert_eq!(run, before);
    assert_eq!(run.result(), None);
}
