use std::path::PathBuf;

use harmonic::action::{Action, PlaceNixConfiguration, PlaceNixConfigurationReceipt, Receipt};
use harmonic::error::{ActionError, Context, HarmonicError};
use harmonic::plan::InstallPlan;
use harmonic::uninstall::{
    ExitStatus, Outcome, Uninstall, UninstallCommand, UninstallEvent, UninstallRun,
};

const CHARSET: &str = "ABCDEFGHIJKLMNOPQRSTUVWXYZabcdefghijklmnopqrstuvwxyz0123456789";

fn action() -> Action {
    Action::PlaceNixConfiguration(PlaceNixConfiguration::plan())
}

fn receipt() -> Receipt {
    Receipt::PlaceNixConfiguration(PlaceNixConfigurationReceipt {})
}

fn applied(n: usize) -> InstallPlan {
    InstallPlan { receipts: vec![receipt(); n], actions: vec![] }
}

fn options(no_confirm: bool, explain: bool) -> Uninstall {
    Uninstall { no_confirm, explain, receipt: PathBuf::from("/nix/receipt.json") }
}

fn args() -> Vec<String> {
    vec!["/nix/nix-installer".to_string(), "uninstall".to_string(), "--explain".to_string()]
}

fn started(is_root: bool, exe: Option<&str>) -> UninstallEvent {
    UninstallEvent::Started { is_root, current_exe: exe.map(|p| p.to_string()) }
}

fn copied(temp_exe: &str) -> UninstallEvent {
    UninstallEvent::Copied { temp_exe: temp_exe.to_string(), args: args() }
}

fn loading(no_confirm: bool, explain: bool) -> UninstallRun {
    let run = UninstallRun::new(options(no_confirm, explain));
    let (run, command) = run.step(started(true, Some("/usr/local/bin/nix-installer")));
    assert_eq!(command, UninstallCommand::ReadReceipt(PathBuf::from("/nix/receipt.json")));
    run
}

fn reverting(n: usize) -> UninstallRun {
    let (run, command) = loading(true, false).step(UninstallEvent::Loaded(applied(n)));
    assert_eq!(command, UninstallCommand::CheckCancellation);
    run
}

#[test]
fn without_root_the_command_fails_at_once() {
    let run = UninstallRun::new(options(false, false));
    assert!(!run.is_over());
    let (run, command) = run.step(started(false, Some("/nix/nix-installer")));
    assert_eq!(command, UninstallCommand::Exit);
    assert!(run.is_over());
    let outcome = run.outcome().unwrap();
    assert_eq!(outcome, Outcome::Failed(HarmonicError::RootRequired));
    assert_eq!(outcome.exit_status(), ExitStatus::Failure);
    assert_eq!(
        outcome.report(),
        Some("\u{1b}[31m`nix-installer` needs to run as `root`\u{1b}[39m".to_string())
    );
}

#[test]
fn without_root_nothing_is_asked_for_later_either() {
    let run = UninstallRun::new(options(true, false));
    let (run, _) = run.step(started(false, None));
    let (run, command) = run.step(UninstallEvent::Loaded(applied(2)));
    assert_eq!(command, UninstallCommand::Ignored);
    let (run, command) = run.step(UninstallEvent::Boundary { cancelled: false });
    assert_eq!(command, UninstallCommand::Ignored);
    assert_eq!(run.outcome(), Some(Outcome::Failed(HarmonicError::RootRequired)));
}

#[test]
fn from_elsewhere_the_command_reads_the_receipt() {
    let run = UninstallRun::new(Uninstall {
        no_confirm: false,
        explain: false,
        receipt: PathBuf::from("/var/tmp/other-receipt.json"),
    });
    let (run, command) = run.step(started(true, Some("/usr/bin/nix-installer")));
    assert_eq!(command, UninstallCommand::ReadReceipt(PathBuf::from("/var/tmp/other-receipt.json")));
    assert!(!run.is_over());
    assert_eq!(run.outcome(), None);
}

#[test]
fn with_no_known_executable_the_command_reads_the_receipt() {
    let run = UninstallRun::new(options(false, false));
    let (_, command) = run.step(started(true, None));
    assert_eq!(command, UninstallCommand::ReadReceipt(PathBuf::from("/nix/receipt.json")));
}

#[test]
fn from_the_install_location_the_command_moves_first() {
    let run = UninstallRun::new(options(false, false));
    let (run, command) =
        run.step_with(started(true, Some("/nix/nix-installer")), "AbCdEfGhIjKlMnOp");
    assert_eq!(
        command,
        UninstallCommand::CopyExecutable {
            from: "/nix/nix-installer".to_string(),
            file_name: "nix-installer-AbCdEfGhIjKlMnOp".to_string(),
        }
    );
    let temp_exe = "/tmp/nix-installer-AbCdEfGhIjKlMnOp".to_string();
    let (run, command) = run.step(copied(&temp_exe));
    assert_eq!(command, UninstallCommand::Reexecute { program: temp_exe, args: args() });
    assert!(!run.is_over());
}

#[test]
fn the_copy_gets_a_random_name() {
    let run = UninstallRun::new(options(false, false));
    let (_, command) = run.step(started(true, Some("/nix/nix-installer")));
    match command {
        UninstallCommand::CopyExecutable { from, file_name } => {
            assert_eq!(from, "/nix/nix-installer");
            let trailer = file_name.strip_prefix("nix-installer-").unwrap();
            assert_eq!(trailer.chars().count(), 16);
            assert!(trailer.chars().all(|c| CHARSET.contains(c)));
        }
        other => panic!("the executable was not copied: {:?}", other),
    }
}

#[test]
fn a_copy_that_fails_is_unexpected() {
    let run = UninstallRun::new(options(false, false));
    let (run, _) = run.step(started(true, Some("/nix/nix-installer")));
    let (run, command) = run.step(UninstallEvent::Failed("No space left on device".to_string()));
    assert_eq!(command, UninstallCommand::Exit);
    let outcome = run.outcome().unwrap();
    assert_eq!(
        outcome,
        Outcome::Failed(HarmonicError::Outside {
            context: Context::CopyingExecutable,
            cause: "No space left on device".to_string()
        })
    );
    assert_eq!(outcome.report(), None);
    assert_eq!(outcome.exit_status(), ExitStatus::Failure);
}

#[test]
fn an_argument_with_a_zero_byte_stops_the_move() {
    let run = UninstallRun::new(options(false, false));
    let (run, _) = run.step(started(true, Some("/nix/nix-installer")));
    let (run, command) = run.step(UninstallEvent::Copied {
        temp_exe: "/tmp/nix-installer-x".to_string(),
        args: vec!["nix-installer".to_string(), "un\0install".to_string()],
    });
    assert_eq!(command, UninstallCommand::Exit);
    match run.outcome() {
        Some(Outcome::Failed(error)) => {
            assert!(!error.is_expected());
            assert_eq!(
                error.chain(),
                vec![
                    "Making arg into C string".to_string(),
                    "nul byte found in provided data".to_string()
                ]
            );
        }
        other => panic!("the command went on: {:?}", other),
    }
}

#[test]
fn a_copy_path_with_a_zero_byte_stops_the_move() {
    let run = UninstallRun::new(options(false, false));
    let (run, _) = run.step(started(true, Some("/nix/nix-installer")));
    let (run, command) = run.step(copied("/tmp/\0/nix-installer-x"));
    assert_eq!(command, UninstallCommand::Exit);
    assert_eq!(
        run.outcome(),
        Some(Outcome::Failed(HarmonicError::Outside {
            context: Context::MakingExecutablePath,
            cause: "nul byte found in provided data".to_string()
        }))
    );
}

#[test]
fn a_copy_that_cannot_be_started_is_unexpected() {
    let run = UninstallRun::new(options(false, false));
    let (run, _) = run.step(started(true, Some("/nix/nix-installer")));
    let (run, _) = run.step(copied("/tmp/nix-installer-x"));
    let (run, command) = run.step(UninstallEvent::Failed("EACCES: Permission denied".to_string()));
    assert_eq!(command, UninstallCommand::Exit);
    match run.outcome() {
        Some(Outcome::Failed(error)) => assert_eq!(
            error.chain(),
            vec![
                "Executing copied `nix-installer`".to_string(),
                "EACCES: Permission denied".to_string()
            ]
        ),
        other => panic!("the command went on: {:?}", other),
    }
}

#[test]
fn a_receipt_that_cannot_be_read_is_unexpected() {
    let cause = "expected value at line 1 column 1";
    let (run, command) = loading(false, false).step(UninstallEvent::Failed(cause.to_string()));
    assert_eq!(command, UninstallCommand::Exit);
    let (run, command) = run.step(UninstallEvent::Boundary { cancelled: false });
    assert_eq!(command, UninstallCommand::Ignored);
    let outcome = run.outcome().unwrap();
    assert_eq!(outcome.exit_status(), ExitStatus::Failure);
    assert_eq!(outcome.report(), None);
    match outcome {
        Outcome::Failed(error) => {
            assert!(!error.is_expected());
            assert!(error.chain().contains(&"Reading receipt".to_string()));
            assert!(error.chain().contains(&cause.to_string()));
        }
        other => panic!("the command went on: {:?}", other),
    }
}

#[test]
fn the_user_is_asked_with_the_titles() {
    let (run, command) = loading(false, false).step(UninstallEvent::Loaded(applied(2)));
    assert_eq!(
        command,
        UninstallCommand::Confirm(
            "* Stop the systemd Nix daemon\n* Stop the systemd Nix daemon\n".to_string()
        )
    );
    assert!(!run.is_over());
}

#[test]
fn the_user_is_asked_with_the_explanations() {
    let (_, command) = loading(false, true).step(UninstallEvent::Loaded(applied(1)));
    assert_eq!(
        command,
        UninstallCommand::Confirm(
            "* Stop the systemd Nix daemon\n  The `nix` command line tool communicates with a running Nix daemon managed by your init system\n".to_string()
        )
    );
}

#[test]
fn a_no_leaves_everything_as_it_is() {
    let (run, _) = loading(false, false).step(UninstallEvent::Loaded(applied(2)));
    let (run, command) = run.step(UninstallEvent::Answered(false));
    assert_eq!(command, UninstallCommand::Exit);
    let (run, command) = run.step(UninstallEvent::Boundary { cancelled: false });
    assert_eq!(command, UninstallCommand::Ignored);
    let outcome = run.outcome().unwrap();
    assert_eq!(outcome, Outcome::Declined);
    assert_eq!(outcome.exit_status(), ExitStatus::Success);
    assert_eq!(outcome.report(), Some("Okay, didn't do anything! Bye!".to_string()));
}

#[test]
fn a_prompt_that_fails_is_unexpected() {
    let (run, _) = loading(false, false).step(UninstallEvent::Loaded(applied(2)));
    let (run, command) = run.step(UninstallEvent::Failed("stdin is closed".to_string()));
    assert_eq!(command, UninstallCommand::Exit);
    assert_eq!(
        run.outcome(),
        Some(Outcome::Failed(HarmonicError::Outside {
            context: Context::Confirming,
            cause: "stdin is closed".to_string()
        }))
    );
}

#[test]
fn a_yes_undoes_the_plan_last_to_first() {
    let (run, _) = loading(false, false).step(UninstallEvent::Loaded(applied(2)));
    let (run, command) = run.step(UninstallEvent::Answered(true));
    assert_eq!(command, UninstallCommand::CheckCancellation);
    let (run, command) = run.step(UninstallEvent::Boundary { cancelled: false });
    assert_eq!(command, UninstallCommand::Revert { index: 1, receipt: receipt() });
    let (run, command) = run.step(UninstallEvent::StepSucceeded);
    assert_eq!(command, UninstallCommand::CheckCancellation);
    let (run, command) = run.step(UninstallEvent::Boundary { cancelled: false });
    assert_eq!(command, UninstallCommand::Revert { index: 0, receipt: receipt() });
    let (run, command) = run.step(UninstallEvent::StepSucceeded);
    assert_eq!(command, UninstallCommand::Exit);
    let outcome = run.outcome().unwrap();
    assert_eq!(outcome, Outcome::Uninstalled);
    assert_eq!(outcome.exit_status(), ExitStatus::Success);
    assert_eq!(
        outcome.report(),
        Some("\u{1b}[1m\u{1b}[32mNix was uninstalled successfully!\u{1b}[39m\u{1b}[0m\n".to_string())
    );
}

#[test]
fn no_confirm_skips_the_prompt() {
    let run = reverting(1);
    let (run, command) = run.step(UninstallEvent::Answered(false));
    assert_eq!(command, UninstallCommand::Ignored);
    let (_, command) = run.step(UninstallEvent::Boundary { cancelled: false });
    assert_eq!(command, UninstallCommand::Revert { index: 0, receipt: receipt() });
}

#[test]
fn a_plan_without_receipts_is_uninstalled_at_once() {
    let plan = InstallPlan::new(vec![action()]);
    let (run, command) = loading(true, false).step(UninstallEvent::Loaded(plan));
    assert_eq!(command, UninstallCommand::Exit);
    assert_eq!(run.outcome(), Some(Outcome::Uninstalled));
}

#[test]
fn signals_that_cannot_be_watched_are_unexpected() {
    let (run, command) = reverting(2).step(UninstallEvent::Failed("no reactor".to_string()));
    assert_eq!(command, UninstallCommand::Exit);
    assert_eq!(
        run.outcome(),
        Some(Outcome::Failed(HarmonicError::Outside {
            context: Context::WatchingSignals,
            cause: "no reactor".to_string()
        }))
    );
}

#[test]
fn a_reversal_fails_through_its_own_report_only() {
    let (run, _) = reverting(2).step(UninstallEvent::Boundary { cancelled: false });
    let (same, _) = reverting(2).step(UninstallEvent::Boundary { cancelled: false });
    let (run, command) = run.step(UninstallEvent::Failed("stray".to_string()));
    assert_eq!(command, UninstallCommand::Ignored);
    assert_eq!(run, same);
}

#[test]
fn cancellation_during_the_uninstall_is_an_expected_failure() {
    let (run, _) = reverting(3).step(UninstallEvent::Boundary { cancelled: false });
    let (run, _) = run.step(UninstallEvent::StepSucceeded);
    let (run, command) = run.step(UninstallEvent::Boundary { cancelled: true });
    assert_eq!(command, UninstallCommand::Exit);
    let outcome = run.outcome().unwrap();
    assert_eq!(outcome, Outcome::Failed(HarmonicError::Cancelled));
    assert_eq!(outcome.exit_status(), ExitStatus::Failure);
    assert_eq!(outcome.report(), Some("\u{1b}[31mCancelled\u{1b}[39m".to_string()));
}

#[test]
fn an_expected_step_failure_is_shown_in_red() {
    let (run, _) = reverting(1).step(UninstallEvent::Boundary { cancelled: false });
    let failure = ActionError { message: "The daemon is not running".to_string(), expected: true };
    let (run, command) = run.step(UninstallEvent::StepFailed(failure));
    assert_eq!(command, UninstallCommand::Exit);
    let outcome = run.outcome().unwrap();
    assert_eq!(outcome.exit_status(), ExitStatus::Failure);
    assert_eq!(
        outcome.report(),
        Some("\u{1b}[31mThe daemon is not running\u{1b}[39m".to_string())
    );
}

#[test]
fn an_unexpected_step_failure_is_handed_up() {
    let (run, _) = reverting(1).step(UninstallEvent::Boundary { cancelled: false });
    let failure = ActionError { message: "systemctl exited with 1".to_string(), expected: false };
    let (run, _) = run.step(UninstallEvent::StepFailed(failure.clone()));
    let outcome = run.outcome().unwrap();
    assert_eq!(outcome, Outcome::Failed(HarmonicError::Action(failure)));
    assert_eq!(outcome.exit_status(), ExitStatus::Failure);
    assert_eq!(outcome.report(), None);
}

#[test]
fn only_an_unexpected_failure_is_handed_up() {
    assert_eq!(Outcome::Uninstalled.unexpected(), None);
    assert_eq!(Outcome::Declined.unexpected(), None);
    assert_eq!(Outcome::Failed(HarmonicError::Cancelled).unexpected(), None);
    assert_eq!(Outcome::Failed(HarmonicError::RootRequired).unexpected(), None);
    let expected = ActionError { message: "Already gone".to_string(), expected: true };
    assert_eq!(Outcome::Failed(HarmonicError::Action(expected)).unexpected(), None);
    let failure = HarmonicError::Action(ActionError {
        message: "rm exited with 1".to_string(),
        expected: false,
    });
    assert_eq!(Outcome::Failed(failure.clone()).unexpected(), Some(failure));
    let outside = HarmonicError::Outside {
        context: Context::ReadingReceipt,
        cause: "Is a directory".to_string(),
    };
    assert_eq!(Outcome::Failed(outside.clone()).report(), None);
    assert_eq!(Outcome::Failed(outside.clone()).unexpected(), Some(outside));
}

#[test]
fn events_out_of_turn_are_ignored_at_the_start() {
    let run = UninstallRun::new(options(false, false));
    let (run, command) = run.step(UninstallEvent::Loaded(applied(1)));
    assert_eq!(command, UninstallCommand::Ignored);
    let (run, command) = run.step(UninstallEvent::Answered(true));
    assert_eq!(command, UninstallCommand::Ignored);
    let (run, command) = run.step(UninstallEvent::Failed("x".to_string()));
    assert_eq!(command, UninstallCommand::Ignored);
    assert_eq!(run, UninstallRun::new(options(false, false)));
}
