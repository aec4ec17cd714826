use harmonic::error::{ActionError, Context, HarmonicError};

#[test]
fn root_required_is_expected() {
    let e = HarmonicError::RootRequired;
    assert!(e.is_expected());
    assert_eq!(e.expected(), Some("`nix-installer` needs to run as `root`".to_string()));
    assert_eq!(e.chain(), vec!["`nix-installer` needs to run as `root`".to_string()]);
}

#[test]
fn cancelled_is_expected() {
    let e = HarmonicError::Cancelled;
    assert!(e.is_expected());
    assert_eq!(e.expected(), Some("Cancelled".to_string()));
    assert_eq!(e.chain(), vec!["Cancelled".to_string()]);
}

#[test]
fn step_failure_is_expected_when_the_step_says_so() {
    let e = HarmonicError::Action(ActionError {
        message: "The file is already gone".to_string(),
        expected: true,
    });
    assert!(e.is_expected());
    assert_eq!(e.expected(), Some("The file is already gone".to_string()));
    assert_eq!(e.chain(), vec!["The file is already gone".to_string()]);
}

#[test]
fn step_failure_is_unexpected_otherwise() {
    let e = HarmonicError::Action(ActionError {
        message: "systemctl exited with 3".to_string(),
        expected: false,
    });
    assert!(!e.is_expected());
    assert_eq!(e.expected(), None);
    assert_eq!(e.chain(), vec!["systemctl exited with 3".to_string()]);
}

#[test]
fn outside_failure_is_unexpected_and_names_the_work() {
    let e = HarmonicError::Outside {
        context: Context::ReadingReceipt,
        cause: "No such file or directory (os error 2)".to_string(),
    };
    assert!(!e.is_expected());
    assert_eq!(e.expected(), None);
    assert_eq!(
        e.chain(),
        vec![
            "Reading receipt".to_string(),
            "No such file or directory (os error 2)".to_string()
        ]
    );
}

#[test]
fn every_context_has_its_words() {
    assert_eq!(Context::CopyingExecutable.text(), "Copying nix-installer to tempdir");
    assert_eq!(Context::MakingArgument.text(), "Making arg into C string");
    assert_eq!(Context::MakingExecutablePath.text(), "Making C string of executable path");
    assert_eq!(Context::ExecutingCopy.text(), "Executing copied `nix-installer`");
    assert_eq!(Context::ReadingReceipt.text(), "Reading receipt");
    assert_eq!(Context::WritingReceipt.text(), "Writing receipt");
    assert_eq!(Context::Confirming.text(), "Asking for confirmation");
    assert_eq!(Context::WatchingSignals.text(), "Watching for signals");
}

#[test]
fn outside_failures_are_never_expected() {
    let contexts = [
        Context::CopyingExecutable,
        Context::MakingArgument,
        Context::MakingExecutablePath,
        Context::ExecutingCopy,
        Context::ReadingReceipt,
        Context::WritingReceipt,
        Context::Confirming,
        Context::WatchingSignals,
    ];
    for context in contexts {
        let e = HarmonicError::Outside { context, cause: "boom".to_string() };
        assert!(!e.is_expected());
        assert_eq!(e.chain(), vec![context.text(), "boom".to_string()]);
    }
}
