//! Failures, and the line between those a user can act on and the rest.
//!
//! An expected failure is shown as a short message. An unexpected one is
//! handed up with the whole chain of what was being attempted and why it
//! failed.

use vstd::prelude::*;
use crate::description::texts;

verus! {

/// What an action or a receipt reports when its step fails. The step itself
/// knows whether the failure is one the user can act on.
#[derive(Debug, Clone, PartialEq, Eq)]
pub struct ActionError {
    pub message: String,
    pub expected: bool,
}

/// Mathematical content of an [`ActionError`].
pub struct ActionErrorView {
    pub message: Seq<char>,
    pub expected: bool,
}

impl View for ActionError {
    type V = ActionErrorView;

    open spec fn view(&self) -> ActionErrorView {
        ActionErrorView { message: self.message@, expected: self.expected }
    }
}

/// The outside work that was being attempted when something went wrong.
#[derive(Debug, Clone, Copy, PartialEq, Eq, Structural)]
pub enum Context {
    CopyingExecutable,
    MakingArgument,
    MakingExecutablePath,
    ExecutingCopy,
    ReadingReceipt,
    WritingReceipt,
    Confirming,
    WatchingSignals,
}

impl Context {
    /// The words that annotate a failure of this work.
    pub open spec fn spec_text(self) -> Seq<char> {
        match self {
            Context::CopyingExecutable => "Copying nix-installer to tempdir"@,
            Context::MakingArgument => "Making arg into C string"@,
            Context::MakingExecutablePath => "Making C string of executable path"@,
            Context::ExecutingCopy => "Executing copied `nix-installer`"@,
            Context::ReadingReceipt => "Reading receipt"@,
            Context::WritingReceipt => "Writing receipt"@,
            Context::Confirming => "Asking for confirmation"@,
            Context::WatchingSignals => "Watching for signals"@,
        }
    }

    /// The words that annotate a failure of this work, as a string of its own.
    pub fn text(&self) -> (s: String)
        ensures
            s@ == self.spec_text(),
    {
        match self {
            Context::CopyingExecutable => String::from_str("Copying nix-installer to tempdir"),
            Context::MakingArgument => String::from_str("Making arg into C string"),
            Context::MakingExecutablePath => String::from_str(
                "Making C string of executable path",
            ),
            Context::ExecutingCopy => String::from_str("Executing copied `nix-installer`"),
            Context::ReadingReceipt => String::from_str("Reading receipt"),
            Context::WritingReceipt => String::from_str("Writing receipt"),
            Context::Confirming => String::from_str("Asking for confirmation"),
            Context::WatchingSignals => String::from_str("Watching for signals"),
        }
    }
}

/// What the user reads when the command runs without superuser privilege.
pub open spec fn root_required_message() -> Seq<char> {
    "`nix-installer` needs to run as `root`"@
}

/// What the user reads when a run was stopped by a signal.
pub open spec fn cancelled_message() -> Seq<char> {
    "Cancelled"@
}

/// Everything that can stop an install or an uninstall.
#[derive(Debug, Clone, PartialEq, Eq)]
pub enum HarmonicError {
    /// The command needs superuser privilege and does not have it.
    RootRequired,
    /// A cancellation request was seen between two steps.
    Cancelled,
    /// A step failed while it was applied or undone.
    Action(ActionError),
    /// Outside work failed; `cause` is what the machine said about it.
    Outside { context: Context, cause: String },
}

/// Mathematical content of a [`HarmonicError`].
pub enum ErrorView {
    RootRequired,
    Cancelled,
    Action(ActionErrorView),
    Outside { context: Context, cause: Seq<char> },
}

impl View for HarmonicError {
    type V = ErrorView;

    open spec fn view(&self) -> ErrorView {
        match self {
            HarmonicError::RootRequired => ErrorView::RootRequired,
            HarmonicError::Cancelled => ErrorView::Cancelled,
            HarmonicError::Action(e) => ErrorView::Action(e@),
            HarmonicError::Outside { context, cause } => ErrorView::Outside {
                context: *context,
                cause: cause@,
            },
        }
    }
}

impl ErrorView {
    /// The message for the user if the failure is an expected one: missing
    /// privilege, cancellation, and whatever a step itself declares expected.
    pub open spec fn expected(self) -> Option<Seq<char>> {
        match self {
            ErrorView::RootRequired => Some(root_required_message()),
            ErrorView::Cancelled => Some(cancelled_message()),
            ErrorView::Action(e) => if e.expected {
                Some(e.message)
            } else {
                None
            },
            ErrorView::Outside { .. } => None,
        }
    }

    /// Whether the failure is one the user caused or can act on.
    pub open spec fn is_expected(self) -> bool {
        self.expected() is Some
    }

    /// The causal chain, outermost first: what was being attempted, then what
    /// went wrong.
    pub open spec fn chain(self) -> Seq<Seq<char>> {
        match self {
            ErrorView::RootRequired => seq![root_required_message()],
            ErrorView::Cancelled => seq![cancelled_message()],
            ErrorView::Action(e) => seq![e.message],
            ErrorView::Outside { context, cause } => seq![context.spec_text(), cause],
        }
    }
}

impl HarmonicError {
    /// Whether the failure is one the user caused or can act on.
    pub fn is_expected(&self) -> (b: bool)
        ensures
            b == self@.is_expected(),
    {
        match self {
            HarmonicError::RootRequired => true,
            HarmonicError::Cancelled => true,
            HarmonicError::Action(e) => e.expected,
            HarmonicError::Outside { .. } => false,
        }
    }

    /// The message for the user, if the failure is an expected one.
    pub fn expected(&self) -> (message: Option<String>)
        ensures
            match message {
                Some(m) => self@.expected() == Some(m@),
                None => self@.expected() is None,
            },
    {
        match self {
            HarmonicError::RootRequired => Some(
                String::from_str("`nix-installer` needs to run as `root`"),
            ),
            HarmonicError::Cancelled => Some(String::from_str("Cancelled")),
            HarmonicError::Action(e) => if e.expected {
                Some(e.message.clone())
            } else {
                None
            },
            HarmonicError::Outside { .. } => None,
        }
    }

    /// The causal chain, outermost first.
    pub fn chain(&self) -> (links: Vec<String>)
        ensures
            texts(links@) == self@.chain(),
    {
        let mut links: Vec<String> = Vec::new();
        match self {
            HarmonicError::RootRequired => {
                links.push(String::from_str("`nix-installer` needs to run as `root`"));
            },
            HarmonicError::Cancelled => {
                links.push(String::from_str("Cancelled"));
            },
            HarmonicError::Action(e) => {
                links.push(e.message.clone());
            },
            HarmonicError::Outside { context, cause } => {
                links.push(context.text());
                links.push(cause.clone());
            },
        }
        links
    }
}

} // verus!
