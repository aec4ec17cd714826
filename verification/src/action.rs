//! The catalog of steps a plan can hold, and the receipts they leave behind.

use vstd::prelude::*;
use crate::description::{views, ActionDescription, DescriptionView};

verus! {

/// Places the Nix configuration: the step as it stands in a plan before it is
/// applied.
#[derive(Debug, Clone, Copy, PartialEq, Eq, Structural)]
pub struct PlaceNixConfiguration {}

/// Proof that the Nix configuration was placed; enough to undo it.
#[derive(Debug, Clone, Copy, PartialEq, Eq, Structural)]
pub struct PlaceNixConfigurationReceipt {}

/// What the prompt says about placing and removing the configuration.
pub open spec fn daemon_explanation() -> Seq<char> {
    "The `nix` command line tool communicates with a running Nix daemon managed by your init system"@
}

impl PlaceNixConfiguration {
    /// Plans the step. There is nothing on the machine to look at first.
    pub fn plan() -> (action: Self)
        ensures
            action == (PlaceNixConfiguration {}),
    {
        PlaceNixConfiguration {}
    }

    /// What [`PlaceNixConfiguration::description`] returns.
    pub open spec fn spec_description(self) -> Seq<DescriptionView> {
        seq![
            DescriptionView {
                title: "Start the systemd Nix daemon"@,
                explanation: seq![daemon_explanation()],
            },
        ]
    }

    /// The rationale shown before the step is applied. Reads nothing but the
    /// action and changes nothing.
    pub fn description(&self) -> (ds: Vec<ActionDescription>)
        ensures
            views(ds@) == self.spec_description(),
    {
        let mut explanation: Vec<String> = Vec::new();
        explanation.push(
            String::from_str(
                "The `nix` command line tool communicates with a running Nix daemon managed by your init system",
            ),
        );
        let mut ds: Vec<ActionDescription> = Vec::new();
        ds.push(ActionDescription::new(String::from_str("Start the systemd Nix daemon"), explanation));
        assert(ds@[0]@.explanation =~= seq![daemon_explanation()]);
        ds
    }
}

impl PlaceNixConfigurationReceipt {
    /// What [`PlaceNixConfigurationReceipt::description`] returns.
    pub open spec fn spec_description(self) -> Seq<DescriptionView> {
        seq![
            DescriptionView {
                title: "Stop the systemd Nix daemon"@,
                explanation: seq![daemon_explanation()],
            },
        ]
    }

    /// The rationale shown before the step is undone. Reads nothing but the
    /// receipt and changes nothing.
    pub fn description(&self) -> (ds: Vec<ActionDescription>)
        ensures
            views(ds@) == self.spec_description(),
    {
        let mut explanation: Vec<String> = Vec::new();
        explanation.push(
            String::from_str(
                "The `nix` command line tool communicates with a running Nix daemon managed by your init system",
            ),
        );
        let mut ds: Vec<ActionDescription> = Vec::new();
        ds.push(ActionDescription::new(String::from_str("Stop the systemd Nix daemon"), explanation));
        assert(ds@[0]@.explanation =~= seq![daemon_explanation()]);
        ds
    }
}

/// A single planned step. Every kind carries only what it needs to be applied.
#[derive(Debug, Clone, Copy, PartialEq, Eq, Structural)]
pub enum Action {
    PlaceNixConfiguration(PlaceNixConfiguration),
}

/// Proof that a step was applied, of the same kind as the step.
#[derive(Debug, Clone, Copy, PartialEq, Eq, Structural)]
pub enum Receipt {
    PlaceNixConfiguration(PlaceNixConfigurationReceipt),
}

impl Action {
    /// What [`Action::describe`] returns.
    pub open spec fn spec_describe(self) -> Seq<DescriptionView> {
        match self {
            Action::PlaceNixConfiguration(action) => action.spec_description(),
        }
    }

    /// The rationale for applying the step. The result depends on the action
    /// alone, so asking again gives the same content.
    pub fn describe(&self) -> (ds: Vec<ActionDescription>)
        ensures
            views(ds@) == self.spec_describe(),
    {
        match self {
            Action::PlaceNixConfiguration(action) => action.description(),
        }
    }
}

impl Receipt {
    /// What [`Receipt::describe`] returns.
    pub open spec fn spec_describe(self) -> Seq<DescriptionView> {
        match self {
            Receipt::PlaceNixConfiguration(receipt) => receipt.spec_description(),
        }
    }

    /// The rationale for undoing the step. The result depends on the receipt
    /// alone, so asking again gives the same content.
    pub fn describe(&self) -> (ds: Vec<ActionDescription>)
        ensures
            views(ds@) == self.spec_describe(),
    {
        match self {
            Receipt::PlaceNixConfiguration(receipt) => receipt.description(),
        }
    }
}

} // verus!
