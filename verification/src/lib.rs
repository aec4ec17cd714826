//! Orchestration core of a Nix installer: plans made of actions, the receipts
//! that undo them, and the decisions taken while installing and uninstalling.
//!
//! Everything that touches the machine (files, processes, signals, the
//! terminal) is left to the caller. The library decides what has to happen
//! next and the caller reports back what came of it.

pub mod action;
pub mod description;
pub mod error;
pub mod guard;
pub mod install;
pub mod laws;
pub mod plan;
pub mod revert;
pub mod style;
pub mod uninstall;
