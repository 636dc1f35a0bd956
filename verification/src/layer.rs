use vstd::prelude::*;

verus! {

/// The closed set of UI domains a command can be addressed to.
///
/// A producer supplies a layer alongside every command, reflecting where
/// focus currently sits in the externally owned layer stack. Adding a
/// layer means adding both a member here and its sub-router: there is
/// deliberately no reflective registry.
#[derive(Debug, Clone, Copy, PartialEq, Eq, Structural)]
pub enum Layer {
    App,
    Manager,
    Tasks,
    Pick,
    Input,
    Confirm,
    Help,
    Completion,
    Which,
}

} // verus!
