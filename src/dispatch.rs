use vstd::prelude::*;
use crate::bundle::Bundle;
use crate::config::OperationMode;

verus! {

/// Which relay call a bundle gets.
#[derive(Debug, Clone, Copy, PartialEq, Eq, Structural)]
pub enum Dispatch {
    /// No call at all: the bundle is empty.
    Skip,
    /// Submit for inclusion in the target block.
    Send,
    /// Ask for a dry run against the simulation block.
    Simulate,
}

/// How the relay answered a call.
#[derive(Debug, Clone, Copy, PartialEq, Eq, Structural)]
pub enum RelayOutcome {
    Accepted,
    Failed,
}

/// What the loop does once the relay has answered.
#[derive(Debug, Clone, Copy, PartialEq, Eq, Structural)]
pub enum AfterDispatch {
    /// Wait for the next block.
    Continue,
    /// Stop with an error.
    Fatal,
}

/// The relay call a bundle gets: none when it is empty, else the one the mode
/// selects.
pub open spec fn dispatch_spec(mode: OperationMode, transaction_count: nat) -> Dispatch {
    if transaction_count == 0 {
        Dispatch::Skip
    } else {
        match mode {
            OperationMode::Send => Dispatch::Send,
            OperationMode::Simulate => Dispatch::Simulate,
        }
    }
}

/// Only a failed submission for inclusion is fatal; a failed simulation is
/// only reported.
pub open spec fn after_dispatch_spec(kind: Dispatch, outcome: RelayOutcome) -> AfterDispatch {
    if kind == Dispatch::Send && outcome == RelayOutcome::Failed {
        AfterDispatch::Fatal
    } else {
        AfterDispatch::Continue
    }
}

/// Chooses the relay call for a bundle.
pub fn dispatch_for(mode: OperationMode, bundle: &Bundle) -> (r: Dispatch)
    ensures
        r == dispatch_spec(mode, bundle.transactions@.len()),
        r == Dispatch::Skip <==> bundle.transactions@.len() == 0,
{
    if bundle.is_empty() {
        Dispatch::Skip
    } else {
        match mode {
            OperationMode::Send => Dispatch::Send,
            OperationMode::Simulate => Dispatch::Simulate,
        }
    }
}

/// Decides whether the loop goes on after the relay answered a call.
pub fn after_dispatch(kind: Dispatch, outcome: RelayOutcome) -> (r: AfterDispatch)
    ensures
        r == after_dispatch_spec(kind, outcome),
{
    match (kind, outcome) {
        (Dispatch::Send, RelayOutcome::Failed) => AfterDispatch::Fatal,
        _ => AfterDispatch::Continue,
    }
}

} // verus!
