//! The ways a bootstrap can fail. Each one ends the invocation.

use vstd::prelude::*;

use ismp::host::StateMachine;

verus! {

#[derive(Debug, PartialEq, Eq)]
pub enum BootstrapError {
    /// The identifier text names no state machine that ismp recognises.
    InvalidIdentifier(String),
    /// The client of this configured chain could not be constructed.
    ClientConstructionFailed(StateMachine, String),
    /// No client in the registry serves the identifier given as this text.
    ClientNotFound(String),
    /// The chain named by this text has no initial consensus state.
    NoConsensusState(String),
    /// Fetching the initial consensus state failed with this message.
    QueryFailed(String),
    /// Submitting the consensus state to the hub failed with this message.
    SubmissionFailed(String),
}

} // verus!
