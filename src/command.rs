//! The two commands of the bootstrap and their one argument.

use vstd::prelude::*;

use crate::bootstrap::{Mode, Phase, Session};
use crate::chain::state_machine_of;
use crate::error::BootstrapError;

verus! {

/// The argument of both commands.
#[derive(Debug, Clone, PartialEq, Eq)]
pub struct SetConsensusState {
    /// State machine whose consensus state should be generated.
    pub state_machine: String,
}

#[derive(Debug, Clone, PartialEq, Eq)]
pub enum Subcommand {
    /// Set the consensus state of a client on the hub.
    SetConsensusState(SetConsensusState),
    /// Print the consensus state payload of a client, as hex.
    LogConsensusState(SetConsensusState),
}

impl Subcommand {
    /// Which of the two modes the command runs.
    pub fn mode(&self) -> (r: Mode)
        ensures
            self is SetConsensusState ==> r == Mode::SetState,
            self is LogConsensusState ==> r == Mode::LogState,
    {
        match self {
            Subcommand::SetConsensusState(_) => Mode::SetState,
            Subcommand::LogConsensusState(_) => Mode::LogState,
        }
    }

    /// Starts the command's session with the given challenge period.
    pub fn start(&self, challenge_period: u64) -> (r: Result<Session, BootstrapError>)
        ensures
            ({
                let args = match self {
                    Subcommand::SetConsensusState(a) => a,
                    Subcommand::LogConsensusState(a) => a,
                };
                &&& r is Ok <==> state_machine_of(args.state_machine@) is Some
                &&& r matches Ok(s) ==> s.target_text@ == args.state_machine@
                    && Some(s.target) == state_machine_of(args.state_machine@)
                    && s.challenge_period == challenge_period
                    && s.phase == Phase::AwaitingRegistry
                    && (self is SetConsensusState ==> s.mode == Mode::SetState)
                    && (self is LogConsensusState ==> s.mode == Mode::LogState)
                &&& r matches Err(e) ==> e matches BootstrapError::InvalidIdentifier(t)
                    && t@ == args.state_machine@
            }),
    {
        let mode = self.mode();
        match self {
            Subcommand::SetConsensusState(a) => a.start(mode, challenge_period),
            Subcommand::LogConsensusState(a) => a.start(mode, challenge_period),
        }
    }
}

impl SetConsensusState {
    /// Starts a session of the given mode on this command's state machine.
    pub fn start(&self, mode: Mode, challenge_period: u64) -> (r: Result<Session, BootstrapError>)
        ensures
            r is Ok <==> state_machine_of(self.state_machine@) is Some,
            r matches Ok(s) ==> s.mode == mode && Some(s.target) == state_machine_of(self.state_machine@)
                && s.target_text@ == self.state_machine@ && s.challenge_period == challenge_period
                && s.phase == Phase::AwaitingRegistry,
            r matches Err(e) ==> e matches BootstrapError::InvalidIdentifier(t) && t@ == self.state_machine@,
    {
        Session::start(mode, self.state_machine.as_str(), challenge_period)
    }
}

} // verus!
