//! The bootstrap protocol as a sequence of decisions. The caller performs
//! the network work (building clients, fetching, submitting) and hands each
//! outcome to the session, which says what happens next.

use vstd::prelude::*;

use ismp::host::StateMachine;

use crate::chain::{parse_state_machine, state_machine_of};
use crate::consensus::{log_line, log_text, normalize, overwritten, ConsensusState};
use crate::error::BootstrapError;
use crate::registry::ClientRegistry;

verus! {

/// Submit the consensus state to the hub, or print it.
#[derive(Debug, Clone, Copy, PartialEq, Eq, Structural)]
pub enum Mode {
    SetState,
    LogState,
}

/// Where a session stands.
#[derive(Debug, Clone, Copy, PartialEq, Eq, Structural)]
pub enum Phase {
    /// The target is known; the registry is being built.
    AwaitingRegistry,
    /// The target's client was found; its initial consensus state is being fetched.
    AwaitingFetch,
    /// The normalised state is being submitted to the hub.
    AwaitingSubmission,
    /// Nothing more to do.
    Finished,
}

/// What the caller does after the initial consensus state was fetched.
#[derive(Debug, PartialEq, Eq)]
pub enum Action {
    /// Submit this normalised state to the hub, then report the outcome.
    Submit(ConsensusState),
    /// Write this line to standard output; the session is finished.
    Emit(String),
    /// Stop with this error.
    Abort(BootstrapError),
}

/// Relay-loop settings; only the challenge period override is read here.
#[derive(Debug, Clone, Copy, PartialEq, Eq, Structural)]
pub struct RelayerSettings {
    /// Challenge period, in seconds, given to every counterparty.
    pub challenge_period: Option<u64>,
}

/// The challenge period that a bootstrap applies: the configured override,
/// or zero where there is none.
pub open spec fn applied_period(settings: Option<RelayerSettings>) -> u64 {
    match settings {
        Some(s) => match s.challenge_period {
            Some(p) => p,
            None => 0,
        },
        None => 0,
    }
}

pub fn challenge_period(settings: Option<RelayerSettings>) -> (r: u64)
    ensures
        r == applied_period(settings),
{
    match settings {
        Some(s) => match s.challenge_period {
            Some(p) => p,
            None => 0,
        },
        None => 0,
    }
}

/// One bootstrap of one target chain.
#[derive(Debug)]
pub struct Session {
    pub mode: Mode,
    /// The target as ismp reads it.
    pub target: StateMachine,
    /// The target as the caller wrote it.
    pub target_text: String,
    /// The challenge period that every counterparty receives.
    pub challenge_period: u64,
    pub phase: Phase,
}

impl Session {
    /// Starts a bootstrap of the chain named `text`: `InvalidIdentifier` where
    /// ismp does not recognise the name.
    pub fn start(mode: Mode, text: &str, challenge_period: u64) -> (r: Result<Session, BootstrapError>)
        ensures
            r is Ok <==> state_machine_of(text@) is Some,
            r matches Ok(s) ==> s.mode == mode && Some(s.target) == state_machine_of(text@)
                && s.target_text@ == text@ && s.challenge_period == challenge_period
                && s.phase == Phase::AwaitingRegistry,
            r matches Err(e) ==> e matches BootstrapError::InvalidIdentifier(t) && t@ == text@,
    {
        match parse_state_machine(text) {
            Some(target) => Ok(
                Session {
                    mode,
                    target,
                    target_text: String::from_str(text),
                    challenge_period,
                    phase: Phase::AwaitingRegistry,
                },
            ),
            None => Err(BootstrapError::InvalidIdentifier(String::from_str(text))),
        }
    }

    /// The phase the session is in.
    pub fn phase(&self) -> (r: Phase)
        ensures
            r == self.phase,
    {
        self.phase
    }

    /// Log mode also registers the hub under its own identifier, so that a
    /// request for the hub's consensus state resolves like any other; set
    /// mode leaves the registry as it was built.
    pub fn add_hub_view<C>(&self, registry: &mut ClientRegistry<C>, hub_id: StateMachine, hub: C)
        requires
            old(registry).wf(),
        ensures
            final(registry).wf(),
            self.mode == Mode::LogState ==> final(registry)@ == old(registry)@.insert(hub_id, hub),
            self.mode == Mode::SetState ==> final(registry)@ == old(registry)@,
    {
        match self.mode {
            Mode::LogState => registry.insert(hub_id, hub),
            Mode::SetState => {},
        }
    }

    /// The registry is ready: the target's client, from which to fetch, or
    /// `ClientNotFound` where the registry has none for the target.
    pub fn locate<'a, C>(&mut self, registry: &'a ClientRegistry<C>) -> (r: Result<&'a C, BootstrapError>)
        requires
            old(self).phase == Phase::AwaitingRegistry,
            registry.wf(),
        ensures
            r is Ok <==> registry@.dom().contains(old(self).target),
            r matches Ok(c) ==> *c == registry@[old(self).target] && final(self).phase == Phase::AwaitingFetch,
            r matches Err(e) ==> e matches BootstrapError::ClientNotFound(t) && t@ == old(self).target_text@
                && final(self).phase == Phase::Finished,
            final(self).mode == old(self).mode,
            final(self).target == old(self).target,
            final(self).target_text == old(self).target_text,
            final(self).challenge_period == old(self).challenge_period,
    {
        let found = registry.locate(&self.target, self.target_text.as_str());
        match found {
            Ok(_) => self.phase = Phase::AwaitingFetch,
            Err(_) => self.phase = Phase::Finished,
        }
        found
    }

    /// The fetch has returned. A failed query or a chain with no initial
    /// consensus state ends the session. Otherwise every challenge period
    /// becomes the session's; set mode submits the result, log mode prints
    /// its payload. Nothing is submitted unless the fetch gave a state.
    pub fn on_fetched(&mut self, fetched: Result<Option<ConsensusState>, String>) -> (r: Action)
        requires
            old(self).phase == Phase::AwaitingFetch,
        ensures
            fetched matches Err(m) ==> r == Action::Abort(BootstrapError::QueryFailed(m))
                && final(self).phase == Phase::Finished,
            fetched matches Ok(None) ==> r matches Action::Abort(BootstrapError::NoConsensusState(t))
                && t@ == old(self).target_text@ && final(self).phase == Phase::Finished,
            old(self).mode == Mode::SetState ==> (fetched matches Ok(Some(s)) ==> (r matches Action::Submit(n)
                && n.consensus_state@ == s.consensus_state@
                && n.challenge_periods@ == overwritten(s.challenge_periods@, old(self).challenge_period)
                && (s.wf() ==> n.wf())
                && final(self).phase == Phase::AwaitingSubmission)),
            old(self).mode == Mode::LogState ==> (fetched matches Ok(Some(s)) ==> (r matches Action::Emit(line)
                && line@ == log_text(s.consensus_state@) && final(self).phase == Phase::Finished)),
            r is Submit ==> old(self).mode == Mode::SetState,
            r is Submit ==> (fetched matches Ok(Some(_))),
            final(self).mode == old(self).mode,
            final(self).target == old(self).target,
            final(self).target_text == old(self).target_text,
            final(self).challenge_period == old(self).challenge_period,
    {
        match fetched {
            Err(m) => {
                self.phase = Phase::Finished;
                Action::Abort(BootstrapError::QueryFailed(m))
            },
            Ok(None) => {
                self.phase = Phase::Finished;
                Action::Abort(BootstrapError::NoConsensusState(self.target_text.clone()))
            },
            Ok(Some(s)) => {
                let n = normalize(s, self.challenge_period);
                match self.mode {
                    Mode::SetState => {
                        self.phase = Phase::AwaitingSubmission;
                        Action::Submit(n)
                    },
                    Mode::LogState => {
                        self.phase = Phase::Finished;
                        Action::Emit(log_line(&n))
                    },
                }
            },
        }
    }

    /// The hub has answered the submission: `SubmissionFailed` where it was
    /// refused or not delivered.
    pub fn on_submitted(&mut self, submitted: Result<(), String>) -> (r: Result<(), BootstrapError>)
        requires
            old(self).phase == Phase::AwaitingSubmission,
        ensures
            submitted is Ok ==> r is Ok,
            submitted matches Err(m) ==> r == Err::<(), BootstrapError>(BootstrapError::SubmissionFailed(m)),
            final(self).phase == Phase::Finished,
            final(self).mode == old(self).mode,
            final(self).target == old(self).target,
            final(self).target_text == old(self).target_text,
            final(self).challenge_period == old(self).challenge_period,
    {
        self.phase = Phase::Finished;
        match submitted {
            Ok(()) => Ok(()),
            Err(m) => Err(BootstrapError::SubmissionFailed(m)),
        }
    }
}

} // verus!
