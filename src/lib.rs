//! Consensus-state bootstrap for a hub-and-spoke relayer: a registry of chain
//! clients keyed by state machine, the normalisation of challenge periods, and
//! the linear protocol that fetches, normalises and submits or prints an
//! initial consensus state.

pub mod chain;
pub mod consensus;
pub mod error;
pub mod registry;
pub mod bootstrap;
pub mod command;
