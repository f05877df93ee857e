//! What each operation reports to observers when it succeeds.
use vstd::prelude::*;
use crate::address::Address;

verus! {

/// An arena was set up.
#[derive(Debug, Clone, Copy, PartialEq, Eq)]
pub struct ArenaInitialized {
    pub authority: Address,
    pub max_agents: u64,
    pub mutation_rate_bps: u16,
}

/// An agent joined the arena.
#[derive(Debug, Clone, Copy, PartialEq, Eq)]
pub struct AgentRegistered {
    pub agent: Address,
    pub owner: Address,
    pub genome_hash: [u8; 32],
    pub generation: u64,
}

/// An agent replaced its genome.
#[derive(Debug, Clone, Copy, PartialEq, Eq)]
pub struct GenomeSubmitted {
    pub agent: Address,
    pub genome_hash: [u8; 32],
    pub generation: u64,
    pub mutation_count: u64,
    pub parent: Address,
}

/// A round was closed.
#[derive(Debug, Clone, Copy, PartialEq, Eq)]
pub struct RoundCompleted {
    pub round_number: u64,
    pub generation: u64,
    pub participants: u64,
    pub best_fitness: u64,
    pub average_fitness: u64,
}

/// An agent was scored in a round.
#[derive(Debug, Clone, Copy, PartialEq, Eq)]
pub struct AgentScored {
    pub agent: Address,
    pub round_number: u64,
    pub fitness: u64,
    pub genome_hash: [u8; 32],
}

/// An agent was removed from the competition.
#[derive(Debug, Clone, Copy, PartialEq, Eq)]
pub struct AgentPruned {
    pub agent: Address,
    pub fitness: u64,
    pub generation: u64,
}

/// The arena moved on to its next generation.
#[derive(Debug, Clone, Copy, PartialEq, Eq)]
pub struct GenerationAdvanced {
    pub old_generation: u64,
    pub new_generation: u64,
    pub active_agents: u64,
}

} // verus!
