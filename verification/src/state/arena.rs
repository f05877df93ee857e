//! The arena: configuration and counters of one competition.
use vstd::prelude::*;
use crate::address::Address;

verus! {

/// The most basis points a mutation rate may have.
pub const MAX_MUTATION_RATE_BPS: u16 = 10_000;

/// The fewest agents an arena may be set up to hold.
pub const MIN_MAX_AGENTS: u64 = 2;

/// Configuration and counters of one competition.
///
/// `mutation_rate_bps` is kept but consulted by no operation, and
/// `reward_pool` is reserved: nothing credits or debits it.
#[derive(Debug, Clone, Copy, PartialEq, Eq)]
pub struct Arena {
    pub authority: Address,
    pub current_round: u64,
    pub current_generation: u64,
    pub total_agents: u64,
    pub active_agents: u64,
    pub max_agents: u64,
    pub min_fitness_threshold: u64,
    pub mutation_rate_bps: u16,
    pub is_active: bool,
    pub reward_pool: u64,
    pub bump: u8,
}

impl Arena {
    /// What every operation keeps true of an arena once it is set up: its
    /// configuration is in range, its generation has started at 1, and no
    /// more agents are active than it has room for or than ever joined.
    pub open spec fn wf(&self) -> bool {
        &&& self.max_agents >= MIN_MAX_AGENTS
        &&& self.mutation_rate_bps <= MAX_MUTATION_RATE_BPS
        &&& self.current_generation >= 1
        &&& self.active_agents <= self.max_agents
        &&& self.active_agents <= self.total_agents
    }
}

} // verus!
