//! Setting up an arena.
use vstd::prelude::*;
use crate::address::Address;
use crate::errors::SaeaError;
use crate::events::ArenaInitialized;
use crate::state::arena::{MAX_MUTATION_RATE_BPS, MIN_MAX_AGENTS};
use crate::state::Arena;

verus! {

/// The records that setting up an arena names: the record to fill in, the
/// bump it was placed with, and who becomes its authority.
#[derive(Debug, Clone, Copy, PartialEq, Eq)]
pub struct InitializeArena {
    pub arena: Arena,
    pub arena_bump: u8,
    pub authority: Address,
}

impl InitializeArena {
    /// Why the handler refuses, if it does: the arena would hold fewer
    /// than two agents, or else the mutation rate is more than 10000 basis
    /// points.
    pub open spec fn failure(max_agents: u64, mutation_rate_bps: u16) -> Option<SaeaError> {
        if max_agents < MIN_MAX_AGENTS {
            Some(SaeaError::InvalidMaxAgents)
        } else if mutation_rate_bps > MAX_MUTATION_RATE_BPS {
            Some(SaeaError::InvalidMutationRate)
        } else {
            None
        }
    }

    /// The records after the arena is set up: the arena is active, in
    /// generation 1, with every counter at 0 and the configuration given.
    pub open spec fn initialized(
        self,
        max_agents: u64,
        min_fitness_threshold: u64,
        mutation_rate_bps: u16,
    ) -> InitializeArena {
        InitializeArena {
            arena: Arena {
                authority: self.authority,
                current_round: 0,
                current_generation: 1,
                total_agents: 0,
                active_agents: 0,
                max_agents,
                min_fitness_threshold,
                mutation_rate_bps,
                is_active: true,
                reward_pool: 0,
                bump: self.arena_bump,
            },
            ..self
        }
    }

    /// What setting up reports.
    pub open spec fn report(&self, max_agents: u64, mutation_rate_bps: u16) -> ArenaInitialized {
        ArenaInitialized { authority: self.authority, max_agents, mutation_rate_bps }
    }
}

/// Sets up the arena with the configuration given. Refuses, changing
/// nothing, a configuration out of range. The mutation rate is kept and
/// never consulted.
pub fn handle_initialize_arena(
    ctx: &mut InitializeArena,
    max_agents: u64,
    min_fitness_threshold: u64,
    mutation_rate_bps: u16,
) -> (res: Result<ArenaInitialized, SaeaError>)
    ensures
        match res {
            Ok(event) => {
                &&& InitializeArena::failure(max_agents, mutation_rate_bps) is None
                &&& *final(ctx) == old(ctx).initialized(
                    max_agents,
                    min_fitness_threshold,
                    mutation_rate_bps,
                )
                &&& event == old(ctx).report(max_agents, mutation_rate_bps)
                &&& final(ctx).arena.wf()
            },
            Err(e) => {
                &&& InitializeArena::failure(max_agents, mutation_rate_bps) == Some(e)
                &&& *final(ctx) == *old(ctx)
            },
        },
{
    if max_agents < MIN_MAX_AGENTS {
        return Err(SaeaError::InvalidMaxAgents);
    }
    if mutation_rate_bps > MAX_MUTATION_RATE_BPS {
        return Err(SaeaError::InvalidMutationRate);
    }
    ctx.arena = Arena {
        authority: ctx.authority,
        current_round: 0,
        current_generation: 1,
        total_agents: 0,
        active_agents: 0,
        max_agents,
        min_fitness_threshold,
        mutation_rate_bps,
        is_active: true,
        reward_pool: 0,
        bump: ctx.arena_bump,
    };
    Ok(ArenaInitialized { authority: ctx.authority, max_agents, mutation_rate_bps })
}

} // verus!
