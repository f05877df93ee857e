//! Pruning: an agent that scores too low leaves the competition for good.
use vstd::prelude::*;
use crate::address::Address;
use crate::errors::SaeaError;
use crate::events::AgentPruned;
use crate::state::{AgentAccount, Arena};

verus! {

/// The records that pruning names: the arena, the agent to remove, where
/// the agent is kept, and who asks.
#[derive(Debug, Clone, PartialEq, Eq)]
pub struct PruneAgent {
    pub arena: Arena,
    pub agent: AgentAccount,
    pub agent_key: Address,
    pub authority: Address,
}

impl PruneAgent {
    /// The first rule of pruning that the records break, if any: the arena
    /// is active, the agent is active, its fitness is below the arena's
    /// threshold, and the arena's authority asks.
    pub open spec fn violation(&self) -> Option<SaeaError> {
        if !self.arena.is_active {
            Some(SaeaError::ArenaNotActive)
        } else if !self.agent.is_active {
            Some(SaeaError::AgentNotActive)
        } else if self.agent.fitness >= self.arena.min_fitness_threshold {
            Some(SaeaError::AgentAboveThreshold)
        } else if self.authority != self.arena.authority {
            Some(SaeaError::Unauthorized)
        } else {
            None
        }
    }

    /// Why pruning fails although no rule is broken, if it does: the
    /// arena counts no active agent to take away.
    pub open spec fn failure(&self) -> Option<SaeaError> {
        if self.arena.active_agents == 0 {
            Some(SaeaError::ArithmeticOverflow)
        } else {
            None
        }
    }

    /// Why pruning is refused, if it is: the first broken rule, or else
    /// the failure.
    pub open spec fn refusal(&self) -> Option<SaeaError> {
        if self.violation() is Some {
            self.violation()
        } else {
            self.failure()
        }
    }

    /// The records after pruning: the agent is inactive and the arena
    /// counts one active agent fewer.
    pub open spec fn pruned(self) -> PruneAgent {
        PruneAgent {
            arena: Arena { active_agents: (self.arena.active_agents - 1) as u64, ..self.arena },
            agent: AgentAccount { is_active: false, ..self.agent },
            ..self
        }
    }

    /// What pruning reports.
    pub open spec fn report(&self) -> AgentPruned {
        AgentPruned {
            agent: self.agent_key,
            fitness: self.agent.fitness,
            generation: self.agent.generation,
        }
    }

    /// Checks the rules of pruning, in the order in which `violation`
    /// lists them.
    pub fn validate(&self) -> (res: Result<(), SaeaError>)
        ensures
            res is Ok <==> self.violation() is None,
            res is Err ==> Some(res->Err_0) == self.violation(),
    {
        if !self.arena.is_active {
            return Err(SaeaError::ArenaNotActive);
        }
        if !self.agent.is_active {
            return Err(SaeaError::AgentNotActive);
        }
        if self.agent.fitness >= self.arena.min_fitness_threshold {
            return Err(SaeaError::AgentAboveThreshold);
        }
        if self.authority != self.arena.authority {
            return Err(SaeaError::Unauthorized);
        }
        Ok(())
    }
}

/// Removes the agent from the competition for good: marks it inactive and
/// takes it off the arena's count of active agents.
///
/// Refused, with nothing changed, when the arena is inactive
/// (`ArenaNotActive`), when the agent is inactive (`AgentNotActive`), when
/// its fitness is not below the arena's threshold (`AgentAboveThreshold`),
/// when the caller is not the arena's authority (`Unauthorized`), or when
/// the arena counts no active agent (`ArithmeticOverflow`): the first of
/// these that applies.
pub fn handle_prune_agent(ctx: &mut PruneAgent) -> (res: Result<AgentPruned, SaeaError>)
    ensures
        match res {
            Ok(event) => {
                &&& old(ctx).refusal() is None
                &&& *final(ctx) == old(ctx).pruned()
                &&& event == old(ctx).report()
                &&& final(ctx).arena.active_agents == old(ctx).arena.active_agents - 1
                &&& !final(ctx).agent.is_active
                &&& old(ctx).arena.wf() ==> final(ctx).arena.wf()
            },
            Err(e) => {
                &&& old(ctx).refusal() == Some(e)
                &&& *final(ctx) == *old(ctx)
            },
        },
{
    match ctx.validate() {
        Ok(_) => {},
        Err(e) => {
            return Err(e);
        },
    }
    let remaining = match ctx.arena.active_agents.checked_sub(1) {
        Some(n) => n,
        None => {
            return Err(SaeaError::ArithmeticOverflow);
        },
    };
    ctx.agent.is_active = false;
    ctx.arena.active_agents = remaining;
    Ok(
        AgentPruned {
            agent: ctx.agent_key,
            fitness: ctx.agent.fitness,
            generation: ctx.agent.generation,
        },
    )
}

} // verus!
