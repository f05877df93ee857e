//! Registration: a new agent joins the arena.
use vstd::prelude::*;
use crate::address::{zero_bytes, Address};
use crate::errors::SaeaError;
use crate::events::AgentRegistered;
use crate::fitness::MAX_GENOME_LEN;
use crate::hashing::{sha256, sha256_of};
use crate::state::agent::valid_genome;
use crate::state::{AgentAccount, Arena};

verus! {

/// The records that registration names: the arena, the agent record to
/// fill in, where it is kept and the bump it was placed with, and the
/// owner who registers.
#[derive(Debug, Clone, PartialEq, Eq)]
pub struct RegisterAgent {
    pub arena: Arena,
    pub agent: AgentAccount,
    pub agent_key: Address,
    pub agent_bump: u8,
    pub owner: Address,
}

impl RegisterAgent {
    /// The first rule of registration that the records break, if any: the
    /// arena is active and has room for one more active agent.
    pub open spec fn violation(&self) -> Option<SaeaError> {
        if !self.arena.is_active {
            Some(SaeaError::ArenaNotActive)
        } else if self.arena.active_agents >= self.arena.max_agents {
            Some(SaeaError::MaxAgentsReached)
        } else {
            None
        }
    }

    /// Why registration fails although no rule is broken, if it does: the
    /// genome has no accepted length, or else one of the arena's two counts
    /// of agents cannot go any higher.
    pub open spec fn failure(&self, genome: Seq<u8>) -> Option<SaeaError> {
        if !valid_genome(genome) {
            Some(SaeaError::InvalidGenomeLength)
        } else if self.arena.total_agents == u64::MAX || self.arena.active_agents == u64::MAX {
            Some(SaeaError::ArithmeticOverflow)
        } else {
            None
        }
    }

    /// Why registration is refused, if it is: the first broken rule, or
    /// else the failure.
    pub open spec fn refusal(&self, genome: Seq<u8>) -> Option<SaeaError> {
        if self.violation() is Some {
            self.violation()
        } else {
            self.failure(genome)
        }
    }

    /// The records after registration at time `now`: the agent is new,
    /// active, unscored and without lineage, in the arena's current
    /// generation; the arena counts one more agent, and one more active.
    pub open spec fn enrolled(self, genome: Vec<u8>, now: i64) -> RegisterAgent {
        RegisterAgent {
            arena: Arena {
                total_agents: (self.arena.total_agents + 1) as u64,
                active_agents: (self.arena.active_agents + 1) as u64,
                ..self.arena
            },
            agent: AgentAccount {
                owner: self.owner,
                genome,
                fitness: 0,
                generation: self.arena.current_generation,
                parent: Address::spec_zero(),
                parent_genome_hash: zero_bytes(),
                mutation_count: 0,
                rounds_participated: 0,
                total_fitness: 0,
                is_active: true,
                registered_at: now,
                last_round: 0,
                bump: self.agent_bump,
            },
            ..self
        }
    }

    /// What registration reports, given the digest of the genome.
    pub open spec fn report(&self, genome_hash: [u8; 32]) -> AgentRegistered {
        AgentRegistered {
            agent: self.agent_key,
            owner: self.owner,
            genome_hash,
            generation: self.arena.current_generation,
        }
    }

    /// Checks the rules of registration, in the order in which
    /// `violation` lists them.
    pub fn validate(&self) -> (res: Result<(), SaeaError>)
        ensures
            res is Ok <==> self.violation() is None,
            res is Err ==> Some(res->Err_0) == self.violation(),
    {
        if !self.arena.is_active {
            return Err(SaeaError::ArenaNotActive);
        }
        if self.arena.active_agents >= self.arena.max_agents {
            return Err(SaeaError::MaxAgentsReached);
        }
        Ok(())
    }

    /// Fills in the agent record and counts the agent in, given the digest
    /// of its genome for the report. Refuses, changing nothing, a genome
    /// without an accepted length and a count that cannot go any higher.
    pub fn enroll(&mut self, genome: Vec<u8>, genome_hash: [u8; 32], now: i64) -> (res: Result<
        AgentRegistered,
        SaeaError,
    >)
        ensures
            match res {
                Ok(event) => {
                    &&& old(self).failure(genome@) is None
                    &&& *final(self) == old(self).enrolled(genome, now)
                    &&& event == old(self).report(genome_hash)
                    &&& final(self).agent.wf()
                    &&& old(self).violation() is None && old(self).arena.wf()
                        ==> final(self).arena.wf()
                },
                Err(e) => {
                    &&& old(self).failure(genome@) == Some(e)
                    &&& *final(self) == *old(self)
                },
            },
    {
        if genome.len() == 0 || genome.len() > MAX_GENOME_LEN {
            return Err(SaeaError::InvalidGenomeLength);
        }
        let total_agents: u64 = match self.arena.total_agents.checked_add(1) {
            Some(n) => n,
            None => {
                return Err(SaeaError::ArithmeticOverflow);
            },
        };
        let active_agents: u64 = match self.arena.active_agents.checked_add(1) {
            Some(n) => n,
            None => {
                return Err(SaeaError::ArithmeticOverflow);
            },
        };
        self.agent = AgentAccount {
            owner: self.owner,
            genome,
            fitness: 0,
            generation: self.arena.current_generation,
            parent: Address::zero(),
            parent_genome_hash: [0u8; 32],
            mutation_count: 0,
            rounds_participated: 0,
            total_fitness: 0,
            is_active: true,
            registered_at: now,
            last_round: 0,
            bump: self.agent_bump,
        };
        self.arena.total_agents = total_agents;
        self.arena.active_agents = active_agents;
        Ok(
            AgentRegistered {
                agent: self.agent_key,
                owner: self.owner,
                genome_hash,
                generation: self.agent.generation,
            },
        )
    }
}

/// Registers a new agent with the genome given, at time `now`. The report
/// carries the SHA-256 digest of the genome. On success the arena counts
/// exactly one more agent and one more active agent.
///
/// Refused, with nothing changed, when the arena is inactive
/// (`ArenaNotActive`) or full (`MaxAgentsReached`), when the genome has no
/// accepted length (`InvalidGenomeLength`), or when a count of agents
/// cannot go any higher (`ArithmeticOverflow`): the first of these that
/// applies.
pub fn handle_register_agent(ctx: &mut RegisterAgent, genome: Vec<u8>, now: i64) -> (res: Result<
    AgentRegistered,
    SaeaError,
>)
    ensures
        match res {
            Ok(event) => {
                &&& old(ctx).refusal(genome@) is None
                &&& *final(ctx) == old(ctx).enrolled(genome, now)
                &&& event == old(ctx).report(event.genome_hash)
                &&& event.genome_hash@ == sha256_of(genome@)
                &&& final(ctx).arena.total_agents == old(ctx).arena.total_agents + 1
                &&& final(ctx).arena.active_agents == old(ctx).arena.active_agents + 1
                &&& final(ctx).agent.wf()
                &&& old(ctx).arena.wf() ==> final(ctx).arena.wf()
            },
            Err(e) => {
                &&& old(ctx).refusal(genome@) == Some(e)
                &&& *final(ctx) == *old(ctx)
            },
        },
{
    match ctx.validate() {
        Ok(_) => {},
        Err(e) => {
            return Err(e);
        },
    }
    if genome.len() == 0 || genome.len() > MAX_GENOME_LEN {
        return Err(SaeaError::InvalidGenomeLength);
    }
    let genome_hash = sha256(genome.as_slice());
    ctx.enroll(genome, genome_hash, now)
}

} // verus!
