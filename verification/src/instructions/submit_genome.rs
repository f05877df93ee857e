//! Resubmission: an agent replaces its genome and records its lineage.
use vstd::prelude::*;
use crate::address::Address;
use crate::errors::SaeaError;
use crate::events::GenomeSubmitted;
use crate::fitness::MAX_GENOME_LEN;
use crate::hashing::{sha256, sha256_of};
use crate::state::agent::valid_genome;
use crate::state::{AgentAccount, Arena};

verus! {

/// The records that resubmission names: the arena, the agent, where the
/// agent is kept, and the owner who asks.
#[derive(Debug, Clone, PartialEq, Eq)]
pub struct SubmitGenome {
    pub arena: Arena,
    pub agent: AgentAccount,
    pub agent_key: Address,
    pub owner: Address,
}

impl SubmitGenome {
    /// The first rule of resubmission that the records break, if any: the
    /// arena is active, the agent's owner asks, and the agent is active.
    pub open spec fn violation(&self) -> Option<SaeaError> {
        if !self.arena.is_active {
            Some(SaeaError::ArenaNotActive)
        } else if self.agent.owner != self.owner {
            Some(SaeaError::Unauthorized)
        } else if !self.agent.is_active {
            Some(SaeaError::AgentNotActive)
        } else {
            None
        }
    }

    /// Why resubmission fails although no rule is broken, if it does: the
    /// new genome has no accepted length, or else the agent's mutations
    /// cannot be counted any higher.
    pub open spec fn failure(&self, new_genome: Seq<u8>) -> Option<SaeaError> {
        if !valid_genome(new_genome) {
            Some(SaeaError::InvalidGenomeLength)
        } else if self.agent.mutation_count == u64::MAX {
            Some(SaeaError::ArithmeticOverflow)
        } else {
            None
        }
    }

    /// Why resubmission is refused, if it is: the first broken rule, or
    /// else the failure.
    pub open spec fn refusal(&self, new_genome: Seq<u8>) -> Option<SaeaError> {
        if self.violation() is Some {
            self.violation()
        } else {
            self.failure(new_genome)
        }
    }

    /// The records after resubmission, given the digest of the genome that
    /// is replaced: the agent holds the new genome, that digest and the
    /// parent named by the caller, has one more mutation, and stands in
    /// the arena's current generation. The parent is taken as given: it is
    /// not held against any record.
    pub open spec fn replaced(
        self,
        new_genome: Vec<u8>,
        parent_key: Address,
        old_genome_hash: [u8; 32],
    ) -> SubmitGenome {
        SubmitGenome {
            agent: AgentAccount {
                parent_genome_hash: old_genome_hash,
                parent: parent_key,
                genome: new_genome,
                mutation_count: (self.agent.mutation_count + 1) as u64,
                generation: self.arena.current_generation,
                ..self.agent
            },
            ..self
        }
    }

    /// What resubmission reports, given the digest of the new genome.
    pub open spec fn report(&self, parent_key: Address, new_genome_hash: [u8; 32]) -> GenomeSubmitted {
        GenomeSubmitted {
            agent: self.agent_key,
            genome_hash: new_genome_hash,
            generation: self.arena.current_generation,
            mutation_count: (self.agent.mutation_count + 1) as u64,
            parent: parent_key,
        }
    }

    /// Checks the rules of resubmission, in the order in which
    /// `violation` lists them.
    pub fn validate(&self) -> (res: Result<(), SaeaError>)
        ensures
            res is Ok <==> self.violation() is None,
            res is Err ==> Some(res->Err_0) == self.violation(),
    {
        if !self.arena.is_active {
            return Err(SaeaError::ArenaNotActive);
        }
        if self.agent.owner != self.owner {
            return Err(SaeaError::Unauthorized);
        }
        if !self.agent.is_active {
            return Err(SaeaError::AgentNotActive);
        }
        Ok(())
    }

    /// Replaces the agent's genome, given the digests of the genome that
    /// goes and of the genome that comes. Refuses, changing nothing, a
    /// genome without an accepted length and a count of mutations that
    /// cannot go any higher.
    pub fn replace(
        &mut self,
        new_genome: Vec<u8>,
        parent_key: Address,
        old_genome_hash: [u8; 32],
        new_genome_hash: [u8; 32],
    ) -> (res: Result<GenomeSubmitted, SaeaError>)
        ensures
            match res {
                Ok(event) => {
                    &&& old(self).failure(new_genome@) is None
                    &&& *final(self) == old(self).replaced(new_genome, parent_key, old_genome_hash)
                    &&& event == old(self).report(parent_key, new_genome_hash)
                    &&& final(self).agent.wf()
                },
                Err(e) => {
                    &&& old(self).failure(new_genome@) == Some(e)
                    &&& *final(self) == *old(self)
                },
            },
    {
        if new_genome.len() == 0 || new_genome.len() > MAX_GENOME_LEN {
            return Err(SaeaError::InvalidGenomeLength);
        }
        let mutation_count: u64 = match self.agent.mutation_count.checked_add(1) {
            Some(n) => n,
            None => {
                return Err(SaeaError::ArithmeticOverflow);
            },
        };
        self.agent.parent_genome_hash = old_genome_hash;
        self.agent.parent = parent_key;
        self.agent.genome = new_genome;
        self.agent.mutation_count = mutation_count;
        self.agent.generation = self.arena.current_generation;
        Ok(
            GenomeSubmitted {
                agent: self.agent_key,
                genome_hash: new_genome_hash,
                generation: self.agent.generation,
                mutation_count: self.agent.mutation_count,
                parent: self.agent.parent,
            },
        )
    }
}

/// Replaces the agent's genome with `new_genome`. The agent keeps the
/// SHA-256 digest of the genome it held until now, and `parent_key` as its
/// parent; the report carries the digest of the new genome.
///
/// Refused, with nothing changed, when the arena is inactive
/// (`ArenaNotActive`), when the caller does not own the agent
/// (`Unauthorized`), when the agent is inactive (`AgentNotActive`), when
/// the new genome has no accepted length (`InvalidGenomeLength`), or when
/// the agent's mutations cannot be counted any higher
/// (`ArithmeticOverflow`): the first of these that applies.
pub fn handle_submit_genome(
    ctx: &mut SubmitGenome,
    new_genome: Vec<u8>,
    parent_key: Address,
) -> (res: Result<GenomeSubmitted, SaeaError>)
    ensures
        match res {
            Ok(event) => {
                &&& old(ctx).refusal(new_genome@) is None
                &&& *final(ctx) == old(ctx).replaced(
                    new_genome,
                    parent_key,
                    final(ctx).agent.parent_genome_hash,
                )
                &&& final(ctx).agent.parent_genome_hash@ == sha256_of(old(ctx).agent.genome@)
                &&& event == old(ctx).report(parent_key, event.genome_hash)
                &&& event.genome_hash@ == sha256_of(new_genome@)
                &&& final(ctx).agent.wf()
            },
            Err(e) => {
                &&& old(ctx).refusal(new_genome@) == Some(e)
                &&& *final(ctx) == *old(ctx)
            },
        },
{
    match ctx.validate() {
        Ok(_) => {},
        Err(e) => {
            return Err(e);
        },
    }
    if new_genome.len() == 0 || new_genome.len() > MAX_GENOME_LEN {
        return Err(SaeaError::InvalidGenomeLength);
    }
    let old_genome_hash = sha256(ctx.agent.genome.as_slice());
    let new_genome_hash = sha256(new_genome.as_slice());
    ctx.replace(new_genome, parent_key, old_genome_hash, new_genome_hash)
}

} // verus!
