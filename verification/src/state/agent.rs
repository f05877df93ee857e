//! An agent: a participant, its genome and its record of scores.
use vstd::prelude::*;
use crate::address::Address;
use crate::fitness::MAX_GENOME_LEN;

verus! {

/// Whether a genome has a length that the arena accepts: 1 to
/// `MAX_GENOME_LEN` genes.
pub open spec fn valid_genome(genome: Seq<u8>) -> bool {
    1 <= genome.len() <= MAX_GENOME_LEN
}

/// A participant, its genome and its record of scores.
#[derive(Debug, Clone, PartialEq, Eq)]
pub struct AgentAccount {
    pub owner: Address,
    pub genome: Vec<u8>,
    pub fitness: u64,
    pub generation: u64,
    pub parent: Address,
    pub parent_genome_hash: [u8; 32],
    pub mutation_count: u64,
    pub rounds_participated: u64,
    pub total_fitness: u64,
    pub is_active: bool,
    pub registered_at: i64,
    pub last_round: u64,
    pub bump: u8,
}

impl AgentAccount {
    /// What every operation keeps true of an agent once it is registered:
    /// its genome has an accepted length.
    pub open spec fn wf(&self) -> bool {
        valid_genome(self.genome@)
    }

    /// The mean of the agent's scores over the rounds it took part in,
    /// rounded down; 0 before its first round.
    pub open spec fn spec_average_fitness(&self) -> int {
        if self.rounds_participated == 0 {
            0
        } else {
            self.total_fitness as int / self.rounds_participated as int
        }
    }

    /// The mean of the agent's scores over the rounds it took part in,
    /// rounded down; 0 before its first round.
    pub fn average_fitness(&self) -> (average: u64)
        ensures
            average == self.spec_average_fitness(),
    {
        if self.rounds_participated == 0 {
            return 0;
        }
        self.total_fitness / self.rounds_participated
    }
}

} // verus!
