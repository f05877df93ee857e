//! A round: one scoring epoch with a fixed seed and running statistics.
use vstd::prelude::*;
use crate::address::Address;

verus! {

/// One scoring epoch with a fixed seed and running statistics.
#[derive(Debug, Clone, Copy, PartialEq, Eq)]
pub struct Round {
    pub arena: Address,
    pub round_number: u64,
    pub generation: u64,
    pub participants: u64,
    pub best_fitness: u64,
    pub worst_fitness: u64,
    pub average_fitness: u64,
    pub total_fitness: u64,
    pub seed: [u8; 32],
    pub started_at: i64,
    pub completed_at: i64,
    pub is_complete: bool,
    pub bump: u8,
}

impl Round {
    /// The mean score of the round's participants, rounded down; 0 when
    /// nobody took part.
    pub open spec fn mean_fitness(&self) -> int {
        if self.participants > 0 {
            self.total_fitness as int / self.participants as int
        } else {
            0
        }
    }

    /// What every operation keeps true of a round once it is opened.
    ///
    /// While nobody has been scored, the best and total scores are 0 and
    /// the worst score holds its placeholder: `u64::MAX` in an open round,
    /// 0 in a closed one. Once somebody has been scored, the worst score
    /// is at most the best, and the total lies between the worst and the
    /// best score taken once for every participant. An open round has no
    /// average and no closing time yet; a closed round's average is the
    /// mean of its scores.
    pub open spec fn wf(&self) -> bool {
        &&& self.round_number >= 1
        &&& self.participants == 0 ==> {
            &&& self.best_fitness == 0
            &&& self.total_fitness == 0
            &&& self.worst_fitness == if self.is_complete { 0 } else { u64::MAX }
        }
        &&& self.participants > 0 ==> {
            &&& self.worst_fitness <= self.best_fitness
            &&& self.worst_fitness * self.participants <= self.total_fitness
            &&& self.total_fitness <= self.best_fitness * self.participants
        }
        &&& !self.is_complete ==> self.average_fitness == 0 && self.completed_at == 0
        &&& self.is_complete ==> self.average_fitness == self.mean_fitness()
    }
}

/// Taking one more score in keeps the total between the worst and the best
/// score, each taken once for every participant.
pub proof fn lemma_total_stays_between(
    worst: int,
    best: int,
    participants: int,
    total: int,
    score: int,
    new_worst: int,
    new_best: int,
)
    by (nonlinear_arith)
    requires
        participants > 0,
        worst * participants <= total <= best * participants,
        0 <= new_worst <= worst,
        new_worst <= score <= new_best,
        best <= new_best,
    ensures
        new_worst * (participants + 1) <= total + score <= new_best * (participants + 1),
{
}

/// The mean of scores lies between bounds that hold of their total.
pub proof fn lemma_mean_between(worst: int, best: int, participants: int, total: int)
    by (nonlinear_arith)
    requires
        participants > 0,
        worst * participants <= total <= best * participants,
    ensures
        worst <= total / participants <= best,
{
}

} // verus!
