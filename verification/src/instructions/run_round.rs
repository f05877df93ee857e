//! Rounds: opening one, scoring agents in it, and closing it.
use vstd::prelude::*;
use vstd::bytes::spec_u64_to_le_bytes;
use crate::address::Address;
use crate::errors::SaeaError;
use crate::events::{AgentScored, RoundCompleted};
use crate::fitness::{compute_fitness, fitness, lemma_fitness_range, FITNESS_BOUND, MAX_GENOME_LEN};
use crate::hashing::{i64_le_bytes, parts_view, sha256, sha256_of, sha256_of_parts, sha256v, u64_le_bytes};
use crate::state::round::lemma_total_stays_between;
use crate::state::{AgentAccount, Arena, Round};

verus! {

/// The records that opening a round names: the arena and where it is
/// kept, the round record to fill in and the bump it was placed with, and
/// who asks.
#[derive(Debug, Clone, Copy, PartialEq, Eq)]
pub struct RunRound {
    pub arena: Arena,
    pub arena_key: Address,
    pub round: Round,
    pub round_bump: u8,
    pub authority: Address,
}

/// What a round's seed is the digest of: where the arena is kept, then the
/// round's number, the generation and the opening time, each as eight
/// bytes, least significant first.
pub open spec fn round_seed_input(
    arena_key: Address,
    round_number: u64,
    generation: u64,
    now: i64,
) -> Seq<Seq<u8>> {
    seq![
        arena_key.bytes@,
        spec_u64_to_le_bytes(round_number),
        spec_u64_to_le_bytes(generation),
        spec_u64_to_le_bytes(now as u64),
    ]
}

/// Derives the seed of round `round_number`, opened at time `now` in
/// generation `generation` of the arena kept at `arena_key`.
pub fn derive_round_seed(
    arena_key: &Address,
    round_number: u64,
    generation: u64,
    now: i64,
) -> (seed: [u8; 32])
    ensures
        seed@ == sha256_of_parts(round_seed_input(*arena_key, round_number, generation, now)),
{
    let number_bytes = u64_le_bytes(round_number);
    let generation_bytes = u64_le_bytes(generation);
    let time_bytes = i64_le_bytes(now);
    let parts: [&[u8]; 4] = [
        arena_key.bytes.as_slice(),
        number_bytes.as_slice(),
        generation_bytes.as_slice(),
        time_bytes.as_slice(),
    ];
    let seed = sha256v(parts.as_slice());
    proof {
        assert(parts_view(parts@) =~= round_seed_input(*arena_key, round_number, generation, now));
    }
    seed
}

impl RunRound {
    /// The first rule of opening a round that the records break, if any:
    /// the arena is active and its authority asks.
    pub open spec fn violation(&self) -> Option<SaeaError> {
        if !self.arena.is_active {
            Some(SaeaError::ArenaNotActive)
        } else if self.authority != self.arena.authority {
            Some(SaeaError::Unauthorized)
        } else {
            None
        }
    }

    /// Why opening a round fails although no rule is broken, if it does:
    /// the arena's rounds cannot be counted any higher.
    pub open spec fn failure(&self) -> Option<SaeaError> {
        if self.arena.current_round == u64::MAX {
            Some(SaeaError::ArithmeticOverflow)
        } else {
            None
        }
    }

    /// Why opening a round is refused, if it is: the first broken rule,
    /// or else the failure.
    pub open spec fn refusal(&self) -> Option<SaeaError> {
        if self.violation() is Some {
            self.violation()
        } else {
            self.failure()
        }
    }

    /// What the new round's seed is the digest of.
    pub open spec fn seed_input(&self, now: i64) -> Seq<Seq<u8>> {
        round_seed_input(
            self.arena_key,
            (self.arena.current_round + 1) as u64,
            self.arena.current_generation,
            now,
        )
    }

    /// The records after a round is opened at time `now` with the seed
    /// given: the round has the arena's next number and its current
    /// generation, no participants and no scores, and its worst score
    /// holds the placeholder `u64::MAX`; the arena counts one more round.
    pub open spec fn opened(self, seed: [u8; 32], now: i64) -> RunRound {
        RunRound {
            arena: Arena { current_round: (self.arena.current_round + 1) as u64, ..self.arena },
            round: Round {
                arena: self.arena_key,
                round_number: (self.arena.current_round + 1) as u64,
                generation: self.arena.current_generation,
                participants: 0,
                best_fitness: 0,
                worst_fitness: u64::MAX,
                average_fitness: 0,
                total_fitness: 0,
                seed,
                started_at: now,
                completed_at: 0,
                is_complete: false,
                bump: self.round_bump,
            },
            ..self
        }
    }

    /// Checks the rules of opening a round, in the order in which
    /// `violation` lists them.
    pub fn validate(&self) -> (res: Result<(), SaeaError>)
        ensures
            res is Ok <==> self.violation() is None,
            res is Err ==> Some(res->Err_0) == self.violation(),
    {
        if !self.arena.is_active {
            return Err(SaeaError::ArenaNotActive);
        }
        if self.authority != self.arena.authority {
            return Err(SaeaError::Unauthorized);
        }
        Ok(())
    }

    /// Fills in the round record with the seed given and counts the round
    /// in. Refuses, changing nothing, when the arena's rounds cannot be
    /// counted any higher.
    pub fn open(&mut self, seed: [u8; 32], now: i64) -> (res: Result<(), SaeaError>)
        ensures
            match res {
                Ok(_) => {
                    &&& old(self).failure() is None
                    &&& *final(self) == old(self).opened(seed, now)
                    &&& final(self).round.wf()
                    &&& old(self).arena.wf() ==> final(self).arena.wf()
                },
                Err(e) => {
                    &&& old(self).failure() == Some(e)
                    &&& *final(self) == *old(self)
                },
            },
    {
        let round_number: u64 = match self.arena.current_round.checked_add(1) {
            Some(n) => n,
            None => {
                return Err(SaeaError::ArithmeticOverflow);
            },
        };
        self.round = Round {
            arena: self.arena_key,
            round_number,
            generation: self.arena.current_generation,
            participants: 0,
            best_fitness: 0,
            worst_fitness: u64::MAX,
            average_fitness: 0,
            total_fitness: 0,
            seed,
            started_at: now,
            completed_at: 0,
            is_complete: false,
            bump: self.round_bump,
        };
        self.arena.current_round = round_number;
        Ok(())
    }
}

/// Opens the arena's next round at time `now`. The round's seed is the
/// SHA-256 digest of where the arena is kept, the round's number, the
/// generation and `now`.
///
/// Refused, with nothing changed, when the arena is inactive
/// (`ArenaNotActive`), when the caller is not the arena's authority
/// (`Unauthorized`), or when the arena's rounds cannot be counted any
/// higher (`ArithmeticOverflow`): the first of these that applies.
pub fn handle_run_round(ctx: &mut RunRound, now: i64) -> (res: Result<(), SaeaError>)
    ensures
        match res {
            Ok(_) => {
                &&& old(ctx).refusal() is None
                &&& *final(ctx) == old(ctx).opened(final(ctx).round.seed, now)
                &&& final(ctx).round.seed@ == sha256_of_parts(old(ctx).seed_input(now))
                &&& final(ctx).round.round_number == old(ctx).arena.current_round + 1
                &&& final(ctx).round.wf()
                &&& old(ctx).arena.wf() ==> final(ctx).arena.wf()
            },
            Err(e) => {
                &&& old(ctx).refusal() == Some(e)
                &&& *final(ctx) == *old(ctx)
            },
        },
{
    match ctx.validate() {
        Ok(_) => {},
        Err(e) => {
            return Err(e);
        },
    }
    let new_round_number: u64 = match ctx.arena.current_round.checked_add(1) {
        Some(n) => n,
        None => {
            return Err(SaeaError::ArithmeticOverflow);
        },
    };
    let round_seed = derive_round_seed(
        &ctx.arena_key,
        new_round_number,
        ctx.arena.current_generation,
        now,
    );
    ctx.open(round_seed, now)
}

/// The records that scoring names: the arena, the round, the agent and
/// where it is kept, and who asks.
#[derive(Debug, Clone, PartialEq, Eq)]
pub struct ScoreAgent {
    pub arena: Arena,
    pub round: Round,
    pub agent: AgentAccount,
    pub agent_key: Address,
    pub authority: Address,
}

impl ScoreAgent {
    /// The first rule of scoring that the records break, if any: the round
    /// is open, the agent is active, the agent's last round lies before
    /// this one, and the arena's authority asks.
    pub open spec fn violation(&self) -> Option<SaeaError> {
        if self.round.is_complete {
            Some(SaeaError::RoundAlreadyComplete)
        } else if !self.agent.is_active {
            Some(SaeaError::AgentNotActive)
        } else if self.agent.last_round >= self.round.round_number {
            Some(SaeaError::AlreadyParticipated)
        } else if self.authority != self.arena.authority {
            Some(SaeaError::Unauthorized)
        } else {
            None
        }
    }

    /// Why entering a score of `score` fails although no rule is broken,
    /// if it does: one of the agent's or the round's counts or totals
    /// cannot take it.
    pub open spec fn failure(&self, score: u64) -> Option<SaeaError> {
        if self.agent.rounds_participated == u64::MAX || self.agent.total_fitness + score
            > u64::MAX || self.round.participants == u64::MAX || self.round.total_fitness + score
            > u64::MAX {
            Some(SaeaError::ArithmeticOverflow)
        } else {
            None
        }
    }

    /// Why scoring with a score of `score` is refused, if it is: the first
    /// broken rule, or else the failure.
    pub open spec fn refusal(&self, score: u64) -> Option<SaeaError> {
        if self.violation() is Some {
            self.violation()
        } else {
            self.failure(score)
        }
    }

    /// The score that the agent's genome earns against the round's seed.
    pub open spec fn earned(&self) -> int {
        fitness(self.agent.genome@, self.round.seed@)
    }

    /// The records after the agent is scored `score`: the agent holds the
    /// score as its fitness and this round as its last, and has one more
    /// round and `score` more in total; the round has one more participant
    /// and `score` more in total, and its best and worst scores take
    /// `score` in.
    pub open spec fn recorded(self, score: u64) -> ScoreAgent {
        ScoreAgent {
            agent: AgentAccount {
                fitness: score,
                last_round: self.round.round_number,
                rounds_participated: (self.agent.rounds_participated + 1) as u64,
                total_fitness: (self.agent.total_fitness + score) as u64,
                ..self.agent
            },
            round: Round {
                participants: (self.round.participants + 1) as u64,
                total_fitness: (self.round.total_fitness + score) as u64,
                best_fitness: if score > self.round.best_fitness {
                    score
                } else {
                    self.round.best_fitness
                },
                worst_fitness: if score < self.round.worst_fitness {
                    score
                } else {
                    self.round.worst_fitness
                },
                ..self.round
            },
            ..self
        }
    }

    /// What scoring reports, given the score and the digest of the genome.
    pub open spec fn report(&self, score: u64, genome_hash: [u8; 32]) -> AgentScored {
        AgentScored {
            agent: self.agent_key,
            round_number: self.round.round_number,
            fitness: score,
            genome_hash,
        }
    }

    /// Checks the rules of scoring, in the order in which `violation`
    /// lists them.
    pub fn validate(&self) -> (res: Result<(), SaeaError>)
        ensures
            res is Ok <==> self.violation() is None,
            res is Err ==> Some(res->Err_0) == self.violation(),
    {
        if self.round.is_complete {
            return Err(SaeaError::RoundAlreadyComplete);
        }
        if !self.agent.is_active {
            return Err(SaeaError::AgentNotActive);
        }
        if self.agent.last_round >= self.round.round_number {
            return Err(SaeaError::AlreadyParticipated);
        }
        if self.authority != self.arena.authority {
            return Err(SaeaError::Unauthorized);
        }
        Ok(())
    }

    /// Enters a score that the agent earned in the round, given the digest
    /// of its genome for the report. Refuses, changing nothing, a score
    /// that a count or a total cannot take.
    pub fn record(&mut self, score: u64, genome_hash: [u8; 32]) -> (res: Result<
        AgentScored,
        SaeaError,
    >)
        ensures
            match res {
                Ok(event) => {
                    &&& old(self).failure(score) is None
                    &&& *final(self) == old(self).recorded(score)
                    &&& event == old(self).report(score, genome_hash)
                    &&& old(self).round.wf() && !old(self).round.is_complete
                        ==> final(self).round.wf()
                    &&& old(self).agent.wf() ==> final(self).agent.wf()
                },
                Err(e) => {
                    &&& old(self).failure(score) == Some(e)
                    &&& *final(self) == *old(self)
                },
            },
    {
        let rounds_participated: u64 = match self.agent.rounds_participated.checked_add(1) {
            Some(n) => n,
            None => {
                return Err(SaeaError::ArithmeticOverflow);
            },
        };
        let agent_total: u64 = match self.agent.total_fitness.checked_add(score) {
            Some(n) => n,
            None => {
                return Err(SaeaError::ArithmeticOverflow);
            },
        };
        let participants: u64 = match self.round.participants.checked_add(1) {
            Some(n) => n,
            None => {
                return Err(SaeaError::ArithmeticOverflow);
            },
        };
        let round_total: u64 = match self.round.total_fitness.checked_add(score) {
            Some(n) => n,
            None => {
                return Err(SaeaError::ArithmeticOverflow);
            },
        };
        self.agent.fitness = score;
        self.agent.last_round = self.round.round_number;
        self.agent.rounds_participated = rounds_participated;
        self.agent.total_fitness = agent_total;
        self.round.participants = participants;
        self.round.total_fitness = round_total;
        if score > self.round.best_fitness {
            self.round.best_fitness = score;
        }
        if score < self.round.worst_fitness {
            self.round.worst_fitness = score;
        }
        proof {
            let before = old(self).round;
            if before.wf() && before.participants > 0 {
                lemma_total_stays_between(
                    before.worst_fitness as int,
                    before.best_fitness as int,
                    before.participants as int,
                    before.total_fitness as int,
                    score as int,
                    self.round.worst_fitness as int,
                    self.round.best_fitness as int,
                );
            }
        }
        Ok(
            AgentScored {
                agent: self.agent_key,
                round_number: self.round.round_number,
                fitness: score,
                genome_hash,
            },
        )
    }
}

/// Scores the agent's genome against the round's seed and enters the
/// score with the agent and the round. The report carries the SHA-256
/// digest of the genome. On success the agent's last round is this round,
/// which is later than the one it had.
///
/// Refused, with nothing changed, when the round is complete
/// (`RoundAlreadyComplete`), when the agent is inactive
/// (`AgentNotActive`), when the agent's last round is this round or a
/// later one (`AlreadyParticipated`), when the caller is not the arena's
/// authority (`Unauthorized`), or when a count or a total cannot take the
/// score (`ArithmeticOverflow`): the first of these that applies.
pub fn score_agent_handler(ctx: &mut ScoreAgent) -> (res: Result<AgentScored, SaeaError>)
    requires
        old(ctx).agent.genome@.len() <= MAX_GENOME_LEN,
    ensures
        0 <= old(ctx).earned() <= FITNESS_BOUND,
        match res {
            Ok(event) => {
                &&& old(ctx).refusal(old(ctx).earned() as u64) is None
                &&& *final(ctx) == old(ctx).recorded(old(ctx).earned() as u64)
                &&& event == old(ctx).report(old(ctx).earned() as u64, event.genome_hash)
                &&& event.genome_hash@ == sha256_of(old(ctx).agent.genome@)
                &&& final(ctx).agent.last_round > old(ctx).agent.last_round
                &&& old(ctx).round.wf() ==> final(ctx).round.wf()
                &&& old(ctx).agent.wf() ==> final(ctx).agent.wf()
            },
            Err(e) => {
                &&& old(ctx).refusal(old(ctx).earned() as u64) == Some(e)
                &&& *final(ctx) == *old(ctx)
            },
        },
{
    match ctx.validate() {
        Ok(_) => {},
        Err(e) => {
            proof {
                lemma_fitness_range(ctx.agent.genome@, ctx.round.seed@);
            }
            return Err(e);
        },
    }
    let score = compute_fitness(ctx.agent.genome.as_slice(), &ctx.round.seed);
    let genome_hash = sha256(ctx.agent.genome.as_slice());
    ctx.record(score, genome_hash)
}

/// The records that closing a round names: the arena, the round, and who
/// asks.
#[derive(Debug, Clone, Copy, PartialEq, Eq)]
pub struct CompleteRound {
    pub arena: Arena,
    pub round: Round,
    pub authority: Address,
}

impl CompleteRound {
    /// The first rule of closing a round that the records break, if any:
    /// the round is open and the arena's authority asks.
    pub open spec fn violation(&self) -> Option<SaeaError> {
        if self.round.is_complete {
            Some(SaeaError::RoundAlreadyComplete)
        } else if self.authority != self.arena.authority {
            Some(SaeaError::Unauthorized)
        } else {
            None
        }
    }

    /// The records after the round is closed at time `now`: the round is
    /// complete, its average is the mean of its scores (0 when nobody
    /// took part), and a worst score that still holds the placeholder
    /// `u64::MAX` is 0.
    pub open spec fn completed(self, now: i64) -> CompleteRound {
        CompleteRound {
            round: Round {
                average_fitness: self.round.mean_fitness() as u64,
                completed_at: now,
                is_complete: true,
                worst_fitness: if self.round.worst_fitness == u64::MAX {
                    0
                } else {
                    self.round.worst_fitness
                },
                ..self.round
            },
            ..self
        }
    }

    /// What closing a round reports.
    pub open spec fn report(&self) -> RoundCompleted {
        RoundCompleted {
            round_number: self.round.round_number,
            generation: self.round.generation,
            participants: self.round.participants,
            best_fitness: self.round.best_fitness,
            average_fitness: self.round.mean_fitness() as u64,
        }
    }

    /// Checks the rules of closing a round, in the order in which
    /// `violation` lists them.
    pub fn validate(&self) -> (res: Result<(), SaeaError>)
        ensures
            res is Ok <==> self.violation() is None,
            res is Err ==> Some(res->Err_0) == self.violation(),
    {
        if self.round.is_complete {
            return Err(SaeaError::RoundAlreadyComplete);
        }
        if self.authority != self.arena.authority {
            return Err(SaeaError::Unauthorized);
        }
        Ok(())
    }
}

/// Closes the round at time `now`: works out its average, clears a worst
/// score that nobody set, and marks the round complete. A round in which
/// nobody took part is closed like any other.
///
/// Refused, with nothing changed, when the round is already complete
/// (`RoundAlreadyComplete`), or else when the caller is not the arena's
/// authority (`Unauthorized`).
pub fn complete_round_handler(ctx: &mut CompleteRound, now: i64) -> (res: Result<
    RoundCompleted,
    SaeaError,
>)
    ensures
        match res {
            Ok(event) => {
                &&& old(ctx).violation() is None
                &&& *final(ctx) == old(ctx).completed(now)
                &&& event == old(ctx).report()
                &&& final(ctx).round.is_complete
                &&& old(ctx).round.wf() ==> final(ctx).round.wf()
            },
            Err(e) => {
                &&& old(ctx).violation() == Some(e)
                &&& *final(ctx) == *old(ctx)
            },
        },
{
    match ctx.validate() {
        Ok(_) => {},
        Err(e) => {
            return Err(e);
        },
    }
    ctx.round.average_fitness = if ctx.round.participants > 0 {
        ctx.round.total_fitness / ctx.round.participants
    } else {
        0
    };
    ctx.round.completed_at = now;
    ctx.round.is_complete = true;
    if ctx.round.worst_fitness == u64::MAX {
        ctx.round.worst_fitness = 0;
    }
    Ok(
        RoundCompleted {
            round_number: ctx.round.round_number,
            generation: ctx.round.generation,
            participants: ctx.round.participants,
            best_fitness: ctx.round.best_fitness,
            average_fitness: ctx.round.average_fitness,
        },
    )
}

} // verus!
