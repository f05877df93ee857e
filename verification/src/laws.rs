//! What holds of the operations taken together.
//!
//! Each statement here speaks of the records before and after operations,
//! in the terms in which the operations' own contracts speak of them:
//! `refusal` says why an operation is refused (or `None` when it goes
//! through), and `enrolled`, `replaced`, `opened`, `recorded`,
//! `completed`, `pruned` and `advanced` give the records that a
//! successful operation leaves.
use vstd::prelude::*;
use crate::address::Address;
use crate::errors::SaeaError;
use crate::instructions::advance_generation::AdvanceGeneration;
use crate::instructions::prune_agent::PruneAgent;
use crate::instructions::register_agent::RegisterAgent;
use crate::instructions::run_round::{CompleteRound, RunRound, ScoreAgent};
use crate::instructions::submit_genome::SubmitGenome;
use crate::state::agent::valid_genome;
use crate::state::round::{lemma_mean_between, lemma_total_stays_between};
use crate::state::{Arena, Round};

verus! {

/// An agent is scored at most once in a round: once a score has been
/// entered for an agent in a round, scoring that agent in that round is
/// refused with `AlreadyParticipated`, whoever asks and whatever the score
/// would be.
pub proof fn lemma_scored_once_per_round(first: ScoreAgent, score: u64, second: ScoreAgent, again: u64)
    requires
        first.violation() is None,
        second.agent == first.recorded(score).agent,
        second.round == first.recorded(score).round,
    ensures
        second.refusal(again) == Some(SaeaError::AlreadyParticipated),
{
}

/// A pruned agent is not scored: in an open round, scoring it is refused
/// with `AgentNotActive`.
pub proof fn lemma_pruned_agent_not_scored(pruning: PruneAgent, scoring: ScoreAgent, score: u64)
    requires
        scoring.agent == pruning.pruned().agent,
        !scoring.round.is_complete,
    ensures
        scoring.refusal(score) == Some(SaeaError::AgentNotActive),
{
}

/// A round is closed once: closing a round that has been closed is
/// refused with `RoundAlreadyComplete`, whoever asks.
pub proof fn lemma_round_closes_once(first: CompleteRound, now: i64, second: CompleteRound)
    requires
        second.round == first.completed(now).round,
    ensures
        second.violation() == Some(SaeaError::RoundAlreadyComplete),
{
}

/// Nobody is scored in a closed round: scoring in it is refused with
/// `RoundAlreadyComplete`, whoever asks and whichever agent it is.
pub proof fn lemma_closed_round_takes_no_score(
    closing: CompleteRound,
    now: i64,
    scoring: ScoreAgent,
    score: u64,
)
    requires
        scoring.round == closing.completed(now).round,
    ensures
        scoring.refusal(score) == Some(SaeaError::RoundAlreadyComplete),
{
}

/// A round in which nobody took part can be closed by the arena's
/// authority, and is then left with an average and a worst score of 0.
pub proof fn lemma_empty_round_closes(ctx: CompleteRound, now: i64)
    requires
        ctx.round.wf(),
        ctx.round.participants == 0,
        !ctx.round.is_complete,
        ctx.authority == ctx.arena.authority,
    ensures
        ctx.violation() is None,
        ctx.completed(now).round.is_complete,
        ctx.completed(now).round.average_fitness == 0,
        ctx.completed(now).round.worst_fitness == 0,
{
}

/// A round that has just been opened is one in which nobody took part, so
/// that it can be closed at once.
pub proof fn lemma_new_round_is_empty(ctx: RunRound, seed: [u8; 32], now: i64)
    requires
        ctx.refusal() is None,
    ensures
        ctx.opened(seed, now).round.wf(),
        ctx.opened(seed, now).round.participants == 0,
        !ctx.opened(seed, now).round.is_complete,
        ctx.opened(seed, now).round.round_number > ctx.arena.current_round,
        ctx.opened(seed, now).arena.current_round == ctx.opened(seed, now).round.round_number,
{
}

/// Scoring and closing leave a round's identity alone: where it belongs,
/// its number, its generation, its seed and its opening time stay as they
/// were when it was opened.
pub proof fn lemma_round_identity_kept(scoring: ScoreAgent, score: u64, closing: CompleteRound, now: i64)
    ensures
        same_round(scoring.round, scoring.recorded(score).round),
        same_round(closing.round, closing.completed(now).round),
{
}

/// Whether two states of a round record agree in everything that is fixed
/// when a round is opened.
pub open spec fn same_round(before: Round, after: Round) -> bool {
    &&& after.arena == before.arena
    &&& after.round_number == before.round_number
    &&& after.generation == before.generation
    &&& after.seed == before.seed
    &&& after.started_at == before.started_at
    &&& after.bump == before.bump
}

/// A full arena takes no new agent: while the arena is active and counts
/// as many active agents as it holds at most, registration is refused with
/// `MaxAgentsReached`, whatever the genome.
pub proof fn lemma_full_arena_refuses(ctx: RegisterAgent, genome: Seq<u8>)
    requires
        ctx.arena.is_active,
        ctx.arena.active_agents == ctx.arena.max_agents,
    ensures
        ctx.refusal(genome) == Some(SaeaError::MaxAgentsReached),
{
}

/// An active arena with room takes a new agent with an accepted genome,
/// and then counts exactly one more agent and one more active agent.
pub proof fn lemma_registration_counts_one(ctx: RegisterAgent, genome: Vec<u8>, now: i64)
    requires
        ctx.arena.is_active,
        ctx.arena.active_agents < ctx.arena.max_agents,
        valid_genome(genome@),
        ctx.arena.total_agents < u64::MAX,
    ensures
        ctx.refusal(genome@) is None,
        ctx.enrolled(genome, now).arena.total_agents == ctx.arena.total_agents + 1,
        ctx.enrolled(genome, now).arena.active_agents == ctx.arena.active_agents + 1,
        ctx.enrolled(genome, now).agent.is_active,
        ctx.enrolled(genome, now).agent.last_round == 0,
{
}

/// An agent at or above the threshold stays: while the arena and the
/// agent are active, pruning an agent whose fitness is not below the
/// arena's threshold is refused with `AgentAboveThreshold`, whoever asks.
pub proof fn lemma_fit_agent_not_pruned(ctx: PruneAgent)
    requires
        ctx.arena.is_active,
        ctx.agent.is_active,
        ctx.agent.fitness >= ctx.arena.min_fitness_threshold,
    ensures
        ctx.refusal() == Some(SaeaError::AgentAboveThreshold),
{
}

/// Pruning an agent that may be pruned takes exactly one off the arena's
/// count of active agents, as long as that count is not 0.
pub proof fn lemma_pruning_counts_one(ctx: PruneAgent)
    requires
        ctx.violation() is None,
        ctx.arena.active_agents > 0,
    ensures
        ctx.refusal() is None,
        ctx.pruned().arena.active_agents == ctx.arena.active_agents - 1,
        ctx.pruned().arena.total_agents == ctx.arena.total_agents,
        !ctx.pruned().agent.is_active,
{
}

/// An agent is pruned once: in an active arena, pruning an agent that
/// has been pruned is refused with `AgentNotActive`, whoever asks.
pub proof fn lemma_pruned_once(first: PruneAgent, second: PruneAgent)
    requires
        second.agent == first.pruned().agent,
        second.arena.is_active,
    ensures
        second.refusal() == Some(SaeaError::AgentNotActive),
{
}

/// An inactive agent stays inactive. Scoring, resubmission and pruning are
/// the operations that change an agent's record: each is refused for an
/// inactive agent, and none of them makes an agent active.
pub proof fn lemma_inactive_agent_stays_inactive(
    scoring: ScoreAgent,
    score: u64,
    submitting: SubmitGenome,
    new_genome: Vec<u8>,
    parent_key: Address,
    old_genome_hash: [u8; 32],
    pruning: PruneAgent,
)
    ensures
        !scoring.agent.is_active ==> scoring.refusal(score) is Some,
        !submitting.agent.is_active ==> submitting.refusal(new_genome@) is Some,
        !pruning.agent.is_active ==> pruning.refusal() is Some,
        scoring.recorded(score).agent.is_active == scoring.agent.is_active,
        submitting.replaced(new_genome, parent_key, old_genome_hash).agent.is_active
            == submitting.agent.is_active,
        !pruning.pruned().agent.is_active,
{
}

/// An agent's last round only moves forward: a score that goes through
/// leaves the agent with a later last round than it had.
pub proof fn lemma_last_round_moves_forward(ctx: ScoreAgent, score: u64)
    requires
        ctx.refusal(score) is None,
    ensures
        ctx.recorded(score).agent.last_round > ctx.agent.last_round,
        ctx.recorded(score).agent.last_round == ctx.round.round_number,
{
}

/// A closed round's average lies between its worst and its best score,
/// as soon as somebody took part in it.
pub proof fn lemma_average_between_worst_and_best(ctx: CompleteRound, now: i64)
    requires
        ctx.round.wf(),
        !ctx.round.is_complete,
        ctx.round.participants > 0,
    ensures
        ctx.completed(now).round.worst_fitness <= ctx.completed(now).round.average_fitness
            <= ctx.completed(now).round.best_fitness,
{
    lemma_mean_between(
        ctx.round.worst_fitness as int,
        ctx.round.best_fitness as int,
        ctx.round.participants as int,
        ctx.round.total_fitness as int,
    );
}

/// An arena that is in order stays in order: whatever operation goes
/// through, the arena it leaves has its configuration in range, a
/// generation of at least 1, and no more active agents than it has room
/// for or than ever joined. Registration, opening a round, pruning and
/// advancing are the operations that change an arena.
pub proof fn lemma_arena_stays_in_order(
    registering: RegisterAgent,
    genome: Vec<u8>,
    opening: RunRound,
    seed: [u8; 32],
    pruning: PruneAgent,
    advancing: AdvanceGeneration,
    now: i64,
)
    ensures
        registering.arena.wf() && registering.refusal(genome@) is None ==> registering.enrolled(
            genome,
            now,
        ).arena.wf(),
        opening.arena.wf() && opening.refusal() is None ==> opening.opened(seed, now).arena.wf(),
        pruning.arena.wf() && pruning.refusal() is None ==> pruning.pruned().arena.wf(),
        advancing.arena.wf() && advancing.refusal() is None ==> advancing.advanced().arena.wf(),
{
}

/// An arena stays as active as it is, and keeps its authority and its
/// configuration: no operation but setting it up touches them.
pub proof fn lemma_arena_keeps_its_configuration(
    registering: RegisterAgent,
    genome: Vec<u8>,
    opening: RunRound,
    seed: [u8; 32],
    pruning: PruneAgent,
    advancing: AdvanceGeneration,
    now: i64,
)
    ensures
        same_configuration(registering.arena, registering.enrolled(genome, now).arena),
        same_configuration(opening.arena, opening.opened(seed, now).arena),
        same_configuration(pruning.arena, pruning.pruned().arena),
        same_configuration(advancing.arena, advancing.advanced().arena),
{
}

/// Whether two states of an arena record agree in everything that is
/// fixed when an arena is set up.
pub open spec fn same_configuration(before: Arena, after: Arena) -> bool {
    &&& after.authority == before.authority
    &&& after.max_agents == before.max_agents
    &&& after.min_fitness_threshold == before.min_fitness_threshold
    &&& after.mutation_rate_bps == before.mutation_rate_bps
    &&& after.is_active == before.is_active
    &&& after.reward_pool == before.reward_pool
    &&& after.bump == before.bump
}

/// A round that is in order stays in order: a round is in order when it is
/// opened, and scoring and closing leave it so.
pub proof fn lemma_round_stays_in_order(
    opening: RunRound,
    seed: [u8; 32],
    scoring: ScoreAgent,
    score: u64,
    closing: CompleteRound,
    now: i64,
)
    ensures
        opening.refusal() is None ==> opening.opened(seed, now).round.wf(),
        scoring.round.wf() && scoring.refusal(score) is None ==> scoring.recorded(score).round.wf(),
        closing.round.wf() && closing.violation() is None ==> closing.completed(now).round.wf(),
{
    let before = scoring.round;
    let after = scoring.recorded(score).round;
    if before.wf() && scoring.refusal(score) is None {
        assert(scoring.failure(score) is None);
        if before.participants > 0 {
            lemma_total_stays_between(
                before.worst_fitness as int,
                before.best_fitness as int,
                before.participants as int,
                before.total_fitness as int,
                score as int,
                after.worst_fitness as int,
                after.best_fitness as int,
            );
        } else {
            assert(after.worst_fitness * after.participants == score) by (nonlinear_arith)
                requires
                    after.worst_fitness == score,
                    after.participants == 1,
            ;
        }
    }
}

/// An agent's genome always has an accepted length: it has one when the
/// agent is registered and after every resubmission, and no other
/// operation touches it.
pub proof fn lemma_genome_stays_valid(
    registering: RegisterAgent,
    genome: Vec<u8>,
    submitting: SubmitGenome,
    new_genome: Vec<u8>,
    parent_key: Address,
    old_genome_hash: [u8; 32],
    scoring: ScoreAgent,
    score: u64,
    pruning: PruneAgent,
    now: i64,
)
    ensures
        registering.refusal(genome@) is None ==> registering.enrolled(genome, now).agent.wf(),
        submitting.refusal(new_genome@) is None ==> submitting.replaced(
            new_genome,
            parent_key,
            old_genome_hash,
        ).agent.wf(),
        scoring.recorded(score).agent.genome == scoring.agent.genome,
        pruning.pruned().agent.genome == pruning.agent.genome,
{
}

/// Advancing goes through exactly when the arena is active, its authority
/// asks and the generation is not at its highest count, and the generation
/// is then exactly 1 higher.
pub proof fn lemma_generation_goes_up_by_one(ctx: AdvanceGeneration)
    ensures
        ctx.refusal() is None <==> ctx.arena.is_active && ctx.authority == ctx.arena.authority
            && ctx.arena.current_generation < u64::MAX,
        ctx.refusal() is None ==> ctx.advanced().arena.current_generation
            == ctx.arena.current_generation + 1,
{
}

/// The generation never goes down: advancing raises it, and the other
/// operations that change an arena leave it as it is.
pub proof fn lemma_generation_never_goes_down(
    registering: RegisterAgent,
    genome: Vec<u8>,
    opening: RunRound,
    seed: [u8; 32],
    pruning: PruneAgent,
    advancing: AdvanceGeneration,
    now: i64,
)
    ensures
        registering.enrolled(genome, now).arena.current_generation
            == registering.arena.current_generation,
        opening.opened(seed, now).arena.current_generation == opening.arena.current_generation,
        pruning.pruned().arena.current_generation == pruning.arena.current_generation,
        advancing.refusal() is None ==> advancing.advanced().arena.current_generation
            > advancing.arena.current_generation,
{
}

} // verus!
