//! The operations of the arena as callers see them, by name.
//!
//! Each operation hands its records to its handler. An operation that is
//! refused changes nothing and says why; one that succeeds returns what it
//! reports to observers.
use vstd::prelude::*;
use crate::address::Address;
use crate::errors::SaeaError;
use crate::events::{
    AgentPruned, AgentRegistered, AgentScored, ArenaInitialized, GenerationAdvanced,
    GenomeSubmitted, RoundCompleted,
};
use crate::fitness::{FITNESS_BOUND, MAX_GENOME_LEN};
use crate::hashing::{sha256_of, sha256_of_parts};
use crate::instructions::advance_generation::{handle_advance_generation, AdvanceGeneration};
use crate::instructions::initialize_arena::{handle_initialize_arena, InitializeArena};
use crate::instructions::prune_agent::{handle_prune_agent, PruneAgent};
use crate::instructions::register_agent::{handle_register_agent, RegisterAgent};
use crate::instructions::run_round::{
    complete_round_handler, handle_run_round, score_agent_handler, CompleteRound, RunRound,
    ScoreAgent,
};
use crate::instructions::submit_genome::{handle_submit_genome, SubmitGenome};

verus! {

/// Sets up an arena: active, in generation 1, with no rounds and no
/// agents. Refused when `max_agents` is less than 2
/// (`InvalidMaxAgents`), or else when `mutation_rate_bps` is more than
/// 10000 (`InvalidMutationRate`).
pub fn initialize_arena(
    ctx: &mut InitializeArena,
    max_agents: u64,
    min_fitness_threshold: u64,
    mutation_rate_bps: u16,
) -> (res: Result<ArenaInitialized, SaeaError>)
    ensures
        match res {
            Ok(event) => {
                &&& InitializeArena::failure(max_agents, mutation_rate_bps) is None
                &&& *final(ctx) == old(ctx).initialized(
                    max_agents,
                    min_fitness_threshold,
                    mutation_rate_bps,
                )
                &&& event == old(ctx).report(max_agents, mutation_rate_bps)
                &&& final(ctx).arena.wf()
            },
            Err(e) => {
                &&& InitializeArena::failure(max_agents, mutation_rate_bps) == Some(e)
                &&& *final(ctx) == *old(ctx)
            },
        },
{
    handle_initialize_arena(ctx, max_agents, min_fitness_threshold, mutation_rate_bps)
}

/// Registers a new agent with the genome given, at time `now`. Refused
/// when the arena is inactive (`ArenaNotActive`) or full
/// (`MaxAgentsReached`), when the genome has no accepted length
/// (`InvalidGenomeLength`), or when a count of agents cannot go any higher
/// (`ArithmeticOverflow`): the first of these that applies. On success the
/// arena counts exactly one more agent and one more active agent.
pub fn register_agent(ctx: &mut RegisterAgent, genome: Vec<u8>, now: i64) -> (res: Result<
    AgentRegistered,
    SaeaError,
>)
    ensures
        match res {
            Ok(event) => {
                &&& old(ctx).refusal(genome@) is None
                &&& *final(ctx) == old(ctx).enrolled(genome, now)
                &&& event == old(ctx).report(event.genome_hash)
                &&& event.genome_hash@ == sha256_of(genome@)
                &&& final(ctx).arena.total_agents == old(ctx).arena.total_agents + 1
                &&& final(ctx).arena.active_agents == old(ctx).arena.active_agents + 1
                &&& final(ctx).agent.wf()
                &&& old(ctx).arena.wf() ==> final(ctx).arena.wf()
            },
            Err(e) => {
                &&& old(ctx).refusal(genome@) == Some(e)
                &&& *final(ctx) == *old(ctx)
            },
        },
{
    handle_register_agent(ctx, genome, now)
}

/// Replaces an agent's genome and records its lineage. Refused when the
/// arena is inactive (`ArenaNotActive`), when the caller does not own the
/// agent (`Unauthorized`), when the agent is inactive (`AgentNotActive`),
/// when the new genome has no accepted length (`InvalidGenomeLength`), or
/// when the agent's mutations cannot be counted any higher
/// (`ArithmeticOverflow`): the first of these that applies.
pub fn submit_genome(
    ctx: &mut SubmitGenome,
    new_genome: Vec<u8>,
    parent_key: Address,
) -> (res: Result<GenomeSubmitted, SaeaError>)
    ensures
        match res {
            Ok(event) => {
                &&& old(ctx).refusal(new_genome@) is None
                &&& *final(ctx) == old(ctx).replaced(
                    new_genome,
                    parent_key,
                    final(ctx).agent.parent_genome_hash,
                )
                &&& final(ctx).agent.parent_genome_hash@ == sha256_of(old(ctx).agent.genome@)
                &&& event == old(ctx).report(parent_key, event.genome_hash)
                &&& event.genome_hash@ == sha256_of(new_genome@)
                &&& final(ctx).agent.wf()
            },
            Err(e) => {
                &&& old(ctx).refusal(new_genome@) == Some(e)
                &&& *final(ctx) == *old(ctx)
            },
        },
{
    handle_submit_genome(ctx, new_genome, parent_key)
}

/// Opens the arena's next round at time `now`. Refused when the arena is
/// inactive (`ArenaNotActive`), when the caller is not the arena's
/// authority (`Unauthorized`), or when the arena's rounds cannot be
/// counted any higher (`ArithmeticOverflow`): the first of these that
/// applies.
pub fn run_round(ctx: &mut RunRound, now: i64) -> (res: Result<(), SaeaError>)
    ensures
        match res {
            Ok(_) => {
                &&& old(ctx).refusal() is None
                &&& *final(ctx) == old(ctx).opened(final(ctx).round.seed, now)
                &&& final(ctx).round.seed@ == sha256_of_parts(old(ctx).seed_input(now))
                &&& final(ctx).round.round_number == old(ctx).arena.current_round + 1
                &&& final(ctx).round.wf()
                &&& old(ctx).arena.wf() ==> final(ctx).arena.wf()
            },
            Err(e) => {
                &&& old(ctx).refusal() == Some(e)
                &&& *final(ctx) == *old(ctx)
            },
        },
{
    handle_run_round(ctx, now)
}

/// Scores an agent in a round. Refused when the round is complete
/// (`RoundAlreadyComplete`), when the agent is inactive
/// (`AgentNotActive`), when the agent's last round is this round or a
/// later one (`AlreadyParticipated`), when the caller is not the arena's
/// authority (`Unauthorized`), or when a count or a total cannot take the
/// score (`ArithmeticOverflow`): the first of these that applies. On
/// success the agent's last round is this round, which is later than the
/// one it had.
pub fn score_agent(ctx: &mut ScoreAgent) -> (res: Result<AgentScored, SaeaError>)
    requires
        old(ctx).agent.genome@.len() <= MAX_GENOME_LEN,
    ensures
        0 <= old(ctx).earned() <= FITNESS_BOUND,
        match res {
            Ok(event) => {
                &&& old(ctx).refusal(old(ctx).earned() as u64) is None
                &&& *final(ctx) == old(ctx).recorded(old(ctx).earned() as u64)
                &&& event == old(ctx).report(old(ctx).earned() as u64, event.genome_hash)
                &&& event.genome_hash@ == sha256_of(old(ctx).agent.genome@)
                &&& final(ctx).agent.last_round > old(ctx).agent.last_round
                &&& old(ctx).round.wf() ==> final(ctx).round.wf()
                &&& old(ctx).agent.wf() ==> final(ctx).agent.wf()
            },
            Err(e) => {
                &&& old(ctx).refusal(old(ctx).earned() as u64) == Some(e)
                &&& *final(ctx) == *old(ctx)
            },
        },
{
    score_agent_handler(ctx)
}

/// Closes a round at time `now`. Refused when the round is already
/// complete (`RoundAlreadyComplete`), or else when the caller is not the
/// arena's authority (`Unauthorized`). A round in which nobody took part
/// is closed like any other.
pub fn complete_round(ctx: &mut CompleteRound, now: i64) -> (res: Result<RoundCompleted, SaeaError>)
    ensures
        match res {
            Ok(event) => {
                &&& old(ctx).violation() is None
                &&& *final(ctx) == old(ctx).completed(now)
                &&& event == old(ctx).report()
                &&& old(ctx).round.wf() ==> final(ctx).round.wf()
            },
            Err(e) => {
                &&& old(ctx).violation() == Some(e)
                &&& *final(ctx) == *old(ctx)
            },
        },
{
    complete_round_handler(ctx, now)
}

/// Removes an agent from the competition for good. Refused when the arena
/// is inactive (`ArenaNotActive`), when the agent is inactive
/// (`AgentNotActive`), when its fitness is not below the arena's threshold
/// (`AgentAboveThreshold`), when the caller is not the arena's authority
/// (`Unauthorized`), or when the arena counts no active agent
/// (`ArithmeticOverflow`): the first of these that applies. On success
/// the arena counts exactly one active agent fewer.
pub fn prune_agent(ctx: &mut PruneAgent) -> (res: Result<AgentPruned, SaeaError>)
    ensures
        match res {
            Ok(event) => {
                &&& old(ctx).refusal() is None
                &&& *final(ctx) == old(ctx).pruned()
                &&& event == old(ctx).report()
                &&& final(ctx).arena.active_agents == old(ctx).arena.active_agents - 1
                &&& !final(ctx).agent.is_active
                &&& old(ctx).arena.wf() ==> final(ctx).arena.wf()
            },
            Err(e) => {
                &&& old(ctx).refusal() == Some(e)
                &&& *final(ctx) == *old(ctx)
            },
        },
{
    handle_prune_agent(ctx)
}

/// Moves the arena on to its next generation. Refused when the arena is
/// inactive (`ArenaNotActive`), when the caller is not the arena's
/// authority (`Unauthorized`), or when the generation cannot be counted
/// any higher (`ArithmeticOverflow`): the first of these that applies.
/// The generation goes up by exactly 1 on success and never goes down.
pub fn advance_generation(ctx: &mut AdvanceGeneration) -> (res: Result<GenerationAdvanced, SaeaError>)
    ensures
        final(ctx).arena.current_generation >= old(ctx).arena.current_generation,
        match res {
            Ok(event) => {
                &&& old(ctx).refusal() is None
                &&& *final(ctx) == old(ctx).advanced()
                &&& event == old(ctx).report()
                &&& final(ctx).arena.current_generation == old(ctx).arena.current_generation + 1
                &&& old(ctx).arena.wf() ==> final(ctx).arena.wf()
            },
            Err(e) => {
                &&& old(ctx).refusal() == Some(e)
                &&& *final(ctx) == *old(ctx)
            },
        },
{
    handle_advance_generation(ctx)
}

} // verus!
