use saea::address::Address;
use saea::errors::SaeaError;
use saea::events::{AgentPruned, AgentRegistered, ArenaInitialized, GenerationAdvanced, GenomeSubmitted};
use saea::instructions::{
    handle_advance_generation, handle_initialize_arena, handle_prune_agent, handle_register_agent,
    handle_submit_genome, AdvanceGeneration, InitializeArena, PruneAgent, RegisterAgent,
    SubmitGenome,
};
use saea::program::{
    advance_generation, initialize_arena, prune_agent, register_agent, submit_genome,
};
use saea::state::{AgentAccount, Arena};

const SHA256_ABC: [u8; 32] = [
    186, 120, 22, 191, 143, 1, 207, 234, 65, 65, 64, 222, 93, 174, 34, 35, 176, 3, 97, 163, 150,
    23, 122, 156, 180, 16, 255, 97, 242, 0, 21, 173,
];

const SHA256_1_2_3: [u8; 32] = [
    3, 144, 88, 198, 242, 192, 203, 73, 44, 83, 59, 10, 77, 20, 239, 119, 204, 15, 120, 171, 204,
    206, 213, 40, 125, 132, 161, 162, 1, 28, 251, 129,
];

const SHA256_9_8_7_6: [u8; 32] = [
    99, 217, 135, 209, 198, 214, 151, 81, 193, 114, 151, 244, 16, 245, 179, 84, 122, 101, 208,
    150, 168, 153, 59, 53, 188, 180, 249, 202, 208, 84, 241, 118,
];

fn who(tag: u8) -> Address {
    Address { bytes: [tag; 32] }
}

fn blank_arena() -> Arena {
    Arena {
        authority: Address::zero(),
        current_round: 0,
        current_generation: 0,
        total_agents: 0,
        active_agents: 0,
        max_agents: 0,
        min_fitness_threshold: 0,
        mutation_rate_bps: 0,
        is_active: false,
        reward_pool: 0,
        bump: 0,
    }
}

fn blank_agent() -> AgentAccount {
    AgentAccount {
        owner: Address::zero(),
        genome: Vec::new(),
        fitness: 0,
        generation: 0,
        parent: Address::zero(),
        parent_genome_hash: [0u8; 32],
        mutation_count: 0,
        rounds_participated: 0,
        total_fitness: 0,
        is_active: false,
        registered_at: 0,
        last_round: 0,
        bump: 0,
    }
}

fn arena_with(max_agents: u64, threshold: u64) -> Arena {
    let mut ctx = InitializeArena { arena: blank_arena(), arena_bump: 254, authority: who(1) };
    initialize_arena(&mut ctx, max_agents, threshold, 500).unwrap();
    ctx.arena
}

fn registration(arena: Arena, owner: Address, key: Address) -> RegisterAgent {
    RegisterAgent { arena, agent: blank_agent(), agent_key: key, agent_bump: 250, owner }
}

fn registered_agent(arena: &mut Arena, owner: Address, key: Address, genome: Vec<u8>) -> AgentAccount {
    let mut ctx = registration(*arena, owner, key);
    register_agent(&mut ctx, genome, 1_000).unwrap();
    *arena = ctx.arena;
    ctx.agent
}

#[test]
fn initialize_sets_every_field() {
    let mut ctx = InitializeArena { arena: blank_arena(), arena_bump: 254, authority: who(1) };
    let event = initialize_arena(&mut ctx, 10, 4000, 250).unwrap();
    assert_eq!(
        ctx.arena,
        Arena {
            authority: who(1),
            current_round: 0,
            current_generation: 1,
            total_agents: 0,
            active_agents: 0,
            max_agents: 10,
            min_fitness_threshold: 4000,
            mutation_rate_bps: 250,
            is_active: true,
            reward_pool: 0,
            bump: 254,
        }
    );
    assert_eq!(event, ArenaInitialized { authority: who(1), max_agents: 10, mutation_rate_bps: 250 });
    assert_eq!(ctx.authority, who(1));
    assert_eq!(ctx.arena_bump, 254);
}

#[test]
fn initialize_overwrites_whatever_the_record_held() {
    let mut stale = blank_arena();
    stale.current_round = 9;
    stale.total_agents = 5;
    stale.active_agents = 4;
    stale.reward_pool = 77;
    let mut ctx = InitializeArena { arena: stale, arena_bump: 3, authority: who(8) };
    handle_initialize_arena(&mut ctx, 2, 0, 0).unwrap();
    assert_eq!(ctx.arena.current_round, 0);
    assert_eq!(ctx.arena.current_generation, 1);
    assert_eq!(ctx.arena.total_agents, 0);
    assert_eq!(ctx.arena.active_agents, 0);
    assert_eq!(ctx.arena.reward_pool, 0);
    assert_eq!(ctx.arena.max_agents, 2);
    assert_eq!(ctx.arena.bump, 3);
    assert!(ctx.arena.is_active);
}

#[test]
fn initialize_refuses_fewer_than_two_agents() {
    for max_agents in [0u64, 1u64] {
        let mut ctx = InitializeArena { arena: blank_arena(), arena_bump: 254, authority: who(1) };
        let before = ctx;
        assert_eq!(initialize_arena(&mut ctx, max_agents, 10, 100), Err(SaeaError::InvalidMaxAgents));
        assert_eq!(ctx, before);
    }
}

#[test]
fn initialize_refuses_mutation_rate_above_10000() {
    let mut ctx = InitializeArena { arena: blank_arena(), arena_bump: 254, authority: who(1) };
    let before = ctx;
    assert_eq!(initialize_arena(&mut ctx, 2, 10, 10_001), Err(SaeaError::InvalidMutationRate));
    assert_eq!(ctx, before);
    assert_eq!(initialize_arena(&mut ctx, 2, 10, u16::MAX), Err(SaeaError::InvalidMutationRate));
    assert_eq!(ctx, before);
}

#[test]
fn initialize_accepts_the_edges_of_the_ranges() {
    let mut ctx = InitializeArena { arena: blank_arena(), arena_bump: 254, authority: who(1) };
    assert!(initialize_arena(&mut ctx, 2, 0, 10_000).is_ok());
    assert_eq!(ctx.arena.mutation_rate_bps, 10_000);
    let mut ctx = InitializeArena { arena: blank_arena(), arena_bump: 254, authority: who(1) };
    assert!(initialize_arena(&mut ctx, u64::MAX, u64::MAX, 0).is_ok());
    assert_eq!(ctx.arena.max_agents, u64::MAX);
    assert_eq!(ctx.arena.min_fitness_threshold, u64::MAX);
}

#[test]
fn initialize_reports_max_agents_before_mutation_rate() {
    let mut ctx = InitializeArena { arena: blank_arena(), arena_bump: 254, authority: who(1) };
    assert_eq!(initialize_arena(&mut ctx, 1, 10, 20_000), Err(SaeaError::InvalidMaxAgents));
}

#[test]
fn arena_of_two_takes_two_agents_and_refuses_a_third() {
    let mut arena = arena_with(2, 100);

    let mut first = registration(arena, who(10), who(110));
    assert!(register_agent(&mut first, vec![1, 2, 3], 5).is_ok());
    assert_eq!(first.arena.active_agents, 1);
    assert_eq!(first.arena.total_agents, 1);
    arena = first.arena;

    let mut second = registration(arena, who(11), who(111));
    assert!(register_agent(&mut second, vec![4, 5, 6], 6).is_ok());
    assert_eq!(second.arena.active_agents, 2);
    assert_eq!(second.arena.total_agents, 2);
    arena = second.arena;

    let mut third = registration(arena, who(12), who(112));
    let before = third.clone();
    assert_eq!(register_agent(&mut third, vec![7, 8, 9], 7), Err(SaeaError::MaxAgentsReached));
    assert_eq!(third, before);
    assert_eq!(third.arena.active_agents, 2);
    assert_eq!(third.arena.total_agents, 2);
}

#[test]
fn register_fills_in_the_agent() {
    let mut arena = arena_with(5, 100);
    arena.current_generation = 4;
    arena.total_agents = 7;
    arena.active_agents = 3;
    let mut ctx = registration(arena, who(10), who(110));
    let event = register_agent(&mut ctx, vec![1, 2, 3], 1_700_000_000).unwrap();
    assert_eq!(
        ctx.agent,
        AgentAccount {
            owner: who(10),
            genome: vec![1, 2, 3],
            fitness: 0,
            generation: 4,
            parent: Address::zero(),
            parent_genome_hash: [0u8; 32],
            mutation_count: 0,
            rounds_participated: 0,
            total_fitness: 0,
            is_active: true,
            registered_at: 1_700_000_000,
            last_round: 0,
            bump: 250,
        }
    );
    assert_eq!(ctx.arena.total_agents, 8);
    assert_eq!(ctx.arena.active_agents, 4);
    assert_eq!(ctx.arena.current_generation, 4);
    assert_eq!(
        event,
        AgentRegistered { agent: who(110), owner: who(10), genome_hash: SHA256_1_2_3, generation: 4 }
    );
}

#[test]
fn register_reports_the_digest_of_the_genome() {
    let arena = arena_with(5, 100);
    let mut ctx = registration(arena, who(10), who(110));
    let event = register_agent(&mut ctx, b"abc".to_vec(), 0).unwrap();
    assert_eq!(event.genome_hash, SHA256_ABC);
    assert_ne!(&event.genome_hash[..3], &b"abc"[..]);
}

#[test]
fn register_overwrites_whatever_the_record_held() {
    let arena = arena_with(5, 100);
    let mut ctx = registration(arena, who(10), who(110));
    ctx.agent.fitness = 99;
    ctx.agent.last_round = 12;
    ctx.agent.mutation_count = 3;
    ctx.agent.parent = who(200);
    ctx.agent.parent_genome_hash = [9u8; 32];
    handle_register_agent(&mut ctx, vec![5], -3).unwrap();
    assert_eq!(ctx.agent.fitness, 0);
    assert_eq!(ctx.agent.last_round, 0);
    assert_eq!(ctx.agent.mutation_count, 0);
    assert_eq!(ctx.agent.parent, Address::zero());
    assert_eq!(ctx.agent.parent_genome_hash, [0u8; 32]);
    assert_eq!(ctx.agent.registered_at, -3);
    assert!(ctx.agent.is_active);
}

#[test]
fn register_refuses_genomes_of_bad_length() {
    let arena = arena_with(5, 100);
    for genome in [Vec::new(), vec![1u8; 33], vec![0u8; 100]] {
        let mut ctx = registration(arena, who(10), who(110));
        let before = ctx.clone();
        assert_eq!(register_agent(&mut ctx, genome, 1), Err(SaeaError::InvalidGenomeLength));
        assert_eq!(ctx, before);
    }
}

#[test]
fn register_accepts_genomes_of_length_1_and_32() {
    let arena = arena_with(5, 100);
    let mut ctx = registration(arena, who(10), who(110));
    assert!(register_agent(&mut ctx, vec![9], 1).is_ok());
    let mut ctx = registration(arena, who(10), who(110));
    assert!(register_agent(&mut ctx, vec![9; 32], 1).is_ok());
    assert_eq!(ctx.agent.genome.len(), 32);
}

#[test]
fn register_refuses_in_an_inactive_arena() {
    let mut arena = arena_with(5, 100);
    arena.is_active = false;
    let mut ctx = registration(arena, who(10), who(110));
    let before = ctx.clone();
    assert_eq!(register_agent(&mut ctx, vec![1], 1), Err(SaeaError::ArenaNotActive));
    assert_eq!(ctx, before);
    // an inactive arena is reported before a full one and before a bad genome
    arena.active_agents = 5;
    let mut ctx = registration(arena, who(10), who(110));
    assert_eq!(register_agent(&mut ctx, Vec::new(), 1), Err(SaeaError::ArenaNotActive));
}

#[test]
fn register_reports_a_full_arena_before_a_bad_genome() {
    let mut arena = arena_with(2, 100);
    arena.active_agents = 2;
    arena.total_agents = 2;
    let mut ctx = registration(arena, who(10), who(110));
    assert_eq!(register_agent(&mut ctx, Vec::new(), 1), Err(SaeaError::MaxAgentsReached));
    // more active agents than the arena holds is refused as well
    arena.active_agents = 3;
    let mut ctx = registration(arena, who(10), who(110));
    assert_eq!(register_agent(&mut ctx, vec![1], 1), Err(SaeaError::MaxAgentsReached));
}

#[test]
fn register_refuses_when_the_total_cannot_go_higher() {
    let mut arena = arena_with(5, 100);
    arena.total_agents = u64::MAX;
    let mut ctx = registration(arena, who(10), who(110));
    let before = ctx.clone();
    assert_eq!(register_agent(&mut ctx, vec![1], 1), Err(SaeaError::ArithmeticOverflow));
    assert_eq!(ctx, before);
}

#[test]
fn enroll_refuses_when_the_active_count_cannot_go_higher() {
    let mut arena = arena_with(5, 100);
    arena.active_agents = u64::MAX;
    let mut ctx = registration(arena, who(10), who(110));
    let before = ctx.clone();
    assert_eq!(ctx.enroll(vec![1], [0u8; 32], 1), Err(SaeaError::ArithmeticOverflow));
    assert_eq!(ctx, before);
    // the operation itself finds the arena full first
    assert_eq!(handle_register_agent(&mut ctx, vec![1], 1), Err(SaeaError::MaxAgentsReached));
    assert_eq!(ctx, before);
}

#[test]
fn enroll_fills_in_the_agent_with_the_digest_given() {
    let arena = arena_with(5, 100);
    let mut ctx = registration(arena, who(10), who(110));
    let event = ctx.enroll(vec![4, 5], [8u8; 32], 77).unwrap();
    assert_eq!(
        event,
        AgentRegistered { agent: who(110), owner: who(10), genome_hash: [8u8; 32], generation: 1 }
    );
    assert_eq!(ctx.agent.genome, vec![4, 5]);
    assert_eq!(ctx.agent.registered_at, 77);
    assert_eq!(ctx.arena.total_agents, 1);
    assert_eq!(ctx.arena.active_agents, 1);
    assert_eq!(ctx.clone().enroll(Vec::new(), [8u8; 32], 77), Err(SaeaError::InvalidGenomeLength));
}

#[test]
fn replace_takes_the_digests_given() {
    let mut arena = arena_with(5, 100);
    let agent = registered_agent(&mut arena, who(10), who(110), vec![1]);
    let mut ctx = SubmitGenome { arena, agent, agent_key: who(110), owner: who(10) };
    let event = ctx.replace(vec![2, 3], who(50), [1u8; 32], [2u8; 32]).unwrap();
    assert_eq!(ctx.agent.parent_genome_hash, [1u8; 32]);
    assert_eq!(ctx.agent.genome, vec![2, 3]);
    assert_eq!(ctx.agent.parent, who(50));
    assert_eq!(ctx.agent.mutation_count, 1);
    assert_eq!(
        event,
        GenomeSubmitted {
            agent: who(110),
            genome_hash: [2u8; 32],
            generation: 1,
            mutation_count: 1,
            parent: who(50),
        }
    );
}

#[test]
fn register_after_prune_reuses_the_room_but_not_the_number() {
    let mut arena = arena_with(2, 100);
    let first = registered_agent(&mut arena, who(10), who(110), vec![1]);
    let _second = registered_agent(&mut arena, who(11), who(111), vec![2]);
    let mut pruning = PruneAgent { arena, agent: first, agent_key: who(110), authority: who(1) };
    prune_agent(&mut pruning).unwrap();
    arena = pruning.arena;
    assert_eq!(arena.active_agents, 1);
    assert_eq!(arena.total_agents, 2);
    let mut ctx = registration(arena, who(12), who(112));
    assert!(register_agent(&mut ctx, vec![3], 9).is_ok());
    assert_eq!(ctx.arena.active_agents, 2);
    assert_eq!(ctx.arena.total_agents, 3);
}

#[test]
fn submit_replaces_the_genome_and_records_lineage() {
    let mut arena = arena_with(5, 100);
    let mut agent = registered_agent(&mut arena, who(10), who(110), vec![1, 2, 3]);
    agent.fitness = 321;
    agent.rounds_participated = 2;
    agent.total_fitness = 600;
    agent.last_round = 4;
    arena.current_generation = 6;
    let mut ctx = SubmitGenome { arena, agent: agent.clone(), agent_key: who(110), owner: who(10) };
    let event = submit_genome(&mut ctx, vec![9, 8, 7, 6], who(77)).unwrap();
    assert_eq!(
        ctx.agent,
        AgentAccount {
            genome: vec![9, 8, 7, 6],
            parent: who(77),
            parent_genome_hash: SHA256_1_2_3,
            mutation_count: 1,
            generation: 6,
            ..agent
        }
    );
    assert_eq!(
        event,
        GenomeSubmitted {
            agent: who(110),
            genome_hash: SHA256_9_8_7_6,
            generation: 6,
            mutation_count: 1,
            parent: who(77),
        }
    );
    assert_eq!(ctx.arena, arena);
}

#[test]
fn submit_twice_chains_the_digests() {
    let mut arena = arena_with(5, 100);
    let agent = registered_agent(&mut arena, who(10), who(110), b"abc".to_vec());
    let mut ctx = SubmitGenome { arena, agent, agent_key: who(110), owner: who(10) };
    submit_genome(&mut ctx, vec![1, 2, 3], who(1)).unwrap();
    assert_eq!(ctx.agent.parent_genome_hash, SHA256_ABC);
    let event = submit_genome(&mut ctx, vec![9, 8, 7, 6], who(2)).unwrap();
    assert_eq!(ctx.agent.parent_genome_hash, SHA256_1_2_3);
    assert_eq!(event.genome_hash, SHA256_9_8_7_6);
    assert_eq!(ctx.agent.mutation_count, 2);
    assert_eq!(event.mutation_count, 2);
    assert_eq!(ctx.agent.parent, who(2));
}

#[test]
fn submit_takes_any_parent_as_given() {
    let mut arena = arena_with(5, 100);
    let agent = registered_agent(&mut arena, who(10), who(110), vec![1]);
    let mut ctx = SubmitGenome { arena, agent, agent_key: who(110), owner: who(10) };
    // the agent may even name itself or nobody
    assert!(submit_genome(&mut ctx, vec![2], who(110)).is_ok());
    assert_eq!(ctx.agent.parent, who(110));
    assert!(submit_genome(&mut ctx, vec![3], Address::zero()).is_ok());
    assert_eq!(ctx.agent.parent, Address::zero());
}

#[test]
fn submit_refuses_a_stranger() {
    let mut arena = arena_with(5, 100);
    let agent = registered_agent(&mut arena, who(10), who(110), vec![1]);
    let mut ctx = SubmitGenome { arena, agent, agent_key: who(110), owner: who(11) };
    let before = ctx.clone();
    assert_eq!(submit_genome(&mut ctx, vec![2], who(0)), Err(SaeaError::Unauthorized));
    assert_eq!(ctx, before);
    // one differing byte is enough
    let mut close = who(10);
    close.bytes[31] = 11;
    let mut ctx = SubmitGenome { owner: close, ..before.clone() };
    assert_eq!(submit_genome(&mut ctx, vec![2], who(0)), Err(SaeaError::Unauthorized));
}

#[test]
fn submit_refuses_in_order() {
    let mut arena = arena_with(5, 100);
    let mut agent = registered_agent(&mut arena, who(10), who(110), vec![1]);
    agent.is_active = false;
    // inactive agent, right owner
    let mut ctx = SubmitGenome { arena, agent: agent.clone(), agent_key: who(110), owner: who(10) };
    let before = ctx.clone();
    assert_eq!(submit_genome(&mut ctx, vec![2], who(0)), Err(SaeaError::AgentNotActive));
    assert_eq!(ctx, before);
    // a stranger is reported before an inactive agent
    let mut ctx = SubmitGenome { arena, agent: agent.clone(), agent_key: who(110), owner: who(11) };
    assert_eq!(submit_genome(&mut ctx, vec![2], who(0)), Err(SaeaError::Unauthorized));
    // an inactive arena is reported before both
    let mut asleep = arena;
    asleep.is_active = false;
    let mut ctx = SubmitGenome { arena: asleep, agent, agent_key: who(110), owner: who(11) };
    assert_eq!(submit_genome(&mut ctx, Vec::new(), who(0)), Err(SaeaError::ArenaNotActive));
}

#[test]
fn submit_refuses_genomes_of_bad_length() {
    let mut arena = arena_with(5, 100);
    let agent = registered_agent(&mut arena, who(10), who(110), vec![1]);
    for genome in [Vec::new(), vec![1u8; 33]] {
        let mut ctx = SubmitGenome { arena, agent: agent.clone(), agent_key: who(110), owner: who(10) };
        let before = ctx.clone();
        assert_eq!(submit_genome(&mut ctx, genome, who(0)), Err(SaeaError::InvalidGenomeLength));
        assert_eq!(ctx, before);
    }
    let mut ctx = SubmitGenome { arena, agent, agent_key: who(110), owner: who(10) };
    assert!(submit_genome(&mut ctx, vec![1u8; 32], who(0)).is_ok());
}

#[test]
fn submit_refuses_when_mutations_cannot_go_higher() {
    let mut arena = arena_with(5, 100);
    let mut agent = registered_agent(&mut arena, who(10), who(110), vec![1]);
    agent.mutation_count = u64::MAX;
    let mut ctx = SubmitGenome { arena, agent, agent_key: who(110), owner: who(10) };
    let before = ctx.clone();
    assert_eq!(submit_genome(&mut ctx, vec![2], who(0)), Err(SaeaError::ArithmeticOverflow));
    assert_eq!(ctx, before);
    // a bad genome is reported first
    assert_eq!(handle_submit_genome(&mut ctx, Vec::new(), who(0)), Err(SaeaError::InvalidGenomeLength));
}

#[test]
fn submit_does_not_advance_any_counter_of_the_arena() {
    let mut arena = arena_with(5, 100);
    let agent = registered_agent(&mut arena, who(10), who(110), vec![1]);
    let mut ctx = SubmitGenome { arena, agent, agent_key: who(110), owner: who(10) };
    submit_genome(&mut ctx, vec![2], who(0)).unwrap();
    assert_eq!(ctx.arena, arena);
}

#[test]
fn prune_removes_an_agent_below_the_threshold() {
    let mut arena = arena_with(5, 100);
    let mut agent = registered_agent(&mut arena, who(10), who(110), vec![1]);
    let _other = registered_agent(&mut arena, who(11), who(111), vec![2]);
    agent.fitness = 99;
    agent.generation = 3;
    let mut ctx = PruneAgent { arena, agent: agent.clone(), agent_key: who(110), authority: who(1) };
    let event = prune_agent(&mut ctx).unwrap();
    assert_eq!(event, AgentPruned { agent: who(110), fitness: 99, generation: 3 });
    assert_eq!(ctx.arena.active_agents, 1);
    assert_eq!(ctx.arena.total_agents, 2);
    assert_eq!(ctx.agent, AgentAccount { is_active: false, ..agent });
    assert_eq!(ctx.arena, Arena { active_agents: 1, ..arena });
}

#[test]
fn prune_refuses_an_agent_at_or_above_the_threshold() {
    let mut arena = arena_with(5, 100);
    let mut agent = registered_agent(&mut arena, who(10), who(110), vec![1]);
    for fitness in [100u64, 101u64, u64::MAX] {
        agent.fitness = fitness;
        let mut ctx = PruneAgent { arena, agent: agent.clone(), agent_key: who(110), authority: who(1) };
        let before = ctx.clone();
        assert_eq!(prune_agent(&mut ctx), Err(SaeaError::AgentAboveThreshold));
        assert_eq!(ctx, before);
    }
}

#[test]
fn prune_with_threshold_zero_removes_nobody() {
    let mut arena = arena_with(5, 0);
    let agent = registered_agent(&mut arena, who(10), who(110), vec![1]);
    let mut ctx = PruneAgent { arena, agent, agent_key: who(110), authority: who(1) };
    assert_eq!(prune_agent(&mut ctx), Err(SaeaError::AgentAboveThreshold));
}

#[test]
fn prune_twice_fails_the_second_time() {
    let mut arena = arena_with(5, 100);
    let agent = registered_agent(&mut arena, who(10), who(110), vec![1]);
    let mut ctx = PruneAgent { arena, agent, agent_key: who(110), authority: who(1) };
    assert!(prune_agent(&mut ctx).is_ok());
    assert_eq!(ctx.arena.active_agents, 0);
    let before = ctx.clone();
    assert_eq!(prune_agent(&mut ctx), Err(SaeaError::AgentNotActive));
    assert_eq!(ctx, before);
    assert_eq!(ctx.arena.active_agents, 0);
}

#[test]
fn prune_refuses_in_order() {
    let mut arena = arena_with(5, 100);
    let mut agent = registered_agent(&mut arena, who(10), who(110), vec![1]);
    // a stranger asks to prune an agent that may be pruned
    let mut ctx = PruneAgent { arena, agent: agent.clone(), agent_key: who(110), authority: who(2) };
    let before = ctx.clone();
    assert_eq!(prune_agent(&mut ctx), Err(SaeaError::Unauthorized));
    assert_eq!(ctx, before);
    // the threshold is reported before the stranger
    agent.fitness = 500;
    let mut ctx = PruneAgent { arena, agent: agent.clone(), agent_key: who(110), authority: who(2) };
    assert_eq!(prune_agent(&mut ctx), Err(SaeaError::AgentAboveThreshold));
    // an inactive agent is reported before the threshold
    agent.is_active = false;
    let mut ctx = PruneAgent { arena, agent: agent.clone(), agent_key: who(110), authority: who(2) };
    assert_eq!(prune_agent(&mut ctx), Err(SaeaError::AgentNotActive));
    // an inactive arena is reported before everything
    let mut asleep = arena;
    asleep.is_active = false;
    let mut ctx = PruneAgent { arena: asleep, agent, agent_key: who(110), authority: who(2) };
    assert_eq!(prune_agent(&mut ctx), Err(SaeaError::ArenaNotActive));
}

#[test]
fn prune_refuses_when_no_active_agent_is_counted() {
    let mut arena = arena_with(5, 100);
    let agent = registered_agent(&mut arena, who(10), who(110), vec![1]);
    arena.active_agents = 0;
    let mut ctx = PruneAgent { arena, agent, agent_key: who(110), authority: who(1) };
    let before = ctx.clone();
    assert_eq!(prune_agent(&mut ctx), Err(SaeaError::ArithmeticOverflow));
    assert_eq!(ctx, before);
    assert!(ctx.agent.is_active);
    assert_eq!(handle_prune_agent(&mut ctx), Err(SaeaError::ArithmeticOverflow));
    assert_eq!(ctx, before);
}

#[test]
fn advance_generation_adds_one() {
    let arena = arena_with(5, 100);
    let mut ctx = AdvanceGeneration { arena, authority: who(1) };
    let event = advance_generation(&mut ctx).unwrap();
    assert_eq!(event, GenerationAdvanced { old_generation: 1, new_generation: 2, active_agents: 0 });
    assert_eq!(ctx.arena, Arena { current_generation: 2, ..arena });
    let event = advance_generation(&mut ctx).unwrap();
    assert_eq!(event.old_generation, 2);
    assert_eq!(event.new_generation, 3);
    assert_eq!(ctx.arena.current_generation, 3);
}

#[test]
fn advance_generation_reports_the_active_agents() {
    let mut arena = arena_with(5, 100);
    let _a = registered_agent(&mut arena, who(10), who(110), vec![1]);
    let _b = registered_agent(&mut arena, who(11), who(111), vec![2]);
    let mut ctx = AdvanceGeneration { arena, authority: who(1) };
    let event = advance_generation(&mut ctx).unwrap();
    assert_eq!(event.active_agents, 2);
    assert_eq!(ctx.arena.active_agents, 2);
    assert_eq!(ctx.arena.total_agents, 2);
}

#[test]
fn advance_generation_never_goes_down() {
    let arena = arena_with(5, 100);
    let mut ctx = AdvanceGeneration { arena, authority: who(1) };
    let mut last: u64 = ctx.arena.current_generation;
    for step in 0..10u64 {
        if step % 3 == 2 {
            ctx.authority = who(9);
            assert_eq!(advance_generation(&mut ctx), Err(SaeaError::Unauthorized));
            assert_eq!(ctx.arena.current_generation, last);
            ctx.authority = who(1);
        } else {
            advance_generation(&mut ctx).unwrap();
            assert_eq!(ctx.arena.current_generation, last + 1);
        }
        assert!(ctx.arena.current_generation >= last);
        last = ctx.arena.current_generation;
    }
}

#[test]
fn advance_generation_refuses_at_the_highest_count() {
    let mut arena = arena_with(5, 100);
    arena.current_generation = u64::MAX;
    let mut ctx = AdvanceGeneration { arena, authority: who(1) };
    let before = ctx;
    assert_eq!(advance_generation(&mut ctx), Err(SaeaError::ArithmeticOverflow));
    assert_eq!(ctx, before);
    assert_eq!(handle_advance_generation(&mut ctx), Err(SaeaError::ArithmeticOverflow));
    arena.current_generation = u64::MAX - 1;
    let mut ctx = AdvanceGeneration { arena, authority: who(1) };
    assert!(advance_generation(&mut ctx).is_ok());
    assert_eq!(ctx.arena.current_generation, u64::MAX);
}

#[test]
fn advance_generation_refuses_in_order() {
    let mut arena = arena_with(5, 100);
    let mut ctx = AdvanceGeneration { arena, authority: who(2) };
    let before = ctx;
    assert_eq!(advance_generation(&mut ctx), Err(SaeaError::Unauthorized));
    assert_eq!(ctx, before);
    arena.is_active = false;
    let mut ctx = AdvanceGeneration { arena, authority: who(2) };
    assert_eq!(advance_generation(&mut ctx), Err(SaeaError::ArenaNotActive));
    let mut ctx = AdvanceGeneration { arena, authority: who(1) };
    assert_eq!(advance_generation(&mut ctx), Err(SaeaError::ArenaNotActive));
}

#[test]
fn validate_reports_the_first_broken_rule() {
    let mut arena = arena_with(2, 100);
    let agent = registered_agent(&mut arena, who(10), who(110), vec![1]);
    let ok = PruneAgent { arena, agent: agent.clone(), agent_key: who(110), authority: who(1) };
    assert_eq!(ok.validate(), Ok(()));
    let stranger = PruneAgent { authority: who(3), ..ok.clone() };
    assert_eq!(stranger.validate(), Err(SaeaError::Unauthorized));
    let room = registration(arena, who(12), who(112));
    assert_eq!(room.validate(), Ok(()));
    let full = registration(Arena { active_agents: 2, ..arena }, who(12), who(112));
    assert_eq!(full.validate(), Err(SaeaError::MaxAgentsReached));
    let owner = SubmitGenome { arena, agent: agent.clone(), agent_key: who(110), owner: who(10) };
    assert_eq!(owner.validate(), Ok(()));
    let other = SubmitGenome { owner: who(11), ..owner.clone() };
    assert_eq!(other.validate(), Err(SaeaError::Unauthorized));
    let advance = AdvanceGeneration { arena, authority: who(1) };
    assert_eq!(advance.validate(), Ok(()));
}

#[test]
fn handlers_check_the_rules_themselves() {
    let mut arena = arena_with(5, 100);
    let agent = registered_agent(&mut arena, who(10), who(110), vec![1]);
    let mut ctx = PruneAgent { arena, agent: agent.clone(), agent_key: who(110), authority: who(99) };
    let before = ctx.clone();
    assert_eq!(handle_prune_agent(&mut ctx), Err(SaeaError::Unauthorized));
    assert_eq!(ctx, before);
    let mut ctx = AdvanceGeneration { arena, authority: who(99) };
    assert_eq!(handle_advance_generation(&mut ctx), Err(SaeaError::Unauthorized));
    assert_eq!(ctx.arena.current_generation, 1);
    let mut ctx = SubmitGenome { arena, agent, agent_key: who(110), owner: who(99) };
    assert_eq!(handle_submit_genome(&mut ctx, vec![2], who(0)), Err(SaeaError::Unauthorized));
    let mut ctx = registration(Arena { is_active: false, ..arena }, who(12), who(112));
    assert_eq!(handle_register_agent(&mut ctx, vec![2], 0), Err(SaeaError::ArenaNotActive));
}

#[test]
fn addresses_compare_by_their_bytes() {
    assert_eq!(who(5), who(5));
    assert_ne!(who(5), who(6));
    let mut near = who(5);
    near.bytes[0] = 6;
    assert_ne!(who(5), near);
    assert_eq!(Address::zero(), Address { bytes: [0u8; 32] });
}

#[test]
fn every_refusal_has_its_message() {
    assert_eq!(SaeaError::ArenaNotActive.message(), "Arena is not active");
    assert_eq!(SaeaError::ArenaAlreadyInitialized.message(), "Arena is already initialized");
    assert_eq!(SaeaError::MaxAgentsReached.message(), "Maximum number of agents reached");
    assert_eq!(SaeaError::AgentNotActive.message(), "Agent is not active");
    assert_eq!(SaeaError::AgentAlreadyActive.message(), "Agent is already active");
    assert_eq!(SaeaError::InvalidGenomeLength.message(), "Invalid genome length (must be 1-32 bytes)");
    assert_eq!(SaeaError::RoundAlreadyComplete.message(), "Round is already complete");
    assert_eq!(SaeaError::RoundNotComplete.message(), "Round is not complete");
    assert_eq!(SaeaError::AlreadyParticipated.message(), "Agent already participated in this round");
    assert_eq!(SaeaError::Unauthorized.message(), "Unauthorized: caller is not the owner");
    assert_eq!(
        SaeaError::InvalidMutationRate.message(),
        "Mutation rate must be between 0 and 10000 basis points"
    );
    assert_eq!(SaeaError::InvalidFitnessThreshold.message(), "Fitness threshold must be positive");
    assert_eq!(SaeaError::InvalidMaxAgents.message(), "Max agents must be at least 2");
    assert_eq!(SaeaError::NoAgentsToPrune.message(), "No agents to prune");
    assert_eq!(SaeaError::AgentAboveThreshold.message(), "Agent fitness is above pruning threshold");
    assert_eq!(SaeaError::ArithmeticOverflow.message(), "Arithmetic overflow");
}
