//! The operations on the arena, one file each.
//!
//! Every operation has a context type that holds the records it names,
//! and a handler that works on such a context. The context says in
//! `violation` which rule its records break, in `failure` what else
//! stands in the way, and in a function of its own what the records are
//! after the operation. The handler checks the rules, refuses with
//! nothing changed where one is broken, and changes the records
//! otherwise.
pub mod advance_generation;
pub mod initialize_arena;
pub mod prune_agent;
pub mod register_agent;
pub mod run_round;
pub mod submit_genome;

pub use advance_generation::{handle_advance_generation, AdvanceGeneration};
pub use initialize_arena::{handle_initialize_arena, InitializeArena};
pub use prune_agent::{handle_prune_agent, PruneAgent};
pub use register_agent::{handle_register_agent, RegisterAgent};
pub use run_round::{
    complete_round_handler, handle_run_round, score_agent_handler, CompleteRound, RunRound,
    ScoreAgent,
};
pub use submit_genome::{handle_submit_genome, SubmitGenome};
