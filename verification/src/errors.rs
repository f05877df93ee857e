//! The ways in which an operation on the arena can be refused.
use vstd::prelude::*;

verus! {

/// Why an operation was refused. A refused operation changes nothing.
#[derive(Debug, Clone, Copy, PartialEq, Eq, Structural)]
pub enum SaeaError {
    ArenaNotActive,
    ArenaAlreadyInitialized,
    MaxAgentsReached,
    AgentNotActive,
    AgentAlreadyActive,
    InvalidGenomeLength,
    RoundAlreadyComplete,
    RoundNotComplete,
    AlreadyParticipated,
    Unauthorized,
    InvalidMutationRate,
    InvalidFitnessThreshold,
    InvalidMaxAgents,
    NoAgentsToPrune,
    AgentAboveThreshold,
    ArithmeticOverflow,
}

impl SaeaError {
    /// What the refusal says in words.
    pub open spec fn spec_message(&self) -> Seq<char> {
        match self {
            SaeaError::ArenaNotActive => "Arena is not active"@,
            SaeaError::ArenaAlreadyInitialized => "Arena is already initialized"@,
            SaeaError::MaxAgentsReached => "Maximum number of agents reached"@,
            SaeaError::AgentNotActive => "Agent is not active"@,
            SaeaError::AgentAlreadyActive => "Agent is already active"@,
            SaeaError::InvalidGenomeLength => "Invalid genome length (must be 1-32 bytes)"@,
            SaeaError::RoundAlreadyComplete => "Round is already complete"@,
            SaeaError::RoundNotComplete => "Round is not complete"@,
            SaeaError::AlreadyParticipated => "Agent already participated in this round"@,
            SaeaError::Unauthorized => "Unauthorized: caller is not the owner"@,
            SaeaError::InvalidMutationRate => "Mutation rate must be between 0 and 10000 basis points"@,
            SaeaError::InvalidFitnessThreshold => "Fitness threshold must be positive"@,
            SaeaError::InvalidMaxAgents => "Max agents must be at least 2"@,
            SaeaError::NoAgentsToPrune => "No agents to prune"@,
            SaeaError::AgentAboveThreshold => "Agent fitness is above pruning threshold"@,
            SaeaError::ArithmeticOverflow => "Arithmetic overflow"@,
        }
    }

    /// What the refusal says in words.
    pub fn message(&self) -> (text: &'static str)
        ensures
            text@ == self.spec_message(),
    {
        match self {
            SaeaError::ArenaNotActive => "Arena is not active",
            SaeaError::ArenaAlreadyInitialized => "Arena is already initialized",
            SaeaError::MaxAgentsReached => "Maximum number of agents reached",
            SaeaError::AgentNotActive => "Agent is not active",
            SaeaError::AgentAlreadyActive => "Agent is already active",
            SaeaError::InvalidGenomeLength => "Invalid genome length (must be 1-32 bytes)",
            SaeaError::RoundAlreadyComplete => "Round is already complete",
            SaeaError::RoundNotComplete => "Round is not complete",
            SaeaError::AlreadyParticipated => "Agent already participated in this round",
            SaeaError::Unauthorized => "Unauthorized: caller is not the owner",
            SaeaError::InvalidMutationRate => "Mutation rate must be between 0 and 10000 basis points",
            SaeaError::InvalidFitnessThreshold => "Fitness threshold must be positive",
            SaeaError::InvalidMaxAgents => "Max agents must be at least 2",
            SaeaError::NoAgentsToPrune => "No agents to prune",
            SaeaError::AgentAboveThreshold => "Agent fitness is above pruning threshold",
            SaeaError::ArithmeticOverflow => "Arithmetic overflow",
        }
    }
}

} // verus!
