//! The records that the arena keeps.
pub mod agent;
pub mod arena;
pub mod round;

pub use agent::AgentAccount;
pub use arena::Arena;
pub use round::Round;
