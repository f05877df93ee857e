//! Advancing the generation: the arena's coarse counter of progress.
use vstd::prelude::*;
use crate::address::Address;
use crate::errors::SaeaError;
use crate::events::GenerationAdvanced;
use crate::state::Arena;

verus! {

/// The records that advancing the generation names: the arena and who
/// asks.
#[derive(Debug, Clone, Copy, PartialEq, Eq)]
pub struct AdvanceGeneration {
    pub arena: Arena,
    pub authority: Address,
}

impl AdvanceGeneration {
    /// The first rule of advancing that the records break, if any: the
    /// arena is active and its authority asks.
    pub open spec fn violation(&self) -> Option<SaeaError> {
        if !self.arena.is_active {
            Some(SaeaError::ArenaNotActive)
        } else if self.authority != self.arena.authority {
            Some(SaeaError::Unauthorized)
        } else {
            None
        }
    }

    /// Why advancing fails although no rule is broken, if it does: the
    /// generation cannot be counted any higher.
    pub open spec fn failure(&self) -> Option<SaeaError> {
        if self.arena.current_generation == u64::MAX {
            Some(SaeaError::ArithmeticOverflow)
        } else {
            None
        }
    }

    /// Why advancing is refused, if it is: the first broken rule, or else
    /// the failure.
    pub open spec fn refusal(&self) -> Option<SaeaError> {
        if self.violation() is Some {
            self.violation()
        } else {
            self.failure()
        }
    }

    /// The records after advancing: the generation is one higher, and
    /// nothing else has changed.
    pub open spec fn advanced(self) -> AdvanceGeneration {
        AdvanceGeneration {
            arena: Arena {
                current_generation: (self.arena.current_generation + 1) as u64,
                ..self.arena
            },
            ..self
        }
    }

    /// What advancing reports.
    pub open spec fn report(&self) -> GenerationAdvanced {
        GenerationAdvanced {
            old_generation: self.arena.current_generation,
            new_generation: (self.arena.current_generation + 1) as u64,
            active_agents: self.arena.active_agents,
        }
    }

    /// Checks the rules of advancing, in the order in which `violation`
    /// lists them.
    pub fn validate(&self) -> (res: Result<(), SaeaError>)
        ensures
            res is Ok <==> self.violation() is None,
            res is Err ==> Some(res->Err_0) == self.violation(),
    {
        if !self.arena.is_active {
            return Err(SaeaError::ArenaNotActive);
        }
        if self.authority != self.arena.authority {
            return Err(SaeaError::Unauthorized);
        }
        Ok(())
    }
}

/// Moves the arena on to its next generation. Touches no agent and no
/// round. The generation goes up by exactly 1 on success and never goes
/// down.
///
/// Refused, with nothing changed, when the arena is inactive
/// (`ArenaNotActive`), when the caller is not the arena's authority
/// (`Unauthorized`), or when the generation cannot be counted any higher
/// (`ArithmeticOverflow`): the first of these that applies.
pub fn handle_advance_generation(ctx: &mut AdvanceGeneration) -> (res: Result<
    GenerationAdvanced,
    SaeaError,
>)
    ensures
        final(ctx).arena.current_generation >= old(ctx).arena.current_generation,
        match res {
            Ok(event) => {
                &&& old(ctx).refusal() is None
                &&& *final(ctx) == old(ctx).advanced()
                &&& event == old(ctx).report()
                &&& final(ctx).arena.current_generation == old(ctx).arena.current_generation + 1
                &&& old(ctx).arena.wf() ==> final(ctx).arena.wf()
            },
            Err(e) => {
                &&& old(ctx).refusal() == Some(e)
                &&& *final(ctx) == *old(ctx)
            },
        },
{
    match ctx.validate() {
        Ok(_) => {},
        Err(e) => {
            return Err(e);
        },
    }
    let old_generation = ctx.arena.current_generation;
    let new_generation = match old_generation.checked_add(1) {
        Some(n) => n,
        None => {
            return Err(SaeaError::ArithmeticOverflow);
        },
    };
    ctx.arena.current_generation = new_generation;
    Ok(
        GenerationAdvanced {
            old_generation,
            new_generation,
            active_agents: ctx.arena.active_agents,
        },
    )
}

} // verus!
