//! The core of a self-evolving agent arena: a recurring competition in
//! which agents hold short genomes, rounds score them against a seed, low
//! scorers are pruned and a generation counter moves on.
//!
//! * [`fitness`] scores a genome against a seed.
//! * [`state`] holds the three records: arena, agent and round.
//! * [`instructions`] holds the operations on those records, with the
//!   rules each one checks; [`program`] offers them by name.
//! * [`laws`] states what holds of the operations taken together.
//! * [`errors`] and [`events`] say how an operation is refused and what
//!   it reports.
//! * [`hashing`] and [`bits`] state what is taken on trust from code
//!   outside this library.
//!
//! Nothing here reads a clock, a signature or a store: the caller hands in
//! the records, the time and who asks, and gets the changed records back.
use vstd::prelude::*;

pub mod address;
pub mod bits;
pub mod errors;
pub mod events;
pub mod fitness;
pub mod hashing;
pub mod instructions;
pub mod laws;
pub mod program;
pub mod state;

verus! {

} // verus!
