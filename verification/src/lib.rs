//! A turn-based stochastic resolution engine for a two-team puck-possession
//! game. Given the current match state (zone, possessor, rosters), the engine
//! selects one of four actions (pass, shot, move, dangle) according to
//! role-weighted odds and zone constraints, resolves it through a shared
//! probabilistic contest primitive, and mutates possession, zone, score and a
//! fatigue attribute accordingly.
//!
//! All ratings are integers; the continuously decaying strength attribute is
//! held in fixed-point form (`SCALE` sub-units per rating point), so that the
//! whole engine is free of floating point.

use vstd::prelude::*;

pub mod player;
pub mod team;
pub mod game;
pub mod contest;
pub mod action;
pub mod rng;
pub mod stats;
pub mod nft;

verus! {

/// Errors the engine can surface instead of aborting.
#[derive(Clone, Copy, PartialEq, Eq, Structural, Debug)]
pub enum EngineError {
    /// A contest was requested with a zero combined rating: the draw range
    /// `[1, a + b]` would be empty.
    Configuration,
}

} // verus!
