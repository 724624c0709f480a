//! Players and their attributes.
//!
//! A field player's skating, shooting, mental sharpness ("iq") and morale are
//! plain rating points, fixed for the match. Strength is the one attribute
//! that decays during simulation, so it is stored in fixed-point form:
//! `SCALE` sub-units make one rating point.

use vstd::prelude::*;

verus! {

/// Fixed-point sub-units per rating point, used for the strength attribute
/// and for every effective rating handed to a contest.
pub const SCALE: u64 = 10_000;

/// Upper bound on a raw rating attribute (skating, shooting, iq, morale,
/// goalie stats), part of every stats record's well-formedness.
pub const MAX_STAT: u64 = 1_000_000;

/// Upper bound on the fixed-point strength attribute.
pub const MAX_STRENGTH: u64 = 1_000_000 * 10_000;

/// Strength never decays below this floor (one fixed-point sub-unit), so a
/// contest never sees a degenerate zero-strength rating from decay alone.
pub const MIN_STRENGTH: u64 = 1;

/// One of the five field positions; the values carry no numeric order.
#[derive(Clone, Copy, PartialEq, Eq, Structural, Debug)]
pub enum PlayerPosition {
    RightWing,
    LeftWing,
    Center,
    RightDefender,
    LeftDefender,
}

/// One of eight field-player roles, paired into four archetype families;
/// each pair shares one preference ranking over the four action kinds.
#[derive(Clone, Copy, PartialEq, Eq, Structural, Debug)]
pub enum PlayerRole {
    Passer,
    Professor,
    Shooter,
    ToughGuy,
    TryHarder,
    Goon,
    Dangler,
    Rock,
}

/// One of two goalie archetypes; the archetype decides which stat pair gets
/// the full weight in a shot contest.
#[derive(Clone, Copy, PartialEq, Eq, Structural, Debug)]
pub enum GoalieRole {
    Post2Post,
    Butterfly,
}

/// A field player's attributes. Strength is fixed-point (see [`SCALE`]);
/// the other four are plain rating points.
#[derive(Clone, Copy, PartialEq, Eq, Structural, Debug)]
pub struct FieldPlayerStats {
    pub skating: u64,
    pub shooting: u64,
    pub strength: u64,
    pub iq: u64,
    pub morale: u64,
}

impl FieldPlayerStats {
    /// All attributes within the engine's bounds.
    pub open spec fn wf(self) -> bool {
        &&& self.skating <= MAX_STAT
        &&& self.shooting <= MAX_STAT
        &&& self.iq <= MAX_STAT
        &&& self.morale <= MAX_STAT
        &&& MIN_STRENGTH <= self.strength <= MAX_STRENGTH
    }

    pub fn new(skating: u64, shooting: u64, strength: u64, iq: u64, morale: u64)
        -> (r: FieldPlayerStats)
        requires
            skating <= MAX_STAT,
            shooting <= MAX_STAT,
            iq <= MAX_STAT,
            morale <= MAX_STAT,
            MIN_STRENGTH <= strength <= MAX_STRENGTH,
        ensures
            r == (FieldPlayerStats { skating, shooting, strength, iq, morale }),
            r.wf(),
    {
        FieldPlayerStats { skating, shooting, strength, iq, morale }
    }

    pub fn get_skating(&self) -> (r: u64)
        ensures
            r == self.skating,
    {
        self.skating
    }

    pub fn get_shooting(&self) -> (r: u64)
        ensures
            r == self.shooting,
    {
        self.shooting
    }

    pub fn get_strength(&self) -> (r: u64)
        ensures
            r == self.strength,
    {
        self.strength
    }

    pub fn get_iq(&self) -> (r: u64)
        ensures
            r == self.iq,
    {
        self.iq
    }

    pub fn get_morale(&self) -> (r: u64)
        ensures
            r == self.morale,
    {
        self.morale
    }
}

/// A field player: identity (team side, native and current position), a role
/// and the attribute record.
#[derive(Clone, Copy, PartialEq, Eq, Structural, Debug)]
pub struct FieldPlayer {
    pub native_position: PlayerPosition,
    pub position: PlayerPosition,
    pub role: PlayerRole,
    pub user_id: usize,
    pub stats: FieldPlayerStats,
}

impl FieldPlayer {
    /// The player belongs to one of the two sides and has bounded stats.
    pub open spec fn wf(self) -> bool {
        &&& self.user_id == 1 || self.user_id == 2
        &&& self.stats.wf()
    }

    pub fn new(
        native_position: PlayerPosition,
        position: PlayerPosition,
        role: PlayerRole,
        user_id: usize,
        stats: FieldPlayerStats,
    ) -> (r: FieldPlayer)
        requires
            user_id == 1 || user_id == 2,
            stats.wf(),
        ensures
            r == (FieldPlayer { native_position, position, role, user_id, stats }),
            r.wf(),
    {
        FieldPlayer { native_position, position, role, user_id, stats }
    }

    pub fn get_player_position(&self) -> (r: PlayerPosition)
        ensures
            r == self.position,
    {
        self.position
    }

    pub fn get_role(&self) -> (r: PlayerRole)
        ensures
            r == self.role,
    {
        self.role
    }

    pub fn get_user_id(&self) -> (r: usize)
        ensures
            r == self.user_id,
    {
        self.user_id
    }
}

/// A goalie's attributes: a positioning pair (stand, stretch), a reflex pair
/// (glove-and-blocker, pads) and morale, all plain rating points. Goalies do
/// not decay in this engine.
#[derive(Clone, Copy, PartialEq, Eq, Structural, Debug)]
pub struct GoalieStats {
    pub stand: u64,
    pub stretch: u64,
    pub glove_and_blocker: u64,
    pub pads: u64,
    pub morale: u64,
}

impl GoalieStats {
    pub open spec fn wf(self) -> bool {
        &&& self.stand <= MAX_STAT
        &&& self.stretch <= MAX_STAT
        &&& self.glove_and_blocker <= MAX_STAT
        &&& self.pads <= MAX_STAT
        &&& self.morale <= MAX_STAT
    }

    pub fn new(stand: u64, stretch: u64, glove_and_blocker: u64, pads: u64, morale: u64)
        -> (r: GoalieStats)
        requires
            stand <= MAX_STAT,
            stretch <= MAX_STAT,
            glove_and_blocker <= MAX_STAT,
            pads <= MAX_STAT,
            morale <= MAX_STAT,
        ensures
            r == (GoalieStats { stand, stretch, glove_and_blocker, pads, morale }),
            r.wf(),
    {
        GoalieStats { stand, stretch, glove_and_blocker, pads, morale }
    }

    pub fn get_stand(&self) -> (r: u64)
        ensures
            r == self.stand,
    {
        self.stand
    }

    pub fn get_stretch(&self) -> (r: u64)
        ensures
            r == self.stretch,
    {
        self.stretch
    }

    pub fn get_glove_and_blocker(&self) -> (r: u64)
        ensures
            r == self.glove_and_blocker,
    {
        self.glove_and_blocker
    }

    pub fn get_pads(&self) -> (r: u64)
        ensures
            r == self.pads,
    {
        self.pads
    }

    pub fn get_morale(&self) -> (r: u64)
        ensures
            r == self.morale,
    {
        self.morale
    }
}

/// The goalie: an archetype and the attribute record, immutable during the
/// match.
#[derive(Clone, Copy, PartialEq, Eq, Structural, Debug)]
pub struct Goalie {
    pub role: GoalieRole,
    pub stats: GoalieStats,
}

impl Goalie {
    pub open spec fn wf(self) -> bool {
        self.stats.wf()
    }

    pub fn new(role: GoalieRole, stats: GoalieStats) -> (r: Goalie)
        requires
            stats.wf(),
        ensures
            r == (Goalie { role, stats }),
            r.wf(),
    {
        Goalie { role, stats }
    }

    pub fn get_role(&self) -> (r: GoalieRole)
        ensures
            r == self.role,
    {
        self.role
    }
}

} // verus!
