//! Teams: a five of field players (one per position), a goalie and a score.
//!
//! The five-position mapping is total and its keys are fixed by construction:
//! the five slots are named struct fields, so no position can be missing and
//! none can occur twice.

use vstd::prelude::*;
use crate::player::{FieldPlayer, Goalie, PlayerPosition};

verus! {

/// Names the goalies a roster can carry.
#[derive(Clone, Copy, PartialEq, Eq, Structural, Debug)]
pub enum Goalies {
    MainGoalkeeper,
    SubstituteGoalkeeper,
}

/// Names the fives a roster can carry.
#[derive(Clone, Copy, PartialEq, Eq, Structural, Debug)]
pub enum Fives {
    First,
    Second,
    Third,
    Fourth,
}

/// How much ice time a five is meant to get.
#[derive(Clone, Copy, PartialEq, Eq, Structural, Debug)]
pub enum IceTimePriority {
    SuperLowPriority,
    LowPriority,
    Normal,
    HighPriority,
    SuperHighPriority,
}

/// Five field players, one per position.
#[derive(Clone, Copy, PartialEq, Eq, Structural, Debug)]
pub struct Five {
    pub right_wing: FieldPlayer,
    pub left_wing: FieldPlayer,
    pub center: FieldPlayer,
    pub right_defender: FieldPlayer,
    pub left_defender: FieldPlayer,
    pub number: Fives,
    pub ice_time_priority: IceTimePriority,
    pub time_field: u8,
}

impl Five {
    /// The player held in a slot, as a spec-level lookup.
    pub open spec fn spec_player_at(self, pos: PlayerPosition) -> FieldPlayer {
        match pos {
            PlayerPosition::RightWing => self.right_wing,
            PlayerPosition::LeftWing => self.left_wing,
            PlayerPosition::Center => self.center,
            PlayerPosition::RightDefender => self.right_defender,
            PlayerPosition::LeftDefender => self.left_defender,
        }
    }

    /// Every slot holds a well-formed player of the given side whose current
    /// position agrees with the slot.
    pub open spec fn wf(self, user_id: usize) -> bool {
        forall|pos: PlayerPosition|
            #[trigger] self.spec_player_at(pos).wf()
            && self.spec_player_at(pos).position == pos
            && self.spec_player_at(pos).user_id == user_id
    }

    /// The player occupying the given position. The mapping is total, so the
    /// lookup cannot fail.
    pub fn player_at(&self, pos: PlayerPosition) -> (r: &FieldPlayer)
        ensures
            *r == self.spec_player_at(pos),
    {
        match pos {
            PlayerPosition::RightWing => &self.right_wing,
            PlayerPosition::LeftWing => &self.left_wing,
            PlayerPosition::Center => &self.center,
            PlayerPosition::RightDefender => &self.right_defender,
            PlayerPosition::LeftDefender => &self.left_defender,
        }
    }
}

/// One side's match state: the active five, the active goalie and the score.
#[derive(Clone, Copy, PartialEq, Eq, Structural, Debug)]
pub struct Team {
    pub active_five: Five,
    pub active_goalie: Goalie,
    pub score: u8,
}

impl Team {
    pub open spec fn wf(self, user_id: usize) -> bool {
        &&& self.active_five.wf(user_id)
        &&& self.active_goalie.wf()
    }

    pub fn new(active_five: Five, active_goalie: Goalie) -> (r: Team)
        ensures
            r == (Team { active_five, active_goalie, score: 0u8 }),
    {
        Team { active_five, active_goalie, score: 0 }
    }
}

} // verus!
