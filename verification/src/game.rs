//! The match state: the two teams, the zone, possession and pass history.
//!
//! Possession is stored as a (team side, position) key, never as a copied
//! player record, so reads always dereference into the live roster and can
//! never see a stale strength value.

use vstd::prelude::*;
use crate::player::{FieldPlayer, Goalie, PlayerPosition};
use crate::team::{Five, Team};

verus! {

/// The defense-most zone ordinal for the first side; the second side attacks
/// toward it.
pub const ZONE_NEAR: u8 = 1;

/// The neutral zone ordinal.
pub const ZONE_MIDDLE: u8 = 2;

/// The attack-most zone ordinal for the first side.
pub const ZONE_FAR: u8 = 3;

/// Mutable simulation state for one match.
#[derive(Clone, Copy, PartialEq, Eq, Structural, Debug)]
pub struct Game {
    pub user1: Team,
    pub user2: Team,
    /// One of the three zone ordinals `ZONE_NEAR ..= ZONE_FAR`.
    pub zone_number: u8,
    /// Which side (1 or 2) holds the puck.
    pub puck_user_id: usize,
    /// Which position on that side holds the puck.
    pub puck_position: PlayerPosition,
    /// Match-history predicate supplied by the caller: whether a completed
    /// pass preceded the current shot attempt. The engine reads it in the
    /// shot resolver and resets it when a shot is resolved.
    pub pass_before_shot: bool,
}

/// The side opposing `user_id`.
pub open spec fn spec_opponent_id(user_id: usize) -> usize {
    if user_id == 1 { 2usize } else { 1usize }
}

impl Game {
    /// The team state of the given side.
    pub open spec fn spec_team(self, user_id: usize) -> Team {
        if user_id == 1 { self.user1 } else { self.user2 }
    }

    /// The live roster record of the current puck holder.
    pub open spec fn spec_player_with_puck(self) -> FieldPlayer {
        self.spec_team(self.puck_user_id).active_five.spec_player_at(self.puck_position)
    }

    /// The opposing field player at the puck holder's position.
    pub open spec fn spec_opponent_field_player(self) -> FieldPlayer {
        self.spec_team(spec_opponent_id(self.puck_user_id)).active_five.spec_player_at(
            self.puck_position,
        )
    }

    /// The opposing goalie.
    pub open spec fn spec_opponent_goalie(self) -> Goalie {
        self.spec_team(spec_opponent_id(self.puck_user_id)).active_goalie
    }

    /// The match invariant: a valid zone ordinal, a possession key that names
    /// one of the two sides (positions are total by construction), and two
    /// well-formed rosters.
    pub open spec fn wf(self) -> bool {
        &&& ZONE_NEAR <= self.zone_number <= ZONE_FAR
        &&& self.puck_user_id == 1 || self.puck_user_id == 2
        &&& self.user1.wf(1)
        &&& self.user2.wf(2)
    }

    pub fn new(
        user1: Team,
        user2: Team,
        zone_number: u8,
        puck_user_id: usize,
        puck_position: PlayerPosition,
    ) -> (r: Game)
        requires
            user1.wf(1),
            user2.wf(2),
            ZONE_NEAR <= zone_number <= ZONE_FAR,
            puck_user_id == 1 || puck_user_id == 2,
        ensures
            r == (Game {
                user1,
                user2,
                zone_number,
                puck_user_id,
                puck_position,
                pass_before_shot: false,
            }),
            r.wf(),
    {
        Game { user1, user2, zone_number, puck_user_id, puck_position, pass_before_shot: false }
    }

    /// Runtime check of the match invariant, for callers outside the proof
    /// (they cannot evaluate `wf` themselves).
    pub fn is_well_formed(&self) -> (b: bool)
        ensures
            b == self.wf(),
    {
        let zone_ok = ZONE_NEAR <= self.zone_number && self.zone_number <= ZONE_FAR;
        let puck_ok = self.puck_user_id == 1 || self.puck_user_id == 2;
        let t1 = team_is_wf(&self.user1, 1);
        let t2 = team_is_wf(&self.user2, 2);
        zone_ok && puck_ok && t1 && t2
    }

    /// The live record of the puck holder: always a fresh dereference into
    /// the roster, never a cached copy that could go stale under decay.
    pub fn player_with_puck(&self) -> (r: &FieldPlayer)
        ensures
            *r == self.spec_player_with_puck(),
    {
        if self.puck_user_id == 1 {
            self.user1.active_five.player_at(self.puck_position)
        } else {
            self.user2.active_five.player_at(self.puck_position)
        }
    }

    /// Whether a completed pass preceded the current shot attempt.
    pub fn has_pass_before_shot(&self) -> (r: bool)
        ensures
            r == self.pass_before_shot,
    {
        self.pass_before_shot
    }

    /// Hand the puck to the given side and position.
    pub fn give_puck_to(&mut self, user_id: usize, pos: PlayerPosition)
        ensures
            *final(self) == (Game {
                puck_user_id: user_id,
                puck_position: pos,
                ..*old(self)
            }),
    {
        self.puck_user_id = user_id;
        self.puck_position = pos;
    }
}

/// Runtime check of one player's well-formedness for a given slot and side.
fn player_slot_is_wf(p: &FieldPlayer, pos: PlayerPosition, user_id: usize) -> (b: bool)
    ensures
        b == (p.wf() && p.position == pos && p.user_id == user_id),
{
    let stats_ok = p.stats.skating <= crate::player::MAX_STAT
        && p.stats.shooting <= crate::player::MAX_STAT
        && p.stats.iq <= crate::player::MAX_STAT
        && p.stats.morale <= crate::player::MAX_STAT
        && crate::player::MIN_STRENGTH <= p.stats.strength
        && p.stats.strength <= crate::player::MAX_STRENGTH;
    let id_ok = p.user_id == 1 || p.user_id == 2;
    stats_ok && id_ok && p.position == pos && p.user_id == user_id
}

/// Runtime check of a five's well-formedness.
fn five_is_wf(f: &Five, user_id: usize) -> (b: bool)
    ensures
        b == f.wf(user_id),
{
    let b = player_slot_is_wf(&f.right_wing, PlayerPosition::RightWing, user_id)
        && player_slot_is_wf(&f.left_wing, PlayerPosition::LeftWing, user_id)
        && player_slot_is_wf(&f.center, PlayerPosition::Center, user_id)
        && player_slot_is_wf(&f.right_defender, PlayerPosition::RightDefender, user_id)
        && player_slot_is_wf(&f.left_defender, PlayerPosition::LeftDefender, user_id);
    proof {
        assert(f.spec_player_at(PlayerPosition::RightWing) == f.right_wing);
        assert(f.spec_player_at(PlayerPosition::LeftWing) == f.left_wing);
        assert(f.spec_player_at(PlayerPosition::Center) == f.center);
        assert(f.spec_player_at(PlayerPosition::RightDefender) == f.right_defender);
        assert(f.spec_player_at(PlayerPosition::LeftDefender) == f.left_defender);
        if f.wf(user_id) {
            assert(f.spec_player_at(PlayerPosition::RightWing).wf());
            assert(f.spec_player_at(PlayerPosition::LeftWing).wf());
            assert(f.spec_player_at(PlayerPosition::Center).wf());
            assert(f.spec_player_at(PlayerPosition::RightDefender).wf());
            assert(f.spec_player_at(PlayerPosition::LeftDefender).wf());
            assert(b);
        }
        if b {
            assert forall|pos: PlayerPosition|
                #[trigger] f.spec_player_at(pos).wf()
                && f.spec_player_at(pos).position == pos
                && f.spec_player_at(pos).user_id == user_id by {
                match pos {
                    PlayerPosition::RightWing => {},
                    PlayerPosition::LeftWing => {},
                    PlayerPosition::Center => {},
                    PlayerPosition::RightDefender => {},
                    PlayerPosition::LeftDefender => {},
                }
            }
        }
    }
    b
}

/// Runtime check of a team's well-formedness.
fn team_is_wf(t: &Team, user_id: usize) -> (b: bool)
    ensures
        b == t.wf(user_id),
{
    let goalie_ok = t.active_goalie.stats.stand <= crate::player::MAX_STAT
        && t.active_goalie.stats.stretch <= crate::player::MAX_STAT
        && t.active_goalie.stats.glove_and_blocker <= crate::player::MAX_STAT
        && t.active_goalie.stats.pads <= crate::player::MAX_STAT
        && t.active_goalie.stats.morale <= crate::player::MAX_STAT;
    five_is_wf(&t.active_five, user_id) && goalie_ok
}

} // verus!
