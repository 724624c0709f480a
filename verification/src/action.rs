//! Action selection and resolution.
//!
//! One orchestrated call selects an action from the puck holder's role and
//! zone, resolves it through the contest primitive, and applies fatigue decay
//! to every field player. Resolvers compute their draws and contest outcomes
//! before mutating any state, so a configuration error leaves the match
//! untouched.

use vstd::prelude::*;
use vstd::arithmetic::div_mod::{lemma_div_is_ordered, lemma_div_multiples_vanish};
use crate::EngineError;
use crate::contest::{
    get_relative_field_player_stat, get_relative_strength_stat, has_won, spec_contest,
    spec_relative_stat, MAX_RATING,
};
use crate::game::{spec_opponent_id, Game, ZONE_FAR, ZONE_MIDDLE, ZONE_NEAR};
use crate::player::{
    FieldPlayer, FieldPlayerStats, Goalie, GoalieRole, PlayerPosition, PlayerRole, MIN_STRENGTH,
    SCALE,
};
use crate::rng::draw_in_range;
use crate::team::{Five, Team};

verus! {

/// A draw of at most this value (out of 100) sends a pass into the rushed,
/// strength-contested branch.
pub const PROBABILITY_PASS_NOT_HAPPENED: u64 = 20;

/// The kinds of action the selector can choose.
#[derive(Clone, Copy, PartialEq, Eq, Structural, Debug)]
pub enum ActionTypes {
    Pass,
    Shot,
    Move,
    Dangle,
    Battle,
}

/// Rank of the pass action in a role's preference vector.
pub open spec fn spec_pass_rank(role: PlayerRole) -> u8 {
    match role {
        PlayerRole::Passer | PlayerRole::Professor => 4u8,
        PlayerRole::Shooter | PlayerRole::ToughGuy => 2u8,
        PlayerRole::TryHarder | PlayerRole::Goon => 3u8,
        PlayerRole::Dangler | PlayerRole::Rock => 1u8,
    }
}

/// Rank of the shot action in a role's preference vector.
pub open spec fn spec_shot_rank(role: PlayerRole) -> u8 {
    match role {
        PlayerRole::Passer | PlayerRole::Professor => 1u8,
        PlayerRole::Shooter | PlayerRole::ToughGuy => 4u8,
        PlayerRole::TryHarder | PlayerRole::Goon => 2u8,
        PlayerRole::Dangler | PlayerRole::Rock => 3u8,
    }
}

/// Rank of the move action in a role's preference vector.
pub open spec fn spec_move_rank(role: PlayerRole) -> u8 {
    match role {
        PlayerRole::Passer | PlayerRole::Professor => 3u8,
        PlayerRole::Shooter | PlayerRole::ToughGuy => 1u8,
        PlayerRole::TryHarder | PlayerRole::Goon => 4u8,
        PlayerRole::Dangler | PlayerRole::Rock => 2u8,
    }
}

/// Rank of the dangle action in a role's preference vector.
pub open spec fn spec_dangle_rank(role: PlayerRole) -> u8 {
    match role {
        PlayerRole::Passer | PlayerRole::Professor => 2u8,
        PlayerRole::Shooter | PlayerRole::ToughGuy => 3u8,
        PlayerRole::TryHarder | PlayerRole::Goon => 1u8,
        PlayerRole::Dangler | PlayerRole::Rock => 4u8,
    }
}

/// The fixed distribution over ten equally likely slots, weighting ranks
/// 1/2/3/4 at 10%/20%/30%/40%: the table `[1,2,2,3,3,3,4,4,4,4]`.
pub open spec fn spec_slot_value(slot: int) -> u8 {
    if slot == 0 {
        1u8
    } else if slot <= 2 {
        2u8
    } else if slot <= 5 {
        3u8
    } else {
        4u8
    }
}

/// The selection rule, in its exact priority order: outside the attack zone
/// a dangle-rank hit wins, then a move-rank hit; inside the attack zone a
/// shot-rank hit wins; pass is the catch-all everywhere.
pub open spec fn spec_select_action(role: PlayerRole, is_attack_zone: bool, slot: int)
    -> ActionTypes {
    let v = spec_slot_value(slot);
    if !is_attack_zone && spec_dangle_rank(role) == v {
        ActionTypes::Dangle
    } else if !is_attack_zone && spec_move_rank(role) == v {
        ActionTypes::Move
    } else if is_attack_zone && spec_shot_rank(role) == v {
        ActionTypes::Shot
    } else {
        ActionTypes::Pass
    }
}

/// Whether the puck holder stands in its attack zone: the first side attacks
/// at the far zone, the second at the near zone, and the middle is neutral.
pub open spec fn spec_is_attack_zone(g: Game) -> bool {
    (g.zone_number == ZONE_FAR && g.puck_user_id == 1) || (g.zone_number == ZONE_NEAR
        && g.puck_user_id == 2)
}

/// The action selector and orchestrator.
pub struct Action;

impl Action {
    /// The role's preference vector over the four action kinds, as the ranks
    /// `[pass, shot, move, dangle]`. Every role has a vector: the role set is
    /// a closed enumeration, so no role can trigger a configuration error.
    pub fn get_probability_of_actions(&self, role: PlayerRole) -> (v: Vec<u8>)
        ensures
            v@.len() == 4,
            v@[0] == spec_pass_rank(role),
            v@[1] == spec_shot_rank(role),
            v@[2] == spec_move_rank(role),
            v@[3] == spec_dangle_rank(role),
    {
        match role {
            PlayerRole::Passer | PlayerRole::Professor => vec![4u8, 1u8, 3u8, 2u8],
            PlayerRole::Shooter | PlayerRole::ToughGuy => vec![2u8, 4u8, 1u8, 3u8],
            PlayerRole::TryHarder | PlayerRole::Goon => vec![3u8, 2u8, 4u8, 1u8],
            PlayerRole::Dangler | PlayerRole::Rock => vec![1u8, 3u8, 2u8, 4u8],
        }
    }

    /// Deterministic core of the selector: map the slot through the fixed
    /// distribution and apply the priority rule.
    pub fn select_action(&self, is_attack_zone: bool, role: PlayerRole, slot: u64)
        -> (a: ActionTypes)
        requires
            slot <= 9,
        ensures
            a == spec_select_action(role, is_attack_zone, slot as int),
            a != ActionTypes::Battle,
    {
        let actions = self.get_probability_of_actions(role);
        let v = slot_value(slot);
        if !is_attack_zone && actions[3] == v {
            ActionTypes::Dangle
        } else if !is_attack_zone && actions[2] == v {
            ActionTypes::Move
        } else if is_attack_zone && actions[1] == v {
            ActionTypes::Shot
        } else {
            ActionTypes::Pass
        }
    }

    /// Draw one of the ten slots uniformly and select.
    fn get_random_action(
        &self,
        is_attack_zone: bool,
        role: PlayerRole,
        rng: &mut rand::rngs::ThreadRng,
    ) -> (a: ActionTypes)
        ensures
            a != ActionTypes::Battle,
            exists|slot: u64|
                slot <= 9 && a == spec_select_action(role, is_attack_zone, slot as int),
    {
        let slot = draw_in_range(rng, 0, 9);
        let a = self.select_action(is_attack_zone, role, slot);
        proof {
            assert(slot <= 9 && a == spec_select_action(role, is_attack_zone, slot as int));
        }
        a
    }

    /// The single entry point: select an action from the puck holder's role
    /// and zone, resolve it, then apply fatigue decay to both rosters.
    ///
    /// Either a full resolve-and-decay cycle commits, or — on a
    /// configuration error (the selected action's contest had a zero
    /// combined rating) — no mutation is observable at all. On success the
    /// final state is the decayed image of the selected action's outcome of
    /// the starting state: some slot of the ten-way distribution chose the
    /// action for the holder's role and zone, that action's resolver ran on
    /// the old state, and decay ran once after it. Nothing but possession,
    /// zone, scores and strength ever changes; at most one goal is scored
    /// and no score decreases.
    pub fn do_random_action(self, game: &mut Game, rng: &mut rand::rngs::ThreadRng) -> (r:
        Result<(), EngineError>)
        requires
            old(game).wf(),
        ensures
            final(game).wf(),
            spec_preserves_fixed_state(*old(game), *final(game)),
            r is Err ==> *final(game) == *old(game) && r == Err::<(), EngineError>(
                EngineError::Configuration,
            ),
            r is Err ==> exists|slot: u64|
                slot <= 9 && spec_action_pair_zero(
                    spec_select_action(
                        old(game).spec_player_with_puck().role,
                        spec_is_attack_zone(*old(game)),
                        slot as int,
                    ),
                    *old(game),
                ),
            (forall|slot: u64|
                slot <= 9 ==> !spec_action_pair_zero(
                    spec_select_action(
                        old(game).spec_player_with_puck().role,
                        spec_is_attack_zone(*old(game)),
                        slot as int,
                    ),
                    *old(game),
                )) ==> r is Ok,
            r is Ok ==> exists|slot: u64, mid: Game|
                #![trigger spec_select_action(old(game).spec_player_with_puck().role, spec_is_attack_zone(*old(game)), slot as int), spec_decay_game(mid)]
                slot <= 9 && spec_action_outcome(
                    spec_select_action(
                        old(game).spec_player_with_puck().role,
                        spec_is_attack_zone(*old(game)),
                        slot as int,
                    ),
                    *old(game),
                    mid,
                ) && *final(game) == spec_decay_game(mid),
            r is Ok ==> final(game).user1.score >= old(game).user1.score
                && final(game).user2.score >= old(game).user2.score
                && final(game).user1.score + final(game).user2.score <= old(game).user1.score
                + old(game).user2.score + 1,
    {
        let ghost g0 = *game;
        let is_attack_zone = (game.zone_number == ZONE_FAR && game.puck_user_id == 1) || (
        game.zone_number == ZONE_NEAR && game.puck_user_id == 2);
        let role = game.player_with_puck().get_role();
        proof {
            assert(is_attack_zone == spec_is_attack_zone(g0));
            assert(role == g0.spec_player_with_puck().role);
        }
        let action = self.get_random_action(is_attack_zone, role, rng);

        let resolved = match action {
            ActionTypes::Pass => (PassAction {}).do_action(game, rng),
            ActionTypes::Shot => (ShotAction {}).do_action(game, rng),
            ActionTypes::Move => (MoveAction {}).do_action(game, rng),
            ActionTypes::Dangle => (DangleAction {}).do_action(game, rng),
            ActionTypes::Battle => {
                proof {
                    assert(false);
                }
                Ok(())
            },
        };

        match resolved {
            Err(e) => {
                proof {
                    let slot0: u64 = choose|s: u64|
                        s <= 9 && action == spec_select_action(
                            g0.spec_player_with_puck().role,
                            spec_is_attack_zone(g0),
                            s as int,
                        );
                    assert(spec_action_pair_zero(action, g0));
                    assert(slot0 <= 9 && spec_action_pair_zero(
                        spec_select_action(
                            g0.spec_player_with_puck().role,
                            spec_is_attack_zone(g0),
                            slot0 as int,
                        ),
                        g0,
                    ));
                }
                Err(e)
            },
            Ok(()) => {
                let ghost mid = *game;
                reduce_strength(game);
                proof {
                    let slot0: u64 = choose|s: u64|
                        s <= 9 && action == spec_select_action(
                            g0.spec_player_with_puck().role,
                            spec_is_attack_zone(g0),
                            s as int,
                        );
                    assert(spec_action_outcome(action, g0, mid));
                    assert(slot0 <= 9 && spec_action_outcome(
                        spec_select_action(
                            g0.spec_player_with_puck().role,
                            spec_is_attack_zone(g0),
                            slot0 as int,
                        ),
                        g0,
                        mid,
                    ) && *game == spec_decay_game(mid));
                    assert(spec_preserves_fixed_state(g0, mid));
                    lemma_decay_preserves_fixed(mid);
                    lemma_same_five_but_strength_trans(
                        g0.user1.active_five,
                        mid.user1.active_five,
                        game.user1.active_five,
                    );
                    lemma_same_five_but_strength_trans(
                        g0.user2.active_five,
                        mid.user2.active_five,
                        game.user2.active_five,
                    );
                    assert(mid.user1.score >= g0.user1.score && mid.user2.score
                        >= g0.user2.score);
                }
                Ok(())
            },
        }
    }
}

/// Exec mirror of the slot distribution table.
fn slot_value(slot: u64) -> (v: u8)
    requires
        slot <= 9,
    ensures
        v == spec_slot_value(slot as int),
{
    if slot == 0 {
        1
    } else if slot <= 2 {
        2
    } else if slot <= 5 {
        3
    } else {
        4
    }
}

/// The four positions other than the given one, in the fixed roster order
/// `[right wing, left wing, center, right defender, left defender]` with the
/// given one removed.
pub open spec fn spec_other_positions(pos: PlayerPosition) -> Seq<PlayerPosition> {
    match pos {
        PlayerPosition::RightWing => seq![
            PlayerPosition::LeftWing,
            PlayerPosition::Center,
            PlayerPosition::RightDefender,
            PlayerPosition::LeftDefender,
        ],
        PlayerPosition::LeftWing => seq![
            PlayerPosition::RightWing,
            PlayerPosition::Center,
            PlayerPosition::RightDefender,
            PlayerPosition::LeftDefender,
        ],
        PlayerPosition::Center => seq![
            PlayerPosition::RightWing,
            PlayerPosition::LeftWing,
            PlayerPosition::RightDefender,
            PlayerPosition::LeftDefender,
        ],
        PlayerPosition::RightDefender => seq![
            PlayerPosition::RightWing,
            PlayerPosition::LeftWing,
            PlayerPosition::Center,
            PlayerPosition::LeftDefender,
        ],
        PlayerPosition::LeftDefender => seq![
            PlayerPosition::RightWing,
            PlayerPosition::LeftWing,
            PlayerPosition::Center,
            PlayerPosition::RightDefender,
        ],
    }
}

/// Law: a pass can never target the passer's own position — none of the four
/// alternative positions equals the one they exclude.
pub proof fn lemma_other_positions_ne(pos: PlayerPosition)
    ensures
        spec_other_positions(pos).len() == 4,
        forall|i: int| 0 <= i < 4 ==> #[trigger] spec_other_positions(pos)[i] != pos,
{
    let s = spec_other_positions(pos);
    assert forall|i: int| 0 <= i < 4 implies #[trigger] s[i] != pos by {
        match pos {
            PlayerPosition::RightWing => {},
            PlayerPosition::LeftWing => {},
            PlayerPosition::Center => {},
            PlayerPosition::RightDefender => {},
            PlayerPosition::LeftDefender => {},
        }
    }
}

/// The four positions a pass from `player_pos` can target.
pub fn get_other_positions(player_pos: PlayerPosition) -> (v: Vec<PlayerPosition>)
    ensures
        v@ == spec_other_positions(player_pos),
        v@.len() == 4,
{
    match player_pos {
        PlayerPosition::RightWing => vec![
            PlayerPosition::LeftWing,
            PlayerPosition::Center,
            PlayerPosition::RightDefender,
            PlayerPosition::LeftDefender,
        ],
        PlayerPosition::LeftWing => vec![
            PlayerPosition::RightWing,
            PlayerPosition::Center,
            PlayerPosition::RightDefender,
            PlayerPosition::LeftDefender,
        ],
        PlayerPosition::Center => vec![
            PlayerPosition::RightWing,
            PlayerPosition::LeftWing,
            PlayerPosition::RightDefender,
            PlayerPosition::LeftDefender,
        ],
        PlayerPosition::RightDefender => vec![
            PlayerPosition::RightWing,
            PlayerPosition::LeftWing,
            PlayerPosition::Center,
            PlayerPosition::LeftDefender,
        ],
        PlayerPosition::LeftDefender => vec![
            PlayerPosition::RightWing,
            PlayerPosition::LeftWing,
            PlayerPosition::Center,
            PlayerPosition::RightDefender,
        ],
    }
}

/// Pick one of the four other positions uniformly.
pub fn get_another_random_position(
    player_pos: PlayerPosition,
    rng: &mut rand::rngs::ThreadRng,
) -> (p: PlayerPosition)
    ensures
        p != player_pos,
        exists|i: int| 0 <= i < 4 && p == spec_other_positions(player_pos)[i],
{
    let player_positions = get_other_positions(player_pos);
    let random_pos = draw_in_range(rng, 0, 3);
    let p = player_positions[random_pos as usize];
    proof {
        lemma_other_positions_ne(player_pos);
    }
    p
}

/// The opposing goalie, read from the live roster.
pub fn get_opponents_goalie(game: &Game) -> (r: &Goalie)
    ensures
        *r == game.spec_opponent_goalie(),
{
    if game.puck_user_id == 1 {
        &game.user2.active_goalie
    } else {
        &game.user1.active_goalie
    }
}

/// The opposing field player at the puck holder's position, read from the
/// live roster.
pub fn get_opponents_field_player(game: &Game) -> (r: &FieldPlayer)
    ensures
        *r == game.spec_opponent_field_player(),
{
    if game.puck_user_id == 1 {
        game.user2.active_five.player_at(game.puck_position)
    } else {
        game.user1.active_five.player_at(game.puck_position)
    }
}

/// The puck holder, the defender opposite it and the opposing goalie are all
/// well formed in a well-formed match.
pub proof fn lemma_puck_players_wf(g: Game)
    requires
        g.wf(),
    ensures
        g.spec_player_with_puck().wf(),
        g.spec_opponent_field_player().wf(),
        g.spec_opponent_goalie().wf(),
{
    assert(g.user1.active_five.spec_player_at(g.puck_position).wf());
    assert(g.user2.active_five.spec_player_at(g.puck_position).wf());
}

/// The state after a turnover: the opposing side gains the puck at the same
/// position; zone, scores and rosters are untouched. A save after a shot
/// hands the puck over the same way.
pub open spec fn spec_turnover_state(g: Game) -> Game {
    Game { puck_user_id: spec_opponent_id(g.puck_user_id), pass_before_shot: false, ..g }
}

/// Hand the puck to the defending side at the current position.
fn turnover(game: &mut Game)
    ensures
        *final(game) == spec_turnover_state(*old(game)),
{
    let opponent: usize = if game.puck_user_id == 1 {
        2
    } else {
        1
    };
    game.puck_user_id = opponent;
    game.pass_before_shot = false;
}

/// Apply the outcome of a clean (mentally contested) pass attempt: on a won
/// contest the puck goes to the chosen one of the four other positions on
/// the same side; on a lost contest it is intercepted by the defender.
pub fn apply_clean_pass_outcome(game: &mut Game, passer_won: bool, target_idx: usize)
    requires
        old(game).wf(),
        target_idx < 4,
    ensures
        final(game).wf(),
        passer_won ==> *final(game) == (Game {
            puck_position: spec_other_positions(old(game).puck_position)[target_idx as int],
            pass_before_shot: true,
            ..*old(game)
        }),
        passer_won ==> final(game).puck_position != old(game).puck_position,
        !passer_won ==> *final(game) == spec_turnover_state(*old(game)),
{
    if passer_won {
        let others = get_other_positions(game.puck_position);
        let pass_to = others[target_idx];
        proof {
            lemma_other_positions_ne(game.puck_position);
        }
        game.puck_position = pass_to;
        game.pass_before_shot = true;
    } else {
        turnover(game);
    }
}

/// Apply the outcome of a rushed (strength contested) pass attempt: a won
/// contest leaves possession unchanged (the pass merely fails to advance); a
/// lost contest is a turnover to the defender.
pub fn apply_rushed_pass_outcome(game: &mut Game, passer_won: bool)
    requires
        old(game).wf(),
    ensures
        final(game).wf(),
        passer_won ==> *final(game) == (Game { pass_before_shot: false, ..*old(game) }),
        !passer_won ==> *final(game) == spec_turnover_state(*old(game)),
{
    if passer_won {
        game.pass_before_shot = false;
    } else {
        turnover(game);
    }
}

/// Whether a pass-branch draw from `[1, 100]` selects the clean branch: a
/// draw above the threshold does (80% of draws), the rest are rushed.
pub open spec fn spec_pass_is_clean(d100: u64) -> bool {
    d100 > PROBABILITY_PASS_NOT_HAPPENED
}

/// The passer's effective mental-sharpness rating in a clean pass contest.
pub open spec fn spec_pass_iq_rating(g: Game) -> int {
    spec_relative_stat(
        g.spec_player_with_puck().stats.iq * SCALE,
        g.spec_player_with_puck().stats.morale as int,
        g.spec_player_with_puck().stats.strength as int,
    )
}

/// The defender's effective mental-sharpness rating in a clean pass contest.
pub open spec fn spec_pass_defender_iq_rating(g: Game) -> int {
    spec_relative_stat(
        g.spec_opponent_field_player().stats.iq * SCALE,
        g.spec_opponent_field_player().stats.morale as int,
        g.spec_opponent_field_player().stats.strength as int,
    )
}

/// The passer's effective strength rating in a rushed pass contest.
pub open spec fn spec_pass_strength_rating(g: Game) -> int {
    spec_relative_stat(
        g.spec_player_with_puck().stats.strength as int,
        g.spec_player_with_puck().stats.morale as int,
        g.spec_player_with_puck().stats.strength as int,
    )
}

/// What one resolved pass does to the match: a draw from `[1, 100]` above
/// the rushed threshold contests the two mental-sharpness ratings — the
/// passer's win sends the puck to one of the four other positions, a loss is
/// an interception; a draw at or below the threshold contests the two
/// strength ratings — a win leaves possession unchanged, a loss is a
/// turnover.
pub open spec fn spec_pass_outcome(g: Game, g2: Game) -> bool {
    exists|d100: u64, d: u64, ti: int|
        #![trigger spec_pass_is_clean(d100), spec_contest(spec_pass_iq_rating(g), spec_pass_defender_iq_rating(g), d as int), spec_other_positions(g.puck_position)[ti]]
        1 <= d100 <= 100 && 0 <= ti < 4 && (if spec_pass_is_clean(d100) {
            1 <= d <= spec_pass_iq_rating(g) + spec_pass_defender_iq_rating(g) && g2 == (
            if spec_contest(spec_pass_iq_rating(g), spec_pass_defender_iq_rating(g), d as int) {
                Game {
                    puck_position: spec_other_positions(g.puck_position)[ti],
                    pass_before_shot: true,
                    ..g
                }
            } else {
                spec_turnover_state(g)
            })
        } else {
            1 <= d <= spec_pass_strength_rating(g) + spec_defender_strength_rating(g) && g2
                == (if spec_contest(
                spec_pass_strength_rating(g),
                spec_defender_strength_rating(g),
                d as int,
            ) {
                Game { pass_before_shot: false, ..g }
            } else {
                spec_turnover_state(g)
            })
        })
}

/// The pass resolver: an 80% clean branch contesting mental sharpness and a
/// 20% rushed branch contesting strength.
pub struct PassAction;

impl PassAction {
    /// Resolve one pass attempt. On success the rosters, zone and scores are
    /// untouched and possession either stays, moves to another position on
    /// the same side, or is turned over to the defender. A configuration
    /// error (both effective ratings zero) commits nothing.
    pub fn do_action(&self, game: &mut Game, rng: &mut rand::rngs::ThreadRng) -> (r: Result<
        (),
        EngineError,
    >)
        requires
            old(game).wf(),
        ensures
            final(game).wf(),
            r is Err ==> *final(game) == *old(game) && r == Err::<(), EngineError>(
                EngineError::Configuration,
            ),
            r is Err ==> (spec_pass_iq_rating(*old(game)) == 0 && spec_pass_defender_iq_rating(
                *old(game),
            ) == 0) || (spec_pass_strength_rating(*old(game)) == 0
                && spec_defender_strength_rating(*old(game)) == 0),
            !(spec_pass_iq_rating(*old(game)) == 0 && spec_pass_defender_iq_rating(*old(game))
                == 0) && !(spec_pass_strength_rating(*old(game)) == 0
                && spec_defender_strength_rating(*old(game)) == 0) ==> r is Ok,
            r is Ok ==> spec_pass_outcome(*old(game), *final(game)),
            r is Ok ==> final(game).user1 == old(game).user1 && final(game).user2 == old(
                game,
            ).user2 && final(game).zone_number == old(game).zone_number,
    {
        proof {
            lemma_puck_players_wf(*game);
        }
        let random_number = draw_in_range(rng, 1, 100);

        if random_number > PROBABILITY_PASS_NOT_HAPPENED {
            let player_stat = {
                let p = game.player_with_puck();
                get_relative_field_player_stat(p, p.stats.get_iq())
            };
            let opponent_stat = {
                let opponent = get_opponents_field_player(game);
                get_relative_field_player_stat(opponent, opponent.stats.get_iq())
            };
            match has_won(player_stat, opponent_stat, rng) {
                Err(e) => Err(e),
                Ok(won) => {
                    let target_draw = draw_in_range(rng, 0, 3);
                    apply_clean_pass_outcome(game, won, target_draw as usize);
                    proof {
                        let d: u64 = choose|d: u64|
                            1 <= d <= player_stat + opponent_stat && Ok::<bool, EngineError>(won)
                                == Ok::<bool, EngineError>(
                                spec_contest(player_stat as int, opponent_stat as int, d as int),
                            );
                        let ti: int = target_draw as int;
                        let _c: bool = spec_pass_is_clean(random_number);
                        let _pos: PlayerPosition = spec_other_positions(
                            old(game).puck_position,
                        )[ti];
                        assert(player_stat == spec_pass_iq_rating(*old(game)));
                        assert(opponent_stat == spec_pass_defender_iq_rating(*old(game)));
                        assert(spec_pass_is_clean(random_number) && 1 <= random_number <= 100
                            && 0 <= ti < 4 && 1 <= d <= spec_pass_iq_rating(*old(game))
                            + spec_pass_defender_iq_rating(*old(game)) && *game == (
                        if spec_contest(
                            spec_pass_iq_rating(*old(game)),
                            spec_pass_defender_iq_rating(*old(game)),
                            d as int,
                        ) {
                            Game {
                                puck_position: spec_other_positions(old(game).puck_position)[ti],
                                pass_before_shot: true,
                                ..*old(game)
                            }
                        } else {
                            spec_turnover_state(*old(game))
                        }));
                        assert(spec_pass_outcome(*old(game), *game));
                    }
                    Ok(())
                },
            }
        } else {
            let player_stat = {
                let p = game.player_with_puck();
                get_relative_strength_stat(p)
            };
            let opponent_stat = {
                let opponent = get_opponents_field_player(game);
                get_relative_strength_stat(opponent)
            };
            match has_won(player_stat, opponent_stat, rng) {
                Err(e) => Err(e),
                Ok(won) => {
                    apply_rushed_pass_outcome(game, won);
                    proof {
                        let d: u64 = choose|d: u64|
                            1 <= d <= player_stat + opponent_stat && Ok::<bool, EngineError>(won)
                                == Ok::<bool, EngineError>(
                                spec_contest(player_stat as int, opponent_stat as int, d as int),
                            );
                        let ti: int = 0;
                        let _c: bool = spec_pass_is_clean(random_number);
                        let _iq: bool = spec_contest(
                            spec_pass_iq_rating(*old(game)),
                            spec_pass_defender_iq_rating(*old(game)),
                            d as int,
                        );
                        let _pos: PlayerPosition = spec_other_positions(
                            old(game).puck_position,
                        )[ti];
                        assert(player_stat == spec_pass_strength_rating(*old(game)));
                        assert(opponent_stat == spec_defender_strength_rating(*old(game)));
                        assert(!spec_pass_is_clean(random_number) && 1 <= random_number <= 100
                            && 0 <= ti < 4 && 1 <= d <= spec_pass_strength_rating(*old(game))
                            + spec_defender_strength_rating(*old(game)) && *game == (
                        if spec_contest(
                            spec_pass_strength_rating(*old(game)),
                            spec_defender_strength_rating(*old(game)),
                            d as int,
                        ) {
                            Game { pass_before_shot: false, ..*old(game) }
                        } else {
                            spec_turnover_state(*old(game))
                        }));
                        assert(spec_pass_outcome(*old(game), *game));
                    }
                    Ok(())
                },
            }
        }
    }
}

/// A score one goal higher, capped at the counter's maximum so that a goal
/// can never make the engine abort.
pub open spec fn spec_saturating_inc(s: u8) -> u8 {
    if s == 255 {
        255u8
    } else {
        (s + 1) as u8
    }
}

fn saturating_inc(s: u8) -> (r: u8)
    ensures
        r == spec_saturating_inc(s),
{
    if s == 255 {
        255
    } else {
        s + 1
    }
}

/// The state after a goal: the scorer's side gains a point, play restarts in
/// the neutral zone, and the conceding side's center takes the puck.
pub open spec fn spec_goal_state(g: Game) -> Game {
    Game {
        user1: if g.puck_user_id == 1 {
            Team { score: spec_saturating_inc(g.user1.score), ..g.user1 }
        } else {
            g.user1
        },
        user2: if g.puck_user_id == 1 {
            g.user2
        } else {
            Team { score: spec_saturating_inc(g.user2.score), ..g.user2 }
        },
        zone_number: ZONE_MIDDLE,
        puck_user_id: spec_opponent_id(g.puck_user_id),
        puck_position: PlayerPosition::Center,
        pass_before_shot: false,
    }
}

/// Apply a shot's outcome: a goal on a won contest, a save (which hands the
/// puck to the defending side) on a lost one. Both outcomes are fully
/// handled; the restart rules are the orchestrator's.
pub fn apply_shot_outcome(game: &mut Game, shooter_won: bool)
    requires
        old(game).wf(),
    ensures
        final(game).wf(),
        shooter_won ==> *final(game) == spec_goal_state(*old(game)),
        !shooter_won ==> *final(game) == spec_turnover_state(*old(game)),
{
    if shooter_won {
        if game.puck_user_id == 1 {
            game.user1.score = saturating_inc(game.user1.score);
            game.puck_user_id = 2;
        } else {
            game.user2.score = saturating_inc(game.user2.score);
            game.puck_user_id = 1;
        }
        game.zone_number = ZONE_MIDDLE;
        game.puck_position = PlayerPosition::Center;
        game.pass_before_shot = false;
    } else {
        turnover(game);
    }
}

/// Which goalie stat pair a shot contests, summed: the positioning pair
/// (stand, stretch) when a pass preceded the shot, else the reflex pair
/// (glove-and-blocker, pads).
pub open spec fn spec_goalie_pair_sum(goalie: Goalie, pass_before_shot: bool) -> int {
    if pass_before_shot {
        goalie.stats.stand + goalie.stats.stretch
    } else {
        goalie.stats.glove_and_blocker + goalie.stats.pads
    }
}

/// The weight, in tenths, on the contested stat pair: the post-to-post
/// archetype takes the full weight on the pass-preceded (positioning) pair
/// and seven tenths otherwise; the other archetype is the inverse.
pub open spec fn spec_goalie_weight_tenths(role: GoalieRole, pass_before_shot: bool) -> int {
    if role == GoalieRole::Post2Post {
        if pass_before_shot {
            10
        } else {
            7
        }
    } else {
        if pass_before_shot {
            7
        } else {
            10
        }
    }
}

/// The goalie's effective rating for a shot, in fixed-point sub-units:
/// `((pair sum · weight) / 2 + morale) / 2`.
pub open spec fn spec_goalie_rating(goalie: Goalie, pass_before_shot: bool) -> int {
    (spec_goalie_pair_sum(goalie, pass_before_shot) * SCALE * spec_goalie_weight_tenths(
        goalie.role,
        pass_before_shot,
    ) / 20 + goalie.stats.morale * SCALE) / 2
}

/// The goalie's effective rating for a shot.
pub fn get_goalie_rating(goalie: &Goalie, pass_before_shot: bool) -> (r: u64)
    requires
        goalie.wf(),
    ensures
        r == spec_goalie_rating(*goalie, pass_before_shot),
        r <= MAX_RATING,
{
    let weight: u64 = if goalie.get_role() == GoalieRole::Post2Post {
        if pass_before_shot {
            10
        } else {
            7
        }
    } else {
        if pass_before_shot {
            7
        } else {
            10
        }
    };
    let pair_sum: u64 = if pass_before_shot {
        goalie.stats.get_stand() + goalie.stats.get_stretch()
    } else {
        goalie.stats.get_glove_and_blocker() + goalie.stats.get_pads()
    };
    (pair_sum * SCALE * weight / 20 + goalie.stats.get_morale() * SCALE) / 2
}

/// The shooter's effective rating in a shot contest.
pub open spec fn spec_shooter_rating(g: Game) -> int {
    spec_relative_stat(
        g.spec_player_with_puck().stats.shooting * SCALE,
        g.spec_player_with_puck().stats.morale as int,
        g.spec_player_with_puck().stats.strength as int,
    )
}

/// What one resolved shot does to the match: a contest draw between the
/// shooter's effective shooting rating and the goalie's weighted rating
/// decides between the goal state and the save (turnover) state.
pub open spec fn spec_shot_outcome(g: Game, g2: Game) -> bool {
    exists|d: u64|
        1 <= d <= spec_shooter_rating(g) + spec_goalie_rating(
            g.spec_opponent_goalie(),
            g.pass_before_shot,
        ) && g2 == (if spec_contest(
            spec_shooter_rating(g),
            spec_goalie_rating(g.spec_opponent_goalie(), g.pass_before_shot),
            d as int,
        ) {
            spec_goal_state(g)
        } else {
            spec_turnover_state(g)
        })
}

/// The shot resolver: shooter against the opposing goalie, with the goalie's
/// stat pair and weight chosen by the pass-preceded predicate and archetype.
pub struct ShotAction;

impl ShotAction {
    /// Resolve one shot. On success the state is the goal state or the save
    /// state decided by a contest draw; a configuration error commits
    /// nothing.
    pub fn do_action(&self, game: &mut Game, rng: &mut rand::rngs::ThreadRng) -> (r: Result<
        (),
        EngineError,
    >)
        requires
            old(game).wf(),
        ensures
            final(game).wf(),
            r is Err ==> *final(game) == *old(game) && r == Err::<(), EngineError>(
                EngineError::Configuration,
            ),
            r is Err <==> (spec_shooter_rating(*old(game)) == 0 && spec_goalie_rating(
                old(game).spec_opponent_goalie(),
                old(game).pass_before_shot,
            ) == 0),
            r is Ok ==> spec_shot_outcome(*old(game), *final(game)),
            r is Ok ==> final(game).user1.active_five == old(game).user1.active_five
                && final(game).user2.active_five == old(game).user2.active_five
                && final(game).user1.active_goalie == old(game).user1.active_goalie
                && final(game).user2.active_goalie == old(game).user2.active_goalie,
    {
        proof {
            lemma_puck_players_wf(*game);
        }
        let pass_before_shot = game.has_pass_before_shot();
        let player_stat = {
            let p = game.player_with_puck();
            get_relative_field_player_stat(p, p.stats.get_shooting())
        };
        let opponent_stat = {
            let goalie = get_opponents_goalie(game);
            get_goalie_rating(goalie, pass_before_shot)
        };
        match has_won(player_stat, opponent_stat, rng) {
            Err(e) => Err(e),
            Ok(won) => {
                apply_shot_outcome(game, won);
                proof {
                    let d = choose|d: u64|
                        1 <= d <= player_stat + opponent_stat && Ok::<bool, EngineError>(won)
                            == Ok::<bool, EngineError>(
                            spec_contest(player_stat as int, opponent_stat as int, d as int),
                        );
                    assert(1 <= d <= spec_shooter_rating(*old(game)) + spec_goalie_rating(
                        old(game).spec_opponent_goalie(),
                        old(game).pass_before_shot,
                    ) && *game == (if spec_contest(
                        spec_shooter_rating(*old(game)),
                        spec_goalie_rating(
                            old(game).spec_opponent_goalie(),
                            old(game).pass_before_shot,
                        ),
                        d as int,
                    ) {
                        spec_goal_state(*old(game))
                    } else {
                        spec_turnover_state(*old(game))
                    }));
                    assert(spec_shot_outcome(*old(game), *game));
                }
                Ok(())
            },
        }
    }
}

/// The zone one step toward the attacker's attack zone, saturating at the
/// boundary ordinals: the first side steps up toward the far zone, the
/// second steps down toward the near zone, and neither ever leaves the three
/// valid values.
pub open spec fn spec_shifted_zone(zone: u8, user_id: usize) -> u8 {
    if user_id == 1 {
        if zone >= ZONE_FAR {
            ZONE_FAR
        } else {
            (zone + 1) as u8
        }
    } else {
        if zone <= ZONE_NEAR {
            ZONE_NEAR
        } else {
            (zone - 1) as u8
        }
    }
}

/// Law: zone movement is a saturating step over the three ordinals — from
/// any valid zone, one step in either direction stays within them.
pub proof fn lemma_zone_clamped(zone: u8, user_id: usize)
    requires
        ZONE_NEAR <= zone <= ZONE_FAR,
    ensures
        ZONE_NEAR <= spec_shifted_zone(zone, user_id) <= ZONE_FAR,
{
}

/// The state after a won advance (move or dangle): the zone steps one toward
/// the attacker's attack zone; possession, scores and rosters are untouched.
pub open spec fn spec_advance_state(g: Game) -> Game {
    Game {
        zone_number: spec_shifted_zone(g.zone_number, g.puck_user_id),
        pass_before_shot: false,
        ..g
    }
}

/// Apply a move or dangle outcome: a won contest advances the zone (clamped
/// to the three ordinals), a lost one is a turnover to the defender.
pub fn apply_advance_outcome(game: &mut Game, attacker_won: bool)
    requires
        old(game).wf(),
    ensures
        final(game).wf(),
        attacker_won ==> *final(game) == spec_advance_state(*old(game)),
        !attacker_won ==> *final(game) == spec_turnover_state(*old(game)),
{
    if attacker_won {
        if game.puck_user_id == 1 {
            if game.zone_number < ZONE_FAR {
                game.zone_number = game.zone_number + 1;
            }
        } else {
            if game.zone_number > ZONE_NEAR {
                game.zone_number = game.zone_number - 1;
            }
        }
        game.pass_before_shot = false;
    } else {
        turnover(game);
    }
}

/// The attacker's effective skating rating in a move contest.
pub open spec fn spec_move_attack_rating(g: Game) -> int {
    spec_relative_stat(
        g.spec_player_with_puck().stats.skating * SCALE,
        g.spec_player_with_puck().stats.morale as int,
        g.spec_player_with_puck().stats.strength as int,
    )
}

/// The attacker's effective mental-sharpness rating in a dangle contest.
pub open spec fn spec_dangle_attack_rating(g: Game) -> int {
    spec_relative_stat(
        g.spec_player_with_puck().stats.iq * SCALE,
        g.spec_player_with_puck().stats.morale as int,
        g.spec_player_with_puck().stats.strength as int,
    )
}

/// The defender's effective strength rating, the defending side of every
/// move and dangle contest.
pub open spec fn spec_defender_strength_rating(g: Game) -> int {
    spec_relative_stat(
        g.spec_opponent_field_player().stats.strength as int,
        g.spec_opponent_field_player().stats.morale as int,
        g.spec_opponent_field_player().stats.strength as int,
    )
}

/// What one resolved move does to the match: a contest draw between the
/// attacker's skating rating and the defender's strength rating decides
/// between the advance state and the turnover state.
pub open spec fn spec_move_outcome(g: Game, g2: Game) -> bool {
    exists|d: u64|
        1 <= d <= spec_move_attack_rating(g) + spec_defender_strength_rating(g) && g2 == (
        if spec_contest(spec_move_attack_rating(g), spec_defender_strength_rating(g), d as int) {
            spec_advance_state(g)
        } else {
            spec_turnover_state(g)
        })
}

/// What one resolved dangle does to the match: as a move, but the attacking
/// rating is mental sharpness.
pub open spec fn spec_dangle_outcome(g: Game, g2: Game) -> bool {
    exists|d: u64|
        1 <= d <= spec_dangle_attack_rating(g) + spec_defender_strength_rating(g) && g2 == (
        if spec_contest(
            spec_dangle_attack_rating(g),
            spec_defender_strength_rating(g),
            d as int,
        ) {
            spec_advance_state(g)
        } else {
            spec_turnover_state(g)
        })
}

/// The move resolver: skating against the defender's strength.
pub struct MoveAction;

impl MoveAction {
    /// Resolve one move. On success the state is the advance state or the
    /// turnover state decided by a contest draw; a configuration error
    /// commits nothing.
    pub fn do_action(&self, game: &mut Game, rng: &mut rand::rngs::ThreadRng) -> (r: Result<
        (),
        EngineError,
    >)
        requires
            old(game).wf(),
        ensures
            final(game).wf(),
            r is Err ==> *final(game) == *old(game) && r == Err::<(), EngineError>(
                EngineError::Configuration,
            ),
            r is Err <==> (spec_move_attack_rating(*old(game)) == 0
                && spec_defender_strength_rating(*old(game)) == 0),
            r is Ok ==> spec_move_outcome(*old(game), *final(game)),
            r is Ok ==> final(game).user1 == old(game).user1 && final(game).user2 == old(
                game,
            ).user2,
    {
        proof {
            lemma_puck_players_wf(*game);
        }
        let player_stat = {
            let p = game.player_with_puck();
            get_relative_field_player_stat(p, p.stats.get_skating())
        };
        let opponent_stat = {
            let opponent = get_opponents_field_player(game);
            get_relative_strength_stat(opponent)
        };
        match has_won(player_stat, opponent_stat, rng) {
            Err(e) => Err(e),
            Ok(won) => {
                apply_advance_outcome(game, won);
                proof {
                    let d = choose|d: u64|
                        1 <= d <= player_stat + opponent_stat && Ok::<bool, EngineError>(won)
                            == Ok::<bool, EngineError>(
                            spec_contest(player_stat as int, opponent_stat as int, d as int),
                        );
                    assert(1 <= d <= spec_move_attack_rating(*old(game))
                        + spec_defender_strength_rating(*old(game)) && *game == (if spec_contest(
                        spec_move_attack_rating(*old(game)),
                        spec_defender_strength_rating(*old(game)),
                        d as int,
                    ) {
                        spec_advance_state(*old(game))
                    } else {
                        spec_turnover_state(*old(game))
                    }));
                    assert(spec_move_outcome(*old(game), *game));
                }
                Ok(())
            },
        }
    }
}

/// The dangle resolver: mental sharpness against the defender's strength.
pub struct DangleAction;

impl DangleAction {
    /// Resolve one dangle. On success the state is the advance state or the
    /// turnover state decided by a contest draw; a configuration error
    /// commits nothing.
    pub fn do_action(&self, game: &mut Game, rng: &mut rand::rngs::ThreadRng) -> (r: Result<
        (),
        EngineError,
    >)
        requires
            old(game).wf(),
        ensures
            final(game).wf(),
            r is Err ==> *final(game) == *old(game) && r == Err::<(), EngineError>(
                EngineError::Configuration,
            ),
            r is Err <==> (spec_dangle_attack_rating(*old(game)) == 0
                && spec_defender_strength_rating(*old(game)) == 0),
            r is Ok ==> spec_dangle_outcome(*old(game), *final(game)),
            r is Ok ==> final(game).user1 == old(game).user1 && final(game).user2 == old(
                game,
            ).user2,
    {
        proof {
            lemma_puck_players_wf(*game);
        }
        let player_stat = {
            let p = game.player_with_puck();
            get_relative_field_player_stat(p, p.stats.get_iq())
        };
        let opponent_stat = {
            let opponent = get_opponents_field_player(game);
            get_relative_strength_stat(opponent)
        };
        match has_won(player_stat, opponent_stat, rng) {
            Err(e) => Err(e),
            Ok(won) => {
                apply_advance_outcome(game, won);
                proof {
                    let d = choose|d: u64|
                        1 <= d <= player_stat + opponent_stat && Ok::<bool, EngineError>(won)
                            == Ok::<bool, EngineError>(
                            spec_contest(player_stat as int, opponent_stat as int, d as int),
                        );
                    assert(1 <= d <= spec_dangle_attack_rating(*old(game))
                        + spec_defender_strength_rating(*old(game)) && *game == (if spec_contest(
                        spec_dangle_attack_rating(*old(game)),
                        spec_defender_strength_rating(*old(game)),
                        d as int,
                    ) {
                        spec_advance_state(*old(game))
                    } else {
                        spec_turnover_state(*old(game))
                    }));
                    assert(spec_dangle_outcome(*old(game), *game));
                }
                Ok(())
            },
        }
    }
}

/// What the resolver for a given action kind does to the match on success.
/// The selector never chooses a battle, so no state is a battle outcome.
pub open spec fn spec_action_outcome(a: ActionTypes, g: Game, g2: Game) -> bool {
    match a {
        ActionTypes::Pass => spec_pass_outcome(g, g2),
        ActionTypes::Shot => spec_shot_outcome(g, g2),
        ActionTypes::Move => spec_move_outcome(g, g2),
        ActionTypes::Dangle => spec_dangle_outcome(g, g2),
        ActionTypes::Battle => false,
    }
}

/// Whether the contest a given action kind would run has a zero combined
/// rating — the one configuration error a resolver can surface. For a pass
/// it depends on which branch the draw selects, so either pair being all
/// zero counts.
pub open spec fn spec_action_pair_zero(a: ActionTypes, g: Game) -> bool {
    match a {
        ActionTypes::Pass => (spec_pass_iq_rating(g) == 0 && spec_pass_defender_iq_rating(g)
            == 0) || (spec_pass_strength_rating(g) == 0 && spec_defender_strength_rating(g)
            == 0),
        ActionTypes::Shot => spec_shooter_rating(g) == 0 && spec_goalie_rating(
            g.spec_opponent_goalie(),
            g.pass_before_shot,
        ) == 0,
        ActionTypes::Move => spec_move_attack_rating(g) == 0 && spec_defender_strength_rating(g)
            == 0,
        ActionTypes::Dangle => spec_dangle_attack_rating(g) == 0
            && spec_defender_strength_rating(g) == 0,
        ActionTypes::Battle => false,
    }
}

/// Two players that agree on everything but the strength attribute.
pub open spec fn spec_same_player_but_strength(p: FieldPlayer, q: FieldPlayer) -> bool {
    q == (FieldPlayer {
        stats: FieldPlayerStats { strength: q.stats.strength, ..p.stats },
        ..p
    })
}

/// Two fives that agree on everything but their players' strength.
pub open spec fn spec_same_five_but_strength(f: Five, f2: Five) -> bool {
    &&& spec_same_player_but_strength(f.right_wing, f2.right_wing)
    &&& spec_same_player_but_strength(f.left_wing, f2.left_wing)
    &&& spec_same_player_but_strength(f.center, f2.center)
    &&& spec_same_player_but_strength(f.right_defender, f2.right_defender)
    &&& spec_same_player_but_strength(f.left_defender, f2.left_defender)
    &&& f2.number == f.number
    &&& f2.ice_time_priority == f.ice_time_priority
    &&& f2.time_field == f.time_field
}

/// What a resolved action may never touch: both goalies, and every field
/// player's identity, positions, role and fixed attributes (skating,
/// shooting, mental sharpness, morale). Only possession, zone, scores and
/// strength are the engine's to change.
pub open spec fn spec_preserves_fixed_state(g: Game, g2: Game) -> bool {
    &&& g2.user1.active_goalie == g.user1.active_goalie
    &&& g2.user2.active_goalie == g.user2.active_goalie
    &&& spec_same_five_but_strength(g.user1.active_five, g2.user1.active_five)
    &&& spec_same_five_but_strength(g.user2.active_five, g2.user2.active_five)
}

/// Fatigue decay touches nothing but strength.
pub proof fn lemma_decay_preserves_fixed(g: Game)
    ensures
        spec_preserves_fixed_state(g, spec_decay_game(g)),
{
}

/// Agreeing on everything but strength is transitive.
pub proof fn lemma_same_five_but_strength_trans(a: Five, b: Five, c: Five)
    requires
        spec_same_five_but_strength(a, b),
        spec_same_five_but_strength(b, c),
    ensures
        spec_same_five_but_strength(a, c),
{
}

/// Numerator of the per-action strength decay factor: with `q = 0.99` and
/// `n = 20`, every resolved action multiplies strength by
/// `q^(n-1) ≈ 0.8262`, held here as `8262 / 10000` in fixed point.
pub const DECAY_NUM: u64 = 8_262;

/// Denominator of the per-action strength decay factor.
pub const DECAY_DEN: u64 = 10_000;

/// A strength value after one action's decay: multiplied by the decay
/// factor and floored at the positive minimum so no contest ever sees a
/// degenerate zero strength.
pub open spec fn spec_decayed_strength(s: int) -> int {
    let d = (s * (DECAY_NUM as int)) / (DECAY_DEN as int);
    if d < MIN_STRENGTH {
        MIN_STRENGTH as int
    } else {
        d
    }
}

/// Decay shrinks a bounded strength and keeps it within bounds.
pub proof fn lemma_decay_bounds(s: u64)
    requires
        MIN_STRENGTH <= s,
    ensures
        MIN_STRENGTH <= spec_decayed_strength(s as int) <= s,
{
    lemma_div_is_ordered(
        (s as int) * (DECAY_NUM as int),
        (s as int) * (DECAY_DEN as int),
        DECAY_DEN as int,
    );
    lemma_div_multiples_vanish(s as int, DECAY_DEN as int);
}

/// One player after fatigue decay: only strength changes.
pub open spec fn spec_decay_player(p: FieldPlayer) -> FieldPlayer {
    FieldPlayer {
        stats: FieldPlayerStats {
            strength: spec_decayed_strength(p.stats.strength as int) as u64,
            ..p.stats
        },
        ..p
    }
}

/// Law: fatigue decay is monotonically non-increasing and never drops below
/// the positive floor, so strength can never become zero or negative.
pub proof fn lemma_decay_monotone(p: FieldPlayer)
    requires
        p.stats.wf(),
    ensures
        spec_decay_player(p).stats.strength <= p.stats.strength,
        MIN_STRENGTH <= spec_decay_player(p).stats.strength,
        spec_decay_player(p).stats.wf(),
{
    lemma_decay_bounds(p.stats.strength);
}

/// A five after fatigue decay, slot by slot.
pub open spec fn spec_decay_five(f: Five) -> Five {
    Five {
        right_wing: spec_decay_player(f.right_wing),
        left_wing: spec_decay_player(f.left_wing),
        center: spec_decay_player(f.center),
        right_defender: spec_decay_player(f.right_defender),
        left_defender: spec_decay_player(f.left_defender),
        ..f
    }
}

/// A decayed five stays well formed: positions and sides are untouched and
/// every strength stays within bounds.
pub proof fn lemma_decay_five_wf(f: Five, user_id: usize)
    requires
        f.wf(user_id),
    ensures
        spec_decay_five(f).wf(user_id),
{
    let g = spec_decay_five(f);
    assert(f.spec_player_at(PlayerPosition::RightWing).wf());
    assert(f.spec_player_at(PlayerPosition::LeftWing).wf());
    assert(f.spec_player_at(PlayerPosition::Center).wf());
    assert(f.spec_player_at(PlayerPosition::RightDefender).wf());
    assert(f.spec_player_at(PlayerPosition::LeftDefender).wf());
    lemma_decay_bounds(f.right_wing.stats.strength);
    lemma_decay_bounds(f.left_wing.stats.strength);
    lemma_decay_bounds(f.center.stats.strength);
    lemma_decay_bounds(f.right_defender.stats.strength);
    lemma_decay_bounds(f.left_defender.stats.strength);
    assert forall|pos: PlayerPosition|
        #[trigger] g.spec_player_at(pos).wf() && g.spec_player_at(pos).position == pos
            && g.spec_player_at(pos).user_id == user_id by {
        match pos {
            PlayerPosition::RightWing => {},
            PlayerPosition::LeftWing => {},
            PlayerPosition::Center => {},
            PlayerPosition::RightDefender => {},
            PlayerPosition::LeftDefender => {},
        }
    }
}

/// The whole match after fatigue decay: both fives decay, goalies, scores,
/// zone and possession are untouched.
pub open spec fn spec_decay_game(g: Game) -> Game {
    Game {
        user1: Team { active_five: spec_decay_five(g.user1.active_five), ..g.user1 },
        user2: Team { active_five: spec_decay_five(g.user2.active_five), ..g.user2 },
        ..g
    }
}

/// One field player's strength after one action's decay.
fn decay_player(p: &mut FieldPlayer)
    requires
        old(p).stats.wf(),
    ensures
        *final(p) == spec_decay_player(*old(p)),
{
    proof {
        lemma_decay_bounds(p.stats.strength);
    }
    let d = (p.stats.strength * DECAY_NUM) / DECAY_DEN;
    p.stats.strength = if d < MIN_STRENGTH {
        MIN_STRENGTH
    } else {
        d
    };
}

/// One five's strength after one action's decay.
fn decay_five(f: &mut Five)
    requires
        old(f).right_wing.stats.wf(),
        old(f).left_wing.stats.wf(),
        old(f).center.stats.wf(),
        old(f).right_defender.stats.wf(),
        old(f).left_defender.stats.wf(),
    ensures
        *final(f) == spec_decay_five(*old(f)),
{
    decay_player(&mut f.right_wing);
    decay_player(&mut f.left_wing);
    decay_player(&mut f.center);
    decay_player(&mut f.right_defender);
    decay_player(&mut f.left_defender);
}

/// Post-action attrition: every field player's strength on both sides is
/// multiplied by the decay factor (goalies excluded), cumulatively per
/// resolved action.
pub fn reduce_strength(game: &mut Game)
    requires
        old(game).wf(),
    ensures
        *final(game) == spec_decay_game(*old(game)),
        final(game).wf(),
{
    proof {
        lemma_five_slots_wf(game.user1.active_five, 1);
        lemma_five_slots_wf(game.user2.active_five, 2);
        lemma_decay_five_wf(game.user1.active_five, 1);
        lemma_decay_five_wf(game.user2.active_five, 2);
    }
    decay_five(&mut game.user1.active_five);
    decay_five(&mut game.user2.active_five);
}

/// Unfolds a well-formed five into facts about its five named slots.
pub proof fn lemma_five_slots_wf(f: Five, user_id: usize)
    requires
        f.wf(user_id),
    ensures
        f.right_wing.stats.wf(),
        f.left_wing.stats.wf(),
        f.center.stats.wf(),
        f.right_defender.stats.wf(),
        f.left_defender.stats.wf(),
{
    assert(f.spec_player_at(PlayerPosition::RightWing).wf());
    assert(f.spec_player_at(PlayerPosition::LeftWing).wf());
    assert(f.spec_player_at(PlayerPosition::Center).wf());
    assert(f.spec_player_at(PlayerPosition::RightDefender).wf());
    assert(f.spec_player_at(PlayerPosition::LeftDefender).wf());
}

/// Law: every role's preference vector is a permutation of `{1, 2, 3, 4}` —
/// each rank is in range and no two action kinds share a rank.
pub proof fn lemma_role_ranks_permutation(role: PlayerRole)
    ensures
        1 <= spec_pass_rank(role) <= 4,
        1 <= spec_shot_rank(role) <= 4,
        1 <= spec_move_rank(role) <= 4,
        1 <= spec_dangle_rank(role) <= 4,
        spec_pass_rank(role) != spec_shot_rank(role),
        spec_pass_rank(role) != spec_move_rank(role),
        spec_pass_rank(role) != spec_dangle_rank(role),
        spec_shot_rank(role) != spec_move_rank(role),
        spec_shot_rank(role) != spec_dangle_rank(role),
        spec_move_rank(role) != spec_dangle_rank(role),
{
}

} // verus!
