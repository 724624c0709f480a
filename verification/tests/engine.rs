use hockey::action::{
    apply_advance_outcome, apply_clean_pass_outcome, apply_rushed_pass_outcome,
    apply_shot_outcome, get_another_random_position, get_goalie_rating, get_opponents_field_player,
    get_opponents_goalie, get_other_positions, reduce_strength, Action, ActionTypes,
};
use hockey::contest::{contest, get_relative_field_player_stat, has_won};
use hockey::game::{Game, ZONE_FAR, ZONE_MIDDLE, ZONE_NEAR};
use hockey::player::{
    FieldPlayer, FieldPlayerStats, Goalie, GoalieRole, GoalieStats, PlayerPosition, PlayerRole,
    MIN_STRENGTH, SCALE,
};
use hockey::team::{Five, Fives, Goalies, IceTimePriority, Team};
use hockey::EngineError;

fn mk_player(pos: PlayerPosition, role: PlayerRole, user_id: usize) -> FieldPlayer {
    let stats = FieldPlayerStats::new(70, 80, 100 * SCALE, 60, 50);
    FieldPlayer::new(pos, pos, role, user_id, stats)
}

fn mk_five(user_id: usize) -> Five {
    Five {
        right_wing: mk_player(PlayerPosition::RightWing, PlayerRole::Shooter, user_id),
        left_wing: mk_player(PlayerPosition::LeftWing, PlayerRole::TryHarder, user_id),
        center: mk_player(PlayerPosition::Center, PlayerRole::Passer, user_id),
        right_defender: mk_player(PlayerPosition::RightDefender, PlayerRole::Rock, user_id),
        left_defender: mk_player(PlayerPosition::LeftDefender, PlayerRole::Goon, user_id),
        number: Fives::First,
        ice_time_priority: IceTimePriority::Normal,
        time_field: 0,
    }
}

fn mk_goalie(role: GoalieRole) -> Goalie {
    Goalie::new(role, GoalieStats::new(80, 60, 70, 65, 50))
}

fn mk_game() -> Game {
    let team1 = Team::new(mk_five(1), mk_goalie(GoalieRole::Post2Post));
    let team2 = Team::new(mk_five(2), mk_goalie(GoalieRole::Butterfly));
    Game::new(team1, team2, ZONE_MIDDLE, 1, PlayerPosition::Center)
}

#[test]
fn role_vectors_are_permutations() {
    let roles = [
        PlayerRole::Passer,
        PlayerRole::Professor,
        PlayerRole::Shooter,
        PlayerRole::ToughGuy,
        PlayerRole::TryHarder,
        PlayerRole::Goon,
        PlayerRole::Dangler,
        PlayerRole::Rock,
    ];
    let action = Action;
    for role in roles.iter() {
        let v = action.get_probability_of_actions(*role);
        assert_eq!(v.len(), 4);
        let mut sorted = v.clone();
        sorted.sort();
        assert_eq!(sorted, vec![1u8, 2u8, 3u8, 4u8]);
    }
}

#[test]
fn paired_roles_share_one_vector() {
    let action = Action;
    let pairs = [
        (PlayerRole::Passer, PlayerRole::Professor),
        (PlayerRole::Shooter, PlayerRole::ToughGuy),
        (PlayerRole::TryHarder, PlayerRole::Goon),
        (PlayerRole::Dangler, PlayerRole::Rock),
    ];
    for (a, b) in pairs.iter() {
        assert_eq!(
            action.get_probability_of_actions(*a),
            action.get_probability_of_actions(*b)
        );
    }
}

#[test]
fn contest_wins_on_exactly_its_share_of_draws() {
    for (a, b) in [(30u64, 70u64), (70, 30), (1, 1), (5, 3), (1, 0), (0, 1)].iter() {
        let mut wins = 0u64;
        for d in 1..=(a + b) {
            if contest(*a, *b, d) == Ok(true) {
                wins += 1;
            }
        }
        assert_eq!(wins, *a);
    }
}

#[test]
fn contest_empirical_frequency_tracks_the_shares() {
    let mut rng = rand::rng();
    let trials = 20_000u64;
    let mut wins = 0u64;
    for _ in 0..trials {
        if has_won(30, 70, &mut rng) == Ok(true) {
            wins += 1;
        }
    }
    let freq = wins as f64 / trials as f64;
    assert!((freq - 0.3).abs() < 0.02, "win frequency {} too far from 0.3", freq);
}

#[test]
fn contest_with_zero_combined_rating_is_a_configuration_error() {
    assert_eq!(contest(0, 0, 1), Err(EngineError::Configuration));
    let mut rng = rand::rng();
    assert_eq!(has_won(0, 0, &mut rng), Err(EngineError::Configuration));
    // One-sided zero ratings still resolve.
    assert_eq!(has_won(5, 0, &mut rng), Ok(true));
    assert_eq!(has_won(0, 5, &mut rng), Ok(false));
}

#[test]
fn effective_rating_normalizes_against_morale_and_strength() {
    let p = mk_player(PlayerPosition::Center, PlayerRole::Passer, 1);
    // (90 + 50 + 100) / 3 rating points, in fixed-point sub-units.
    assert_eq!(get_relative_field_player_stat(&p, 90), 800_000);
}

#[test]
fn goalie_rating_weights_the_right_pair() {
    let goalie = Goalie::new(GoalieRole::Post2Post, GoalieStats::new(80, 60, 70, 65, 50));
    // Pass before shot: positioning pair at full weight.
    // ((80 + 60) * 10 / 20 + 50) / 2 rating points = 60 points.
    assert_eq!(get_goalie_rating(&goalie, true), 600_000);
    // No pass: reflex pair at seven tenths.
    // ((70 + 65) * 7 / 20 + 50) / 2 in fixed point.
    let expected = ((70u64 + 65) * SCALE * 7 / 20 + 50 * SCALE) / 2;
    assert_eq!(get_goalie_rating(&goalie, false), expected);
}

#[test]
fn fatigue_decay_is_monotone_and_positive() {
    let mut game = mk_game();
    let before = game.user1.active_five.center.stats.get_strength();
    reduce_strength(&mut game);
    let after = game.user1.active_five.center.stats.get_strength();
    // 1_000_000 * 8262 / 10000, exactly.
    assert_eq!(before, 1_000_000);
    assert_eq!(after, 826_200);
    let mut prev = after;
    for _ in 0..200 {
        reduce_strength(&mut game);
        let s = game.user1.active_five.center.stats.get_strength();
        assert!(s <= prev);
        assert!(s >= MIN_STRENGTH);
        prev = s;
    }
    // Every field player on both sides decays; goalies do not.
    assert!(game.user2.active_five.left_defender.stats.get_strength() < 1_000_000);
    assert_eq!(game.user1.active_goalie.stats.get_stand(), 80);
}

#[test]
fn zone_stays_within_its_three_ordinals() {
    // Side one advancing from its attack boundary stays at the far zone.
    let mut game = mk_game();
    game.zone_number = ZONE_FAR;
    for _ in 0..5 {
        apply_advance_outcome(&mut game, true);
        assert_eq!(game.zone_number, ZONE_FAR);
    }
    // Side two advancing from its attack boundary stays at the near zone.
    let mut game = mk_game();
    game.zone_number = ZONE_NEAR;
    game.give_puck_to(2, PlayerPosition::Center);
    for _ in 0..5 {
        apply_advance_outcome(&mut game, true);
        assert_eq!(game.zone_number, ZONE_NEAR);
    }
}

#[test]
fn advance_steps_toward_the_attack_zone() {
    let mut game = mk_game();
    assert_eq!(game.zone_number, ZONE_MIDDLE);
    apply_advance_outcome(&mut game, true);
    assert_eq!(game.zone_number, ZONE_FAR);
    let mut game = mk_game();
    game.give_puck_to(2, PlayerPosition::LeftWing);
    apply_advance_outcome(&mut game, true);
    assert_eq!(game.zone_number, ZONE_NEAR);
}

#[test]
fn lost_advance_is_a_turnover() {
    let mut game = mk_game();
    apply_advance_outcome(&mut game, false);
    assert_eq!(game.puck_user_id, 2);
    assert_eq!(game.puck_position, PlayerPosition::Center);
    assert_eq!(game.zone_number, ZONE_MIDDLE);
}

#[test]
fn other_positions_never_include_the_current_one() {
    let positions = [
        PlayerPosition::RightWing,
        PlayerPosition::LeftWing,
        PlayerPosition::Center,
        PlayerPosition::RightDefender,
        PlayerPosition::LeftDefender,
    ];
    for pos in positions.iter() {
        let others = get_other_positions(*pos);
        assert_eq!(others.len(), 4);
        assert!(!others.contains(pos));
    }
    let mut rng = rand::rng();
    for _ in 0..100 {
        let p = get_another_random_position(PlayerPosition::Center, &mut rng);
        assert_ne!(p, PlayerPosition::Center);
    }
}

#[test]
fn selector_pass_archetype_falls_through_to_pass() {
    // Ranks [pass=4, shot=1, move=3, dangle=2], not attack zone, slot 0
    // (distribution value 1): dangle and move checks both miss.
    let a = Action;
    assert_eq!(
        a.select_action(false, PlayerRole::Passer, 0),
        ActionTypes::Pass
    );
}

#[test]
fn selector_shot_archetype_hits_shot_in_attack_zone() {
    // Ranks [pass=2, shot=4, move=1, dangle=3], attack zone, slot 6
    // (distribution value 4): the shot check matches.
    let a = Action;
    assert_eq!(
        a.select_action(true, PlayerRole::Shooter, 6),
        ActionTypes::Shot
    );
}

#[test]
fn selector_dangle_archetype_hits_dangle_outside_attack_zone() {
    // Ranks [pass=1, shot=3, move=2, dangle=4], not attack zone, slot 9
    // (distribution value 4): the dangle check matches.
    let a = Action;
    assert_eq!(
        a.select_action(false, PlayerRole::Dangler, 9),
        ActionTypes::Dangle
    );
}

#[test]
fn selector_shot_is_unreachable_outside_attack_zone() {
    let a = Action;
    for slot in 0..=9u64 {
        let chosen = a.select_action(false, PlayerRole::Shooter, slot);
        assert_ne!(chosen, ActionTypes::Shot);
    }
    for slot in 0..=9u64 {
        let chosen = a.select_action(true, PlayerRole::Dangler, slot);
        assert!(chosen == ActionTypes::Pass || chosen == ActionTypes::Shot);
    }
}

#[test]
fn rushed_pass_loss_transfers_possession_and_win_keeps_it() {
    // The rushed branch (a draw of 15, at most 20, selects it): losing the
    // strength contest hands the puck to the defender.
    let mut game = mk_game();
    apply_rushed_pass_outcome(&mut game, false);
    assert_eq!(game.puck_user_id, 2);
    assert_eq!(game.puck_position, PlayerPosition::Center);
    // Winning it leaves possession unchanged.
    let mut game = mk_game();
    apply_rushed_pass_outcome(&mut game, true);
    assert_eq!(game.puck_user_id, 1);
    assert_eq!(game.puck_position, PlayerPosition::Center);
}

#[test]
fn clean_pass_reaches_a_different_position_on_the_same_side() {
    for idx in 0..4usize {
        let mut game = mk_game();
        apply_clean_pass_outcome(&mut game, true, idx);
        assert_eq!(game.puck_user_id, 1);
        assert_ne!(game.puck_position, PlayerPosition::Center);
        let expected = get_other_positions(PlayerPosition::Center)[idx];
        assert_eq!(game.puck_position, expected);
        assert!(game.pass_before_shot);
    }
    let mut game = mk_game();
    apply_clean_pass_outcome(&mut game, false, 0);
    assert_eq!(game.puck_user_id, 2);
    assert_eq!(game.puck_position, PlayerPosition::Center);
}

#[test]
fn goal_scores_and_restarts_at_center() {
    let mut game = mk_game();
    apply_shot_outcome(&mut game, true);
    assert_eq!(game.user1.score, 1);
    assert_eq!(game.user2.score, 0);
    assert_eq!(game.zone_number, ZONE_MIDDLE);
    assert_eq!(game.puck_user_id, 2);
    assert_eq!(game.puck_position, PlayerPosition::Center);
    assert!(!game.pass_before_shot);
}

#[test]
fn save_hands_the_puck_to_the_defending_side() {
    let mut game = mk_game();
    game.zone_number = ZONE_FAR;
    apply_shot_outcome(&mut game, false);
    assert_eq!(game.user1.score, 0);
    assert_eq!(game.user2.score, 0);
    assert_eq!(game.puck_user_id, 2);
    assert_eq!(game.zone_number, ZONE_FAR);
}

#[test]
fn score_saturates_instead_of_overflowing() {
    let mut game = mk_game();
    game.user1.score = 255;
    apply_shot_outcome(&mut game, true);
    assert_eq!(game.user1.score, 255);
}

#[test]
fn opponent_lookups_read_the_live_roster() {
    let game = mk_game();
    let defender = get_opponents_field_player(&game);
    assert_eq!(defender.get_user_id(), 2);
    assert_eq!(defender.get_player_position(), PlayerPosition::Center);
    let goalie = get_opponents_goalie(&game);
    assert_eq!(goalie.get_role(), GoalieRole::Butterfly);
}

#[test]
fn resolved_actions_keep_the_match_well_formed() {
    let mut game = mk_game();
    let mut rng = rand::rng();
    for _ in 0..300 {
        let r = Action.do_random_action(&mut game, &mut rng);
        assert!(r.is_ok());
        assert!(game.is_well_formed());
        assert!(game.zone_number >= ZONE_NEAR && game.zone_number <= ZONE_FAR);
        assert!(game.puck_user_id == 1 || game.puck_user_id == 2);
    }
    // Decay ran after every action.
    assert!(game.user1.active_five.center.stats.get_strength() < 1_000_000);
}

#[test]
fn roster_enums_cover_their_variants() {
    assert_ne!(Goalies::MainGoalkeeper, Goalies::SubstituteGoalkeeper);
    assert_ne!(Fives::First, Fives::Fourth);
    assert_ne!(
        IceTimePriority::SuperLowPriority,
        IceTimePriority::SuperHighPriority
    );
}

#[test]
fn zero_rated_match_surfaces_the_configuration_error() {
    // Minimal stats: every effective rating rounds to zero, so whichever
    // action the selector picks, its contest has an empty draw range.
    let zero_stats = FieldPlayerStats::new(0, 0, MIN_STRENGTH, 0, 0);
    let zero_player = |pos: PlayerPosition, user_id: usize| {
        FieldPlayer::new(pos, pos, PlayerRole::Passer, user_id, zero_stats)
    };
    let zero_five = |user_id: usize| Five {
        right_wing: zero_player(PlayerPosition::RightWing, user_id),
        left_wing: zero_player(PlayerPosition::LeftWing, user_id),
        center: zero_player(PlayerPosition::Center, user_id),
        right_defender: zero_player(PlayerPosition::RightDefender, user_id),
        left_defender: zero_player(PlayerPosition::LeftDefender, user_id),
        number: Fives::First,
        ice_time_priority: IceTimePriority::Normal,
        time_field: 0,
    };
    let zero_goalie = Goalie::new(GoalieRole::Post2Post, GoalieStats::new(0, 0, 0, 0, 0));
    let mut game = Game::new(
        Team::new(zero_five(1), zero_goalie),
        Team::new(zero_five(2), zero_goalie),
        ZONE_MIDDLE,
        1,
        PlayerPosition::Center,
    );
    let before = game;
    let mut rng = rand::rng();
    for _ in 0..50 {
        let r = Action.do_random_action(&mut game, &mut rng);
        assert_eq!(r, Err(EngineError::Configuration));
        // Atomicity: no partial mutation was committed.
        assert_eq!(game, before);
    }
}
