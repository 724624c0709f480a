use hockey::nft::Contract;
use hockey::stats::{
    GameConfig, GameConfigOutput, Hockey, Stats, UpdateStatsAction, VGameConfig, VStats,
};

#[test]
fn fresh_stats_are_zeroed() {
    let s = Stats::new();
    assert_eq!(s.referrer_id, None);
    assert!(s.affiliates.is_empty());
    assert_eq!(s.games_num, 0);
    assert_eq!(s.victories_num, 0);
    assert_eq!(s.penalties_num, 0);
    assert_eq!(s.total_reward, 0);
    assert_eq!(s.total_affiliate_reward, 0);
}

#[test]
fn each_action_moves_exactly_its_counter() {
    let mut s = Stats::new();
    s.update(UpdateStatsAction::AddPlayedGame, None, None);
    assert_eq!(s.games_num, 1);
    s.update(UpdateStatsAction::AddWonGame, None, None);
    assert_eq!(s.victories_num, 1);
    s.update(UpdateStatsAction::AddPenaltyGame, None, None);
    assert_eq!(s.penalties_num, 1);
    s.update(UpdateStatsAction::AddTotalReward, None, Some(40));
    s.update(UpdateStatsAction::AddTotalReward, None, Some(2));
    assert_eq!(s.total_reward, 42);
    s.update(UpdateStatsAction::AddAffiliateReward, None, Some(7));
    assert_eq!(s.total_affiliate_reward, 7);
    assert_eq!(s.games_num, 1);
    assert_eq!(s.victories_num, 1);
    assert_eq!(s.penalties_num, 1);
}

#[test]
fn referral_is_recorded_only_when_an_account_is_given() {
    let mut s = Stats::new();
    s.update(UpdateStatsAction::AddReferral, None, None);
    assert_eq!(s.referrer_id, None);
    s.update(UpdateStatsAction::AddReferral, Some(9), None);
    assert_eq!(s.referrer_id, Some(9));
}

#[test]
fn affiliates_behave_as_a_set() {
    let mut s = Stats::new();
    s.update(UpdateStatsAction::AddAffiliate, Some(5), None);
    s.update(UpdateStatsAction::AddAffiliate, Some(5), None);
    s.update(UpdateStatsAction::AddAffiliate, Some(6), None);
    s.update(UpdateStatsAction::AddAffiliate, None, None);
    assert_eq!(s.affiliates, vec![5, 6]);
}

#[test]
fn reward_totals_saturate_at_the_maximum() {
    let mut s = Stats::new();
    s.update(UpdateStatsAction::AddTotalReward, None, Some(u128::MAX - 1));
    s.update(UpdateStatsAction::AddTotalReward, None, Some(5));
    assert_eq!(s.total_reward, u128::MAX);
}

#[test]
fn ledger_creates_records_on_first_touch() {
    let mut ledger = Hockey::new();
    assert!(!ledger.is_account_exists(Some(1)));
    assert!(!ledger.is_account_exists(None));
    ledger.internal_update_stats(1, UpdateStatsAction::AddPlayedGame, None, None);
    assert!(ledger.is_account_exists(Some(1)));
    assert!(!ledger.is_account_exists(Some(2)));
    let s = ledger.internal_get_stats(1);
    assert_eq!(s.games_num, 1);
    let missing = ledger.internal_get_stats(2);
    assert_eq!(missing.games_num, 0);
}

#[test]
fn ledger_updates_touch_only_their_account() {
    let mut ledger = Hockey::new();
    ledger.internal_update_stats(1, UpdateStatsAction::AddPlayedGame, None, None);
    ledger.internal_update_stats(2, UpdateStatsAction::AddWonGame, None, None);
    ledger.internal_update_stats(1, UpdateStatsAction::AddPlayedGame, None, None);
    let one = ledger.internal_get_stats(1);
    let two = ledger.internal_get_stats(2);
    assert_eq!(one.games_num, 2);
    assert_eq!(one.victories_num, 0);
    assert_eq!(two.games_num, 0);
    assert_eq!(two.victories_num, 1);
}

#[test]
fn burn_commits_no_state() {
    let mut contract = Contract::new(10);
    contract.nft_burn(Some(3));
    contract.nft_burn(None);
    assert_eq!(contract.nft_supply_for_type, 10);
}

#[test]
fn versioned_wrappers_unwrap_to_their_payload() {
    let config = GameConfig {
        deposit: Some(100),
        opponent_id: Some(2),
    };
    let unwrapped = GameConfig::from(VGameConfig::Current(config));
    assert_eq!(unwrapped, config);
    let out = GameConfigOutput::from(config);
    assert_eq!(out.deposit, 100);
    assert_eq!(out.opponent_id, Some(2));
    let out_empty = GameConfigOutput::from(GameConfig {
        deposit: None,
        opponent_id: None,
    });
    assert_eq!(out_empty.deposit, 0);
    let mut s = Stats::new();
    s.update(UpdateStatsAction::AddPlayedGame, None, None);
    let restored = Stats::from(VStats::Current(s));
    assert_eq!(restored.games_num, 1);
}
