//! Account bookkeeping around the engine: per-account counters for games,
//! victories, penalties, referrals, affiliates and rewards.
//!
//! The engine treats the persistent ledger as a pure data consumer: accounts
//! are plain integer identifiers and the ledger is an in-memory association
//! list keyed by account; durable storage stays with the host.

use vstd::prelude::*;

verus! {

/// What a newly proposed game is configured with: an optional deposit and an
/// optional chosen opponent. Balances are plain integers; accounts are plain
/// integer identifiers.
#[derive(Clone, Copy, PartialEq, Eq, Structural, Debug)]
pub struct GameConfig {
    pub deposit: Option<u128>,
    pub opponent_id: Option<u64>,
}

/// The versioned wrapper a stored game configuration travels in.
#[derive(Clone, Copy, PartialEq, Eq, Structural, Debug)]
pub enum VGameConfig {
    Current(GameConfig),
}

impl GameConfig {
    /// Unwrap the current version of a stored configuration.
    pub fn from(v_game_config: VGameConfig) -> (r: GameConfig)
        ensures
            v_game_config == VGameConfig::Current(r),
    {
        match v_game_config {
            VGameConfig::Current(game_config) => game_config,
        }
    }
}

/// The caller-facing shape of a game configuration: a missing deposit reads
/// as zero.
#[derive(Clone, Copy, PartialEq, Eq, Structural, Debug)]
pub struct GameConfigOutput {
    pub deposit: u128,
    pub opponent_id: Option<u64>,
}

impl GameConfigOutput {
    pub fn from(config: GameConfig) -> (r: GameConfigOutput)
        ensures
            r.deposit == (match config.deposit {
                Some(d) => d,
                None => 0u128,
            }),
            r.opponent_id == config.opponent_id,
    {
        GameConfigOutput {
            deposit: match config.deposit {
                Some(d) => d,
                None => 0,
            },
            opponent_id: config.opponent_id,
        }
    }
}

/// The bookkeeping actions an account's stats can undergo.
#[derive(Clone, Copy, PartialEq, Eq, Structural, Debug)]
pub enum UpdateStatsAction {
    AddPlayedGame,
    AddReferral,
    AddAffiliate,
    AddWonGame,
    AddTotalReward,
    AddAffiliateReward,
    AddPenaltyGame,
}

/// One account's counters. The affiliates list behaves as a set: an
/// identifier is inserted at most once.
#[derive(Clone, PartialEq, Eq, Debug)]
pub struct Stats {
    pub referrer_id: Option<u64>,
    pub affiliates: Vec<u64>,
    pub games_num: u64,
    pub victories_num: u64,
    pub penalties_num: u64,
    pub total_reward: u128,
    pub total_affiliate_reward: u128,
}

/// The mathematical content of a stats record: every counter, with the
/// affiliates list abstracted to its sequence.
pub type StatsView = (Option<u64>, Seq<u64>, u64, u64, u64, u128, u128);

/// The view of one record.
pub open spec fn stats_view(s: Stats) -> StatsView {
    (
        s.referrer_id,
        s.affiliates@,
        s.games_num,
        s.victories_num,
        s.penalties_num,
        s.total_reward,
        s.total_affiliate_reward,
    )
}

/// The view of a freshly created record: everything zero or empty.
pub open spec fn spec_fresh_view() -> StatsView {
    (None::<u64>, Seq::<u64>::empty(), 0u64, 0u64, 0u64, 0u128, 0u128)
}

/// A counter one higher, saturating at its maximum.
pub open spec fn spec_sat_inc_u64(x: u64) -> u64 {
    if x == u64::MAX {
        x
    } else {
        (x + 1) as u64
    }
}

/// A reward total raised by a balance, saturating at the maximum.
pub open spec fn spec_sat_add_u128(x: u128, y: u128) -> u128 {
    if x + y > u128::MAX {
        u128::MAX
    } else {
        (x + y) as u128
    }
}

/// What one bookkeeping action does to a record's view: exactly one counter
/// moves, or a referral is recorded, or an affiliate is inserted if absent;
/// an action whose needed argument is missing changes nothing.
pub open spec fn spec_update_view(
    v: StatsView,
    action: UpdateStatsAction,
    additional_account_id: Option<u64>,
    balance: Option<u128>,
) -> StatsView {
    match action {
        UpdateStatsAction::AddPlayedGame => (v.0, v.1, spec_sat_inc_u64(v.2), v.3, v.4, v.5, v.6),
        UpdateStatsAction::AddReferral => if additional_account_id is Some {
            (additional_account_id, v.1, v.2, v.3, v.4, v.5, v.6)
        } else {
            v
        },
        UpdateStatsAction::AddAffiliate => match additional_account_id {
            Some(id) => if v.1.contains(id) {
                v
            } else {
                (v.0, v.1.push(id), v.2, v.3, v.4, v.5, v.6)
            },
            None => v,
        },
        UpdateStatsAction::AddWonGame => (v.0, v.1, v.2, spec_sat_inc_u64(v.3), v.4, v.5, v.6),
        UpdateStatsAction::AddTotalReward => match balance {
            Some(b) => (v.0, v.1, v.2, v.3, v.4, spec_sat_add_u128(v.5, b), v.6),
            None => v,
        },
        UpdateStatsAction::AddAffiliateReward => match balance {
            Some(b) => (v.0, v.1, v.2, v.3, v.4, v.5, spec_sat_add_u128(v.6, b)),
            None => v,
        },
        UpdateStatsAction::AddPenaltyGame => (v.0, v.1, v.2, v.3, spec_sat_inc_u64(v.4), v.5, v.6),
    }
}

fn sat_inc_u64(x: u64) -> (r: u64)
    ensures
        r == spec_sat_inc_u64(x),
{
    if x == u64::MAX {
        x
    } else {
        x + 1
    }
}

fn sat_add_u128(x: u128, y: u128) -> (r: u128)
    ensures
        r == spec_sat_add_u128(x, y),
{
    if y > u128::MAX - x {
        u128::MAX
    } else {
        x + y
    }
}

/// Whether a vector holds a value.
fn vec_contains(v: &Vec<u64>, x: u64) -> (b: bool)
    ensures
        b == v@.contains(x),
{
    let mut i: usize = 0;
    while i < v.len()
        invariant
            i <= v@.len(),
            forall|j: int| 0 <= j < i ==> v@[j] != x,
        decreases v@.len() - i,
    {
        if v[i] == x {
            return true;
        }
        i += 1;
    }
    false
}

impl Stats {
    /// A fresh record with every counter at zero.
    pub fn new() -> (r: Stats)
        ensures
            stats_view(r) == spec_fresh_view(),
    {
        let r = Stats {
            referrer_id: None,
            affiliates: Vec::new(),
            games_num: 0,
            victories_num: 0,
            penalties_num: 0,
            total_reward: 0,
            total_affiliate_reward: 0,
        };
        proof {
            assert(r.affiliates@ =~= Seq::<u64>::empty());
        }
        r
    }

    /// Apply one bookkeeping action to this record.
    pub fn update(
        &mut self,
        action: UpdateStatsAction,
        additional_account_id: Option<u64>,
        balance: Option<u128>,
    )
        ensures
            stats_view(*final(self)) == spec_update_view(
                stats_view(*old(self)),
                action,
                additional_account_id,
                balance,
            ),
    {
        match action {
            UpdateStatsAction::AddPlayedGame => {
                self.games_num = sat_inc_u64(self.games_num);
            },
            UpdateStatsAction::AddReferral => {
                if additional_account_id.is_some() {
                    self.referrer_id = additional_account_id;
                }
            },
            UpdateStatsAction::AddAffiliate => {
                match additional_account_id {
                    Some(id) => {
                        if !vec_contains(&self.affiliates, id) {
                            self.affiliates.push(id);
                        }
                    },
                    None => {},
                }
            },
            UpdateStatsAction::AddWonGame => {
                self.victories_num = sat_inc_u64(self.victories_num);
            },
            UpdateStatsAction::AddTotalReward => {
                match balance {
                    Some(b) => {
                        self.total_reward = sat_add_u128(self.total_reward, b);
                    },
                    None => {},
                }
            },
            UpdateStatsAction::AddAffiliateReward => {
                match balance {
                    Some(b) => {
                        self.total_affiliate_reward = sat_add_u128(self.total_affiliate_reward, b);
                    },
                    None => {},
                }
            },
            UpdateStatsAction::AddPenaltyGame => {
                self.penalties_num = sat_inc_u64(self.penalties_num);
            },
        }
    }
}

/// The versioned wrapper a stored stats record travels in.
#[derive(Clone, Debug)]
pub enum VStats {
    Current(Stats),
}

impl Stats {
    /// Unwrap the current version of a stored record.
    pub fn from(v_stats: VStats) -> (r: Stats)
        ensures
            v_stats matches VStats::Current(s) && stats_view(r) == stats_view(s),
    {
        match v_stats {
            VStats::Current(stats) => stats,
        }
    }
}

/// A verified copy of a record: same view, freshly owned.
fn clone_stats(s: &Stats) -> (r: Stats)
    ensures
        stats_view(r) == stats_view(*s),
{
    let mut affiliates: Vec<u64> = Vec::new();
    let mut i: usize = 0;
    while i < s.affiliates.len()
        invariant
            i <= s.affiliates@.len(),
            affiliates@ == s.affiliates@.subrange(0, i as int),
        decreases s.affiliates@.len() - i,
    {
        affiliates.push(s.affiliates[i]);
        proof {
            assert(affiliates@ =~= s.affiliates@.subrange(0, (i + 1) as int));
        }
        i += 1;
    }
    proof {
        assert(affiliates@ =~= s.affiliates@);
    }
    Stats {
        referrer_id: s.referrer_id,
        affiliates,
        games_num: s.games_num,
        victories_num: s.victories_num,
        penalties_num: s.penalties_num,
        total_reward: s.total_reward,
        total_affiliate_reward: s.total_affiliate_reward,
    }
}

/// The record stored under an account in an association list: the first
/// matching entry, if any.
pub open spec fn spec_lookup(s: Seq<(u64, Stats)>, account_id: u64) -> Option<Stats>
    decreases s.len(),
{
    if s.len() == 0 {
        None
    } else if s[0].0 == account_id {
        Some(s[0].1)
    } else {
        spec_lookup(s.drop_first(), account_id)
    }
}

proof fn lemma_lookup_first_match(s: Seq<(u64, Stats)>, id: u64, j: int)
    requires
        0 <= j < s.len(),
        s[j].0 == id,
        forall|k: int| 0 <= k < j ==> s[k].0 != id,
    ensures
        spec_lookup(s, id) == Some(s[j].1),
    decreases j,
{
    if j > 0 {
        lemma_lookup_first_match(s.drop_first(), id, j - 1);
    }
}

proof fn lemma_lookup_none(s: Seq<(u64, Stats)>, id: u64)
    requires
        forall|k: int| 0 <= k < s.len() ==> s[k].0 != id,
    ensures
        spec_lookup(s, id) is None,
    decreases s.len(),
{
    if s.len() > 0 {
        lemma_lookup_none(s.drop_first(), id);
    }
}

proof fn lemma_lookup_update(s: Seq<(u64, Stats)>, j: int, id: u64, v: Stats, id2: u64)
    requires
        0 <= j < s.len(),
        s[j].0 == id,
        forall|k: int| 0 <= k < j ==> s[k].0 != id,
    ensures
        spec_lookup(s.update(j, (id, v)), id2) == (if id2 == id {
            Some(v)
        } else {
            spec_lookup(s, id2)
        }),
    decreases j,
{
    let t = s.update(j, (id, v));
    if j == 0 {
        if id2 != id {
            assert(t.drop_first() =~= s.drop_first());
        }
    } else {
        assert(t[0] == s[0]);
        if s[0].0 != id2 {
            assert(t.drop_first() =~= s.drop_first().update(j - 1, (id, v)));
            lemma_lookup_update(s.drop_first(), j - 1, id, v, id2);
        }
    }
}

proof fn lemma_lookup_push(s: Seq<(u64, Stats)>, id: u64, v: Stats, id2: u64)
    requires
        forall|k: int| 0 <= k < s.len() ==> s[k].0 != id,
    ensures
        spec_lookup(s.push((id, v)), id2) == (if id2 == id {
            Some(v)
        } else {
            spec_lookup(s, id2)
        }),
    decreases s.len(),
{
    let t = s.push((id, v));
    if s.len() == 0 {
        if id2 != id {
            assert(t.drop_first() =~= Seq::<(u64, Stats)>::empty());
        }
    } else {
        assert(t[0] == s[0]);
        if s[0].0 != id2 {
            assert(t.drop_first() =~= s.drop_first().push((id, v)));
            lemma_lookup_push(s.drop_first(), id, v, id2);
        }
    }
}

/// The host-side bookkeeping holder: the per-account ledger.
pub struct Hockey {
    pub stats: Vec<(u64, Stats)>,
}

impl Hockey {
    /// An empty ledger.
    pub fn new() -> (r: Hockey)
        ensures
            r.stats@.len() == 0,
    {
        Hockey { stats: Vec::new() }
    }

    /// The index of the first entry for an account, if there is one.
    fn find_index(&self, account_id: u64) -> (r: Option<usize>)
        ensures
            match r {
                Some(j) => j < self.stats@.len() && self.stats@[j as int].0 == account_id
                    && forall|k: int| 0 <= k < j ==> self.stats@[k].0 != account_id,
                None => forall|k: int|
                    0 <= k < self.stats@.len() ==> self.stats@[k].0 != account_id,
            },
    {
        let mut i: usize = 0;
        while i < self.stats.len()
            invariant
                i <= self.stats@.len(),
                forall|k: int| 0 <= k < i ==> self.stats@[k].0 != account_id,
            decreases self.stats@.len() - i,
        {
            if self.stats[i].0 == account_id {
                return Some(i);
            }
            i += 1;
        }
        None
    }

    /// The stats stored for an account, or a fresh record if none are.
    pub fn internal_get_stats(&self, account_id: u64) -> (r: Stats)
        ensures
            stats_view(r) == match spec_lookup(self.stats@, account_id) {
                Some(s) => stats_view(s),
                None => spec_fresh_view(),
            },
    {
        match self.find_index(account_id) {
            Some(j) => {
                proof {
                    lemma_lookup_first_match(self.stats@, account_id, j as int);
                }
                clone_stats(&self.stats[j].1)
            },
            None => {
                proof {
                    lemma_lookup_none(self.stats@, account_id);
                }
                Stats::new()
            },
        }
    }

    /// Whether an account has stats on the ledger; a missing identifier has
    /// none.
    pub fn is_account_exists(&self, account_id: Option<u64>) -> (b: bool)
        ensures
            b == match account_id {
                Some(id) => spec_lookup(self.stats@, id) is Some,
                None => false,
            },
    {
        match account_id {
            Some(id) => {
                match self.find_index(id) {
                    Some(j) => {
                        proof {
                            lemma_lookup_first_match(self.stats@, id, j as int);
                        }
                        true
                    },
                    None => {
                        proof {
                            lemma_lookup_none(self.stats@, id);
                        }
                        false
                    },
                }
            },
            None => false,
        }
    }

    /// Store a record under an account, replacing its first entry or
    /// appending a new one; every other account's lookup is untouched.
    fn set_stats(&mut self, account_id: u64, s: Stats)
        ensures
            spec_lookup(final(self).stats@, account_id) == Some(s),
            forall|other: u64|
                other != account_id ==> spec_lookup(final(self).stats@, other) == spec_lookup(
                    old(self).stats@,
                    other,
                ),
    {
        match self.find_index(account_id) {
            Some(j) => {
                let ghost s0 = self.stats@;
                self.stats.remove(j);
                self.stats.insert(j, (account_id, s));
                proof {
                    assert(self.stats@ =~= s0.update(j as int, (account_id, s)));
                    lemma_lookup_update(s0, j as int, account_id, s, account_id);
                    assert forall|other: u64| other != account_id implies spec_lookup(
                        self.stats@,
                        other,
                    ) == spec_lookup(s0, other) by {
                        lemma_lookup_update(s0, j as int, account_id, s, other);
                    }
                }
            },
            None => {
                let ghost s0 = self.stats@;
                self.stats.push((account_id, s));
                proof {
                    lemma_lookup_push(s0, account_id, s, account_id);
                    assert forall|other: u64| other != account_id implies spec_lookup(
                        self.stats@,
                        other,
                    ) == spec_lookup(s0, other) by {
                        lemma_lookup_push(s0, account_id, s, other);
                    }
                }
            },
        }
    }

    /// Apply one bookkeeping action to an account, creating its record on
    /// first touch. Every other account's record is untouched.
    pub fn internal_update_stats(
        &mut self,
        account_id: u64,
        action: UpdateStatsAction,
        additional_account_id: Option<u64>,
        balance: Option<u128>,
    )
        ensures
            spec_lookup(final(self).stats@, account_id) is Some,
            stats_view(spec_lookup(final(self).stats@, account_id).unwrap()) == spec_update_view(
                match spec_lookup(old(self).stats@, account_id) {
                    Some(s) => stats_view(s),
                    None => spec_fresh_view(),
                },
                action,
                additional_account_id,
                balance,
            ),
            forall|other: u64|
                other != account_id ==> spec_lookup(final(self).stats@, other) == spec_lookup(
                    old(self).stats@,
                    other,
                ),
    {
        let mut stats = self.internal_get_stats(account_id);
        stats.update(action, additional_account_id, balance);
        self.set_stats(account_id, stats);
    }
}

} // verus!
