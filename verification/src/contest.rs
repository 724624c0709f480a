//! The probabilistic contest primitive shared by every action, and the
//! effective-rating helper that feeds it.
//!
//! A contest between ratings `a` and `b` treats `a + b` as a number of
//! weighted tickets, draws one uniformly from `[1, a + b]`, and lets `a` win
//! on exactly `a` of the draws, so `a` wins with probability `a / (a + b)`.

use vstd::prelude::*;
use vstd::set_lib::{set_int_range, lemma_int_range};
use crate::EngineError;
use crate::player::{FieldPlayer, MAX_STAT, SCALE};
use crate::rng::draw_in_range;

verus! {

/// Largest value an effective rating can take under the stats bounds.
pub const MAX_RATING: u64 = 1_000_000 * 10_000;

/// Whether `a` wins the contest when the draw comes out as `draw`.
/// Mirrors the resolution rule exactly: with `draw` uniform in `[1, a + b]`,
/// if `a > b` then `a` wins iff the draw clears `b`'s share; otherwise `a`
/// wins iff the draw falls inside `a`'s share.
pub open spec fn spec_contest(a: int, b: int, draw: int) -> bool {
    if a > b {
        draw > b
    } else {
        draw <= a
    }
}

/// Resolve a contest on an already-made draw.
///
/// A combined rating of zero leaves the draw range `[1, a + b]` empty: that
/// is a configuration error, surfaced as a typed result, never a crash.
pub fn contest(a: u64, b: u64, draw: u64) -> (r: Result<bool, EngineError>)
    requires
        a + b > 0 ==> 1 <= draw <= a + b,
    ensures
        r is Err <==> (a == 0 && b == 0),
        r is Err ==> r == Err::<bool, EngineError>(EngineError::Configuration),
        a + b > 0 ==> r == Ok::<bool, EngineError>(spec_contest(a as int, b as int, draw as int)),
{
    if a == 0 && b == 0 {
        Err(EngineError::Configuration)
    } else if a > b {
        Ok(draw > b)
    } else {
        Ok(draw <= a)
    }
}

/// Resolve a contest by drawing uniformly from `[1, a + b]` with the injected
/// random source. The draw is random, so the result is pinned only where the
/// shares leave one side nothing: with `b == 0` the holder of `a` wins every
/// draw, and with `a == 0` it loses every draw.
pub fn has_won(a: u64, b: u64, rng: &mut rand::rngs::ThreadRng) -> (r: Result<
    bool,
    EngineError,
>)
    requires
        a + b <= u64::MAX,
    ensures
        r is Err <==> (a == 0 && b == 0),
        r is Err ==> r == Err::<bool, EngineError>(EngineError::Configuration),
        r is Ok ==> exists|d: u64|
            1 <= d <= a + b && r == Ok::<bool, EngineError>(
                spec_contest(a as int, b as int, d as int),
            ),
        a > 0 && b == 0 ==> r == Ok::<bool, EngineError>(true),
        a == 0 && b > 0 ==> r == Ok::<bool, EngineError>(false),
{
    if a == 0 && b == 0 {
        return Err(EngineError::Configuration);
    }
    let draw = draw_in_range(rng, 1, a + b);
    let r = contest(a, b, draw);
    proof {
        assert(r == Ok::<bool, EngineError>(spec_contest(a as int, b as int, draw as int)));
    }
    r
}

/// The effective rating used in any contest: an attribute normalized against
/// the player's morale and current (fatigue-adjusted) strength,
/// `(attribute + morale + strength) / 3`. All three terms are in fixed-point
/// sub-units (`SCALE` per rating point).
pub open spec fn spec_relative_stat(stat_scaled: int, morale: int, strength: int) -> int {
    (stat_scaled + morale * SCALE + strength) / 3
}

/// The effective rating of one player for a given raw (unscaled) attribute.
pub fn get_relative_field_player_stat(player: &FieldPlayer, stat: u64) -> (r: u64)
    requires
        stat <= MAX_STAT,
        player.stats.wf(),
    ensures
        r == spec_relative_stat(
            stat as int * SCALE,
            player.stats.morale as int,
            player.stats.strength as int,
        ),
        r <= MAX_RATING,
{
    (stat * SCALE + player.stats.morale * SCALE + player.stats.strength) / 3
}

/// The effective rating of one player when the contested attribute is the
/// (already fixed-point) strength itself, as in every defender-side contest.
pub fn get_relative_strength_stat(player: &FieldPlayer) -> (r: u64)
    requires
        player.stats.wf(),
    ensures
        r == spec_relative_stat(
            player.stats.strength as int,
            player.stats.morale as int,
            player.stats.strength as int,
        ),
        r <= MAX_RATING,
{
    (player.stats.strength + player.stats.morale * SCALE + player.stats.strength) / 3
}

/// Law: a contest is exactly fair to the shares. Of the `a + b` equally
/// likely draws, `a` wins on exactly `a` of them — in both branches of the
/// resolution rule — so the win probability is `a / (a + b)` to the
/// granularity of one ticket.
pub proof fn lemma_contest_win_count(a: u64, b: u64)
    requires
        a + b > 0,
    ensures
        (Set::new(|d: int| 1 <= d <= a + b && spec_contest(a as int, b as int, d))).finite(),
        (Set::new(|d: int| 1 <= d <= a + b && spec_contest(a as int, b as int, d))).len()
            == a,
{
    let wins = Set::new(|d: int| 1 <= d <= a + b && spec_contest(a as int, b as int, d));
    if a > b {
        assert(wins =~= set_int_range(b as int + 1, a as int + b as int + 1));
        lemma_int_range(b as int + 1, a as int + b as int + 1);
    } else {
        assert(wins =~= set_int_range(1, a as int + 1));
        lemma_int_range(1, a as int + 1);
    }
}

} // verus!
