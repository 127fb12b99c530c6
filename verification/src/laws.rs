//! Laws the simulation obeys across whole runs, proved from the per-tick
//! contracts: the score accumulator is exact under any tick split, and a
//! simultaneous multi-obstacle collision still ends the round exactly once.

use vstd::prelude::*;

use crate::config::{PLAYER_W, SCORE_CAP, SCORE_STEP_MS};
use crate::game::{playing_post, spec_acc_after, spec_resolve, spec_score_after, Game, TickDraws,
    TickInput};
use crate::geom::{first_hit_idx, lemma_hit_exists, overlap, Rect};
use crate::obstacles::Obstacle;

verus! {

/// Whatever the input history was, a `Playing` tick on a screen at least as
/// wide as the paddle leaves the paddle within `[0, w - PLAYER_W]`.
pub proof fn lemma_playing_keeps_player_bounded(
    g0: Game,
    g1: Game,
    eff: Option<i64>,
    inp: TickInput,
    d: TickDraws,
    w: int,
    h: int,
    dt: int,
)
    requires
        playing_post(g0, g1, eff, inp, d, w, h, dt),
        PLAYER_W <= w,
    ensures
        0 <= g1.player.x <= w - PLAYER_W,
{
}

/// The total of a sequence of tick lengths.
pub open spec fn sum_of(dts: Seq<int>) -> int
    decreases dts.len(),
{
    if dts.len() == 0 {
        0
    } else {
        sum_of(dts.drop_last()) + dts.last()
    }
}

/// Score and accumulator after a fresh round plays the given ticks, folding
/// the per-tick step the update function is proved to take.
pub open spec fn score_fold(dts: Seq<int>) -> (int, int)
    decreases dts.len(),
{
    if dts.len() == 0 {
        (0int, 0int)
    } else {
        let prev = score_fold(dts.drop_last());
        (spec_score_after(prev.0, prev.1, dts.last()), spec_acc_after(prev.1, dts.last()))
    }
}

/// A total of nonnegative tick lengths is nonnegative.
pub proof fn lemma_sum_nonneg(dts: Seq<int>)
    requires
        forall|i: int| 0 <= i < dts.len() ==> 0 <= #[trigger] dts[i],
    ensures
        0 <= sum_of(dts),
    decreases dts.len(),
{
    if dts.len() > 0 {
        let pre = dts.drop_last();
        assert(forall|i: int| 0 <= i < pre.len() ==> 0 <= #[trigger] pre[i]) by {
            assert(forall|i: int| 0 <= i < pre.len() ==> pre[i] == dts[i]);
        }
        lemma_sum_nonneg(pre);
        assert(0 <= dts.last());
    }
}

/// Score accumulator law: after a fresh round plays ticks of any nonnegative
/// lengths summing to `N` milliseconds, the score is exactly
/// `N / SCORE_STEP_MS` — one point per full `SCORE_STEP_MS` of play,
/// independent of how the time was split into ticks — and the accumulator
/// holds the remainder.  (The saturation at `SCORE_CAP`, over twelve years of
/// play, is excluded by the bound on the total.)
pub proof fn lemma_score_accumulator(dts: Seq<int>)
    requires
        forall|i: int| 0 <= i < dts.len() ==> 0 <= #[trigger] dts[i],
        sum_of(dts) <= SCORE_CAP * SCORE_STEP_MS,
    ensures
        score_fold(dts).0 == sum_of(dts) / (SCORE_STEP_MS as int),
        score_fold(dts).1 == sum_of(dts) % (SCORE_STEP_MS as int),
    decreases dts.len(),
{
    let step = SCORE_STEP_MS as int;
    if dts.len() == 0 {
        vstd::arithmetic::div_mod::lemma_fundamental_div_mod_converse(0, step, 0, 0);
    } else {
        let pre = dts.drop_last();
        let d = dts.last();
        assert(0 <= d);
        assert(forall|i: int| 0 <= i < pre.len() ==> 0 <= #[trigger] pre[i]) by {
            assert(forall|i: int| 0 <= i < pre.len() ==> pre[i] == dts[i]);
        }
        assert(sum_of(pre) == sum_of(dts) - d);
        lemma_sum_nonneg(pre);
        lemma_score_accumulator(pre);
        let s = sum_of(pre);
        let q = s / step;
        let r = s % step;
        vstd::arithmetic::div_mod::lemma_fundamental_div_mod(s, step);
        vstd::arithmetic::div_mod::lemma_mod_bound(s, step);
        vstd::arithmetic::div_mod::lemma_div_pos_is_pos(s, step);
        let q2 = (r + d) / step;
        let r2 = (r + d) % step;
        vstd::arithmetic::div_mod::lemma_fundamental_div_mod(r + d, step);
        vstd::arithmetic::div_mod::lemma_mod_bound(r + d, step);
        vstd::arithmetic::div_mod::lemma_div_pos_is_pos(r + d, step);
        assert(s + d == (q + q2) * step + r2) by (nonlinear_arith)
            requires s == step * q + r && r + d == step * q2 + r2;
        vstd::arithmetic::div_mod::lemma_fundamental_div_mod_converse(s + d, step, q + q2, r2);
        vstd::arithmetic::div_mod::lemma_div_is_ordered(s + d, SCORE_CAP * step, step);
        vstd::arithmetic::div_mod::lemma_div_by_multiple(SCORE_CAP as int, step);
        assert(q + q2 <= SCORE_CAP);
    }
}

/// Collision tie-break law: when two (or more) live obstacles simultaneously
/// overlap the player hitbox and no shield charge remains, the resolution
/// still ends the round exactly once — one GameOver transition, one
/// best-score commit (to the max of best and score), one save request — and
/// consumes no obstacle.
pub proof fn lemma_collision_tiebreak(
    live: Seq<Obstacle>,
    hitbox: Rect,
    i: int,
    j: int,
    best: int,
    score: int,
    shake: int,
)
    requires
        0 <= i < live.len(),
        0 <= j < live.len(),
        i != j,
        overlap(live[i].rect, hitbox),
        overlap(live[j].rect, hitbox),
    ensures
        ({
            let rsl = spec_resolve(live, hitbox, 0, best, score, shake);
            let committed = if best < score {
                score
            } else {
                best
            };
            &&& rsl.fatal
            &&& rsl.saved == Some(committed)
            &&& rsl.best == committed
            &&& rsl.live == live
            &&& rsl.shield == 0
        }),
{
    let rects = live.map_values(|o: Obstacle| o.rect);
    assert(rects[i] == live[i].rect);
    lemma_hit_exists(rects, hitbox, i);
    assert(first_hit_idx(rects, hitbox) >= 0);
}

} // verus!
