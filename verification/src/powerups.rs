//! Falling power-ups and their entity pool: same pooled lifecycle as the
//! obstacles, plus first-match pickup detection against the player rectangle.

use vstd::prelude::*;

use crate::config::{MAX_SCREEN, MAX_TICK_MS, PU_FALL_SPEED, PU_SIZE, SWEEP_EPS, VY_CAP};
use crate::geom::{first_hit_idx, is_first_hit, lemma_first_hit_at, lemma_no_hit, overlap,
    rect_bounded, rects_overlap, Rect};

verus! {

/// The three power-up effects.
#[derive(Clone, Copy, PartialEq, Eq, Structural, Debug)]
pub enum PowerUpKind {
    Shield,
    Slow,
    Bomb,
}

/// A falling power-up: rectangle, downward speed, and effect kind.
#[derive(Clone, Copy, PartialEq, Eq, Structural, Debug)]
pub struct PowerUp {
    pub rect: Rect,
    pub vy: i64,
    pub kind: PowerUpKind,
}

/// Bounds every live power-up satisfies.
pub open spec fn pu_wf(p: PowerUp) -> bool {
    &&& -MAX_SCREEN <= p.rect.x <= MAX_SCREEN
    &&& -MAX_SCREEN <= p.rect.y <= MAX_SCREEN + SWEEP_EPS
    &&& 0 <= p.rect.w <= MAX_SCREEN
    &&& 0 <= p.rect.h <= MAX_SCREEN
    &&& 0 <= p.vy <= VY_CAP
}

/// The power-up after `dt` milliseconds of straight-down fall.
pub open spec fn pu_moved(p: PowerUp, dt: int) -> PowerUp {
    PowerUp {
        rect: Rect { x: p.rect.x, y: (p.rect.y + p.vy * dt) as i64, w: p.rect.w, h: p.rect.h },
        vy: p.vy,
        kind: p.kind,
    }
}

/// The live power-ups that survive one sweep, in order.
pub open spec fn pu_swept_live(s: Seq<PowerUp>, dt: int, bound: int) -> Seq<PowerUp>
    decreases s.len(),
{
    if s.len() == 0 {
        Seq::empty()
    } else {
        let prev = pu_swept_live(s.drop_last(), dt, bound);
        let m = pu_moved(s.last(), dt);
        if m.rect.y <= bound + SWEEP_EPS {
            prev.push(m)
        } else {
            prev
        }
    }
}

/// The power-ups one sweep recycles, in order.
pub open spec fn pu_swept_gone(s: Seq<PowerUp>, dt: int, bound: int) -> Seq<PowerUp>
    decreases s.len(),
{
    if s.len() == 0 {
        Seq::empty()
    } else {
        let prev = pu_swept_gone(s.drop_last(), dt, bound);
        let m = pu_moved(s.last(), dt);
        if m.rect.y <= bound + SWEEP_EPS {
            prev
        } else {
            prev.push(m)
        }
    }
}

/// A sweep neither loses nor duplicates power-ups.
pub proof fn lemma_pu_swept_lens(s: Seq<PowerUp>, dt: int, bound: int)
    ensures
        pu_swept_live(s, dt, bound).len() + pu_swept_gone(s, dt, bound).len() == s.len(),
    decreases s.len(),
{
    if s.len() > 0 {
        lemma_pu_swept_lens(s.drop_last(), dt, bound);
    }
}

/// The pool of power-ups.
pub struct PowerUpPool {
    live: Vec<PowerUp>,
    dead: Vec<PowerUp>,
    constructed: Ghost<nat>,
}

impl PowerUpPool {
    /// The live power-ups, in pool order.
    pub closed spec fn live_view(&self) -> Seq<PowerUp> {
        self.live@
    }

    /// The recycled power-ups.
    pub closed spec fn dead_view(&self) -> Seq<PowerUp> {
        self.dead@
    }

    /// How many power-ups this pool ever constructed.
    pub closed spec fn constructed_total(&self) -> nat {
        self.constructed@
    }

    /// Pool invariant: no leak, no duplication, bounded live objects.
    pub open spec fn wf(&self) -> bool {
        &&& self.live_view().len() + self.dead_view().len() == self.constructed_total()
        &&& forall|i: int| 0 <= i < self.live_view().len() ==> pu_wf(#[trigger] self.live_view()[i])
    }

    pub fn new() -> (p: PowerUpPool)
        ensures
            p.wf(),
            p.live_view().len() == 0,
            p.dead_view().len() == 0,
            p.constructed_total() == 0,
    {
        PowerUpPool { live: Vec::new(), dead: Vec::new(), constructed: Ghost(0) }
    }

    pub fn live_len(&self) -> (n: usize)
        ensures
            n == self.live_view().len(),
    {
        self.live.len()
    }

    pub fn dead_len(&self) -> (n: usize)
        ensures
            n == self.dead_view().len(),
    {
        self.dead.len()
    }

    pub fn live_at(&self, i: usize) -> (p: PowerUp)
        requires
            i < self.live_view().len(),
        ensures
            p == self.live_view()[i as int],
    {
        self.live[i]
    }

    /// Spawns one power-up of the given kind at `(x, y)`, a `PU_SIZE` square
    /// falling at the constant `PU_FALL_SPEED`, reusing a recycled object when
    /// one exists.
    pub fn spawn(&mut self, x: i64, y: i64, kind: PowerUpKind)
        requires
            old(self).wf(),
            -MAX_SCREEN <= x <= MAX_SCREEN - PU_SIZE,
            -MAX_SCREEN <= y <= MAX_SCREEN,
        ensures
            final(self).wf(),
            final(self).live_view() == old(self).live_view().push(
                PowerUp {
                    rect: Rect { x, y, w: PU_SIZE, h: PU_SIZE },
                    vy: PU_FALL_SPEED,
                    kind,
                },
            ),
            old(self).dead_view().len() > 0 ==> {
                &&& final(self).dead_view() == old(self).dead_view().drop_last()
                &&& final(self).constructed_total() == old(self).constructed_total()
            },
            old(self).dead_view().len() == 0 ==> {
                &&& final(self).dead_view() == old(self).dead_view()
                &&& final(self).constructed_total() == old(self).constructed_total() + 1
            },
    {
        let r = Rect { x, y, w: PU_SIZE, h: PU_SIZE };
        if let Some(mut p) = self.dead.pop() {
            p.rect = r;
            p.vy = PU_FALL_SPEED;
            p.kind = kind;
            self.live.push(p);
            proof {
                assert(old(self).dead_view().drop_last() =~= old(self).dead_view().subrange(
                    0,
                    old(self).dead_view().len() - 1,
                ));
            }
        } else {
            self.live.push(PowerUp { rect: r, vy: PU_FALL_SPEED, kind });
            self.constructed = Ghost(self.constructed@ + 1);
        }
    }

    /// Advances every live power-up by `vy * dt`, keeping pool order, and
    /// recycles those whose top edge has passed `bound + SWEEP_EPS`.
    pub fn update_and_sweep(&mut self, bound: i64, dt: i64)
        requires
            old(self).wf(),
            0 <= bound <= MAX_SCREEN,
            0 <= dt <= MAX_TICK_MS,
        ensures
            final(self).wf(),
            final(self).live_view() == pu_swept_live(
                old(self).live_view(),
                dt as int,
                bound as int,
            ),
            final(self).dead_view() == old(self).dead_view() + pu_swept_gone(
                old(self).live_view(),
                dt as int,
                bound as int,
            ),
            final(self).constructed_total() == old(self).constructed_total(),
    {
        let ghost orig = self.live@;
        let ghost dead0 = self.dead@;
        let n = self.live.len();
        let mut i: usize = 0;
        let mut kept: usize = 0;
        while i < n
            invariant
                kept <= i <= n,
                self.live@.len() == n,
                n == orig.len(),
                0 <= bound <= MAX_SCREEN,
                0 <= dt <= MAX_TICK_MS,
                forall|j: int| 0 <= j < n ==> pu_wf(#[trigger] orig[j]),
                forall|j: int| i <= j < n ==> self.live@[j] == orig[j],
                self.live@.subrange(0, kept as int) == pu_swept_live(
                    orig.subrange(0, i as int),
                    dt as int,
                    bound as int,
                ),
                self.dead@ == dead0 + pu_swept_gone(
                    orig.subrange(0, i as int),
                    dt as int,
                    bound as int,
                ),
                forall|j: int| 0 <= j < kept ==> pu_wf(#[trigger] self.live@[j]),
                self.constructed@ == old(self).constructed@,
            decreases n - i,
        {
            let p = self.live[i];
            proof {
                assert(p == orig[i as int]);
                assert(pu_wf(orig[i as int]));
                assert(0 <= p.vy * dt <= VY_CAP * MAX_TICK_MS) by (nonlinear_arith)
                    requires 0 <= p.vy <= VY_CAP && 0 <= dt <= MAX_TICK_MS;
            }
            let m = PowerUp {
                rect: Rect { x: p.rect.x, y: p.rect.y + p.vy * dt, w: p.rect.w, h: p.rect.h },
                vy: p.vy,
                kind: p.kind,
            };
            let ghost pre = orig.subrange(0, i as int);
            let ghost post = orig.subrange(0, i as int + 1);
            proof {
                assert(post.drop_last() =~= pre);
                assert(post.last() == orig[i as int]);
                assert(m == pu_moved(orig[i as int], dt as int));
            }
            if m.rect.y <= bound + SWEEP_EPS {
                self.live[kept] = m;
                kept = kept + 1;
                proof {
                    assert(self.live@.subrange(0, kept as int) =~= pu_swept_live(
                        post,
                        dt as int,
                        bound as int,
                    ));
                }
            } else {
                self.dead.push(m);
                proof {
                    assert(self.dead@ =~= dead0 + pu_swept_gone(post, dt as int, bound as int));
                }
            }
            i = i + 1;
        }
        self.live.truncate(kept);
        proof {
            assert(orig.subrange(0, n as int) =~= orig);
            lemma_pu_swept_lens(orig, dt as int, bound as int);
        }
    }

    /// Scans the live power-ups in pool order and recycles the first one
    /// overlapping `player`, returning its kind.  At most one power-up is
    /// collected per call; later overlapping ones stay live.
    pub fn pick_at(&mut self, player: Rect) -> (r: Option<PowerUpKind>)
        requires
            old(self).wf(),
            rect_bounded(player),
        ensures
            final(self).wf(),
            final(self).constructed_total() == old(self).constructed_total(),
            ({
                let rects = old(self).live_view().map_values(|p: PowerUp| p.rect);
                let k = first_hit_idx(rects, player);
                if k >= 0 {
                    &&& r == Some(old(self).live_view()[k].kind)
                    &&& final(self).live_view() == old(self).live_view().remove(k)
                    &&& final(self).dead_view() == old(self).dead_view().push(
                        old(self).live_view()[k],
                    )
                } else {
                    &&& r is None
                    &&& final(self).live_view() == old(self).live_view()
                    &&& final(self).dead_view() == old(self).dead_view()
                }
            }),
    {
        let ghost rects = self.live_view().map_values(|p: PowerUp| p.rect);
        let n = self.live.len();
        let mut i: usize = 0;
        while i < n
            invariant
                i <= n,
                n == self.live@.len(),
                self.wf(),
                rect_bounded(player),
                self == old(self),
                rects == self.live_view().map_values(|p: PowerUp| p.rect),
                forall|j: int| 0 <= j < i ==> !overlap(#[trigger] rects[j], player),
            decreases n - i,
        {
            let p = self.live[i];
            proof {
                assert(pu_wf(self.live_view()[i as int]));
                assert(rects[i as int] == p.rect);
            }
            if rects_overlap(p.rect, player) {
                proof {
                    assert(is_first_hit(rects, player, i as int));
                    lemma_first_hit_at(rects, player, i as int);
                }
                let picked = self.live.remove(i);
                self.dead.push(picked);
                proof {
                    old(self).live_view().remove_ensures(i as int);
                }
                return Some(picked.kind);
            }
            i = i + 1;
        }
        proof {
            lemma_no_hit(rects, player);
        }
        None
    }

    /// Drops every object, live and recycled (round reset).
    pub fn reset(&mut self)
        ensures
            final(self).wf(),
            final(self).live_view().len() == 0,
            final(self).dead_view().len() == 0,
            final(self).constructed_total() == 0,
    {
        self.live.clear();
        self.dead.clear();
        self.constructed = Ghost(0);
    }
}

} // verus!
