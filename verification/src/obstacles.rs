//! Falling obstacles and their entity pool.  The pool keeps every object it
//! ever constructed in exactly one of its `live` and `dead` collections:
//! spawning reuses a recycled object when one exists, and sweeping moves
//! off-screen objects to the recycled side instead of dropping them.

use vstd::prelude::*;

use crate::config::{MAX_SCREEN, MAX_TICK_MS, SWEEP_EPS, VY_CAP};
use crate::geom::{first_hit_idx, is_first_hit, lemma_first_hit_at, lemma_no_hit, overlap,
    rect_bounded, rects_overlap, Rect};

verus! {

/// A falling obstacle: its rectangle and its downward speed in micro-pixels
/// per millisecond.
#[derive(Clone, Copy, PartialEq, Eq, Structural, Debug)]
pub struct Obstacle {
    pub rect: Rect,
    pub vy: i64,
}

/// Bounds every live obstacle satisfies; they keep the sweep and overlap
/// arithmetic inside `i64`.
pub open spec fn ob_wf(o: Obstacle) -> bool {
    &&& -MAX_SCREEN <= o.rect.x <= MAX_SCREEN
    &&& -MAX_SCREEN <= o.rect.y <= MAX_SCREEN + SWEEP_EPS
    &&& 0 <= o.rect.w <= MAX_SCREEN
    &&& 0 <= o.rect.h <= MAX_SCREEN
    &&& 0 <= o.vy <= VY_CAP
}

/// The obstacle after `dt` milliseconds of straight-down fall.
pub open spec fn ob_moved(o: Obstacle, dt: int) -> Obstacle {
    Obstacle {
        rect: Rect { x: o.rect.x, y: (o.rect.y + o.vy * dt) as i64, w: o.rect.w, h: o.rect.h },
        vy: o.vy,
    }
}

/// The live obstacles that survive one sweep with time step `dt` and screen
/// bound `bound`: each advances by `vy * dt`, and those whose top edge stays
/// at or above `bound + SWEEP_EPS` remain, in order.
pub open spec fn swept_live(s: Seq<Obstacle>, dt: int, bound: int) -> Seq<Obstacle>
    decreases s.len(),
{
    if s.len() == 0 {
        Seq::empty()
    } else {
        let prev = swept_live(s.drop_last(), dt, bound);
        let m = ob_moved(s.last(), dt);
        if m.rect.y <= bound + SWEEP_EPS {
            prev.push(m)
        } else {
            prev
        }
    }
}

/// The obstacles one sweep recycles: those that moved past the screen bound,
/// in order.
pub open spec fn swept_gone(s: Seq<Obstacle>, dt: int, bound: int) -> Seq<Obstacle>
    decreases s.len(),
{
    if s.len() == 0 {
        Seq::empty()
    } else {
        let prev = swept_gone(s.drop_last(), dt, bound);
        let m = ob_moved(s.last(), dt);
        if m.rect.y <= bound + SWEEP_EPS {
            prev
        } else {
            prev.push(m)
        }
    }
}

/// A sweep neither loses nor duplicates objects: survivors and recycled
/// objects together count exactly the input.
pub proof fn lemma_swept_lens(s: Seq<Obstacle>, dt: int, bound: int)
    ensures
        swept_live(s, dt, bound).len() + swept_gone(s, dt, bound).len() == s.len(),
    decreases s.len(),
{
    if s.len() > 0 {
        lemma_swept_lens(s.drop_last(), dt, bound);
    }
}

/// The pool of obstacles.  `constructed` counts every object ever allocated;
/// `wf` states that no object leaks or is duplicated.
pub struct ObstaclePool {
    live: Vec<Obstacle>,
    dead: Vec<Obstacle>,
    constructed: Ghost<nat>,
}

impl ObstaclePool {
    /// The live obstacles, in pool order.
    pub closed spec fn live_view(&self) -> Seq<Obstacle> {
        self.live@
    }

    /// The recycled obstacles.
    pub closed spec fn dead_view(&self) -> Seq<Obstacle> {
        self.dead@
    }

    /// How many obstacles this pool ever constructed.
    pub closed spec fn constructed_total(&self) -> nat {
        self.constructed@
    }

    /// Pool invariant: every object ever constructed is in exactly one of the
    /// live and recycled collections, and live objects are bounded.
    pub open spec fn wf(&self) -> bool {
        &&& self.live_view().len() + self.dead_view().len() == self.constructed_total()
        &&& forall|i: int| 0 <= i < self.live_view().len() ==> ob_wf(#[trigger] self.live_view()[i])
    }

    pub fn new() -> (p: ObstaclePool)
        ensures
            p.wf(),
            p.live_view().len() == 0,
            p.dead_view().len() == 0,
            p.constructed_total() == 0,
    {
        ObstaclePool { live: Vec::new(), dead: Vec::new(), constructed: Ghost(0) }
    }

    pub fn live_len(&self) -> (n: usize)
        ensures
            n == self.live_view().len(),
    {
        self.live.len()
    }

    pub fn dead_len(&self) -> (n: usize)
        ensures
            n == self.dead_view().len(),
    {
        self.dead.len()
    }

    pub fn live_at(&self, i: usize) -> (o: Obstacle)
        requires
            i < self.live_view().len(),
        ensures
            o == self.live_view()[i as int],
    {
        self.live[i]
    }

    /// Takes a recycled object if one exists (overwriting every field), else
    /// allocates, and appends the obstacle to the live set.
    pub fn spawn(&mut self, rect: Rect, vy: i64)
        requires
            old(self).wf(),
            ob_wf(Obstacle { rect, vy }),
        ensures
            final(self).wf(),
            final(self).live_view() == old(self).live_view().push(Obstacle { rect, vy }),
            old(self).dead_view().len() > 0 ==> {
                &&& final(self).dead_view() == old(self).dead_view().drop_last()
                &&& final(self).constructed_total() == old(self).constructed_total()
            },
            old(self).dead_view().len() == 0 ==> {
                &&& final(self).dead_view() == old(self).dead_view()
                &&& final(self).constructed_total() == old(self).constructed_total() + 1
            },
    {
        if let Some(mut o) = self.dead.pop() {
            o.rect = rect;
            o.vy = vy;
            self.live.push(o);
            proof {
                assert(old(self).dead_view().drop_last() =~= old(self).dead_view().subrange(
                    0,
                    old(self).dead_view().len() - 1,
                ));
            }
        } else {
            self.live.push(Obstacle { rect, vy });
            self.constructed = Ghost(self.constructed@ + 1);
        }
    }

    /// Advances every live obstacle by `vy * dt`, keeping pool order, and
    /// recycles those whose top edge has passed `bound + SWEEP_EPS`.
    pub fn update_and_sweep(&mut self, bound: i64, dt: i64)
        requires
            old(self).wf(),
            0 <= bound <= MAX_SCREEN,
            0 <= dt <= MAX_TICK_MS,
        ensures
            final(self).wf(),
            final(self).live_view() == swept_live(old(self).live_view(), dt as int, bound as int),
            final(self).dead_view() == old(self).dead_view() + swept_gone(
                old(self).live_view(),
                dt as int,
                bound as int,
            ),
            final(self).constructed_total() == old(self).constructed_total(),
    {
        let ghost orig = self.live@;
        let ghost dead0 = self.dead@;
        let n = self.live.len();
        let mut i: usize = 0;
        let mut kept: usize = 0;
        while i < n
            invariant
                kept <= i <= n,
                self.live@.len() == n,
                n == orig.len(),
                0 <= bound <= MAX_SCREEN,
                0 <= dt <= MAX_TICK_MS,
                forall|j: int| 0 <= j < n ==> ob_wf(#[trigger] orig[j]),
                forall|j: int| i <= j < n ==> self.live@[j] == orig[j],
                self.live@.subrange(0, kept as int) == swept_live(
                    orig.subrange(0, i as int),
                    dt as int,
                    bound as int,
                ),
                self.dead@ == dead0 + swept_gone(orig.subrange(0, i as int), dt as int, bound as int),
                forall|j: int| 0 <= j < kept ==> ob_wf(#[trigger] self.live@[j]),
                self.constructed@ == old(self).constructed@,
            decreases n - i,
        {
            let o = self.live[i];
            proof {
                assert(o == orig[i as int]);
                assert(ob_wf(orig[i as int]));
                assert(0 <= o.vy * dt <= VY_CAP * MAX_TICK_MS) by (nonlinear_arith)
                    requires 0 <= o.vy <= VY_CAP && 0 <= dt <= MAX_TICK_MS;
            }
            let m = Obstacle {
                rect: Rect { x: o.rect.x, y: o.rect.y + o.vy * dt, w: o.rect.w, h: o.rect.h },
                vy: o.vy,
            };
            let ghost pre = orig.subrange(0, i as int);
            let ghost post = orig.subrange(0, i as int + 1);
            proof {
                assert(post.drop_last() =~= pre);
                assert(post.last() == orig[i as int]);
                assert(m == ob_moved(orig[i as int], dt as int));
            }
            if m.rect.y <= bound + SWEEP_EPS {
                self.live[kept] = m;
                kept = kept + 1;
                proof {
                    assert(self.live@.subrange(0, kept as int) =~= swept_live(
                        post,
                        dt as int,
                        bound as int,
                    ));
                }
            } else {
                self.dead.push(m);
                proof {
                    assert(self.dead@ =~= dead0 + swept_gone(post, dt as int, bound as int));
                }
            }
            i = i + 1;
        }
        self.live.truncate(kept);
        proof {
            assert(orig.subrange(0, n as int) =~= orig);
            lemma_swept_lens(orig, dt as int, bound as int);
        }
    }

    /// Moves every live obstacle to the recycled set (the bomb effect).
    pub fn clear_all(&mut self)
        requires
            old(self).wf(),
        ensures
            final(self).wf(),
            final(self).live_view().len() == 0,
            final(self).dead_view() == old(self).dead_view() + old(self).live_view(),
            final(self).constructed_total() == old(self).constructed_total(),
    {
        self.dead.append(&mut self.live);
    }

    /// Recycles the live obstacle at index `i` (shield absorption).
    pub fn recycle_at(&mut self, i: usize)
        requires
            old(self).wf(),
            i < old(self).live_view().len(),
        ensures
            final(self).wf(),
            final(self).live_view() == old(self).live_view().remove(i as int),
            final(self).dead_view() == old(self).dead_view().push(
                old(self).live_view()[i as int],
            ),
            final(self).constructed_total() == old(self).constructed_total(),
    {
        let o = self.live.remove(i);
        self.dead.push(o);
        proof {
            old(self).live_view().remove_ensures(i as int);
        }
    }

    /// Drops every object, live and recycled (round reset).
    pub fn reset(&mut self)
        ensures
            final(self).wf(),
            final(self).live_view().len() == 0,
            final(self).dead_view().len() == 0,
            final(self).constructed_total() == 0,
    {
        self.live.clear();
        self.dead.clear();
        self.constructed = Ghost(0);
    }

    /// The index of the first live obstacle (in pool order) overlapping
    /// `target`, if any.
    pub fn first_live_hit(&self, target: Rect) -> (r: Option<usize>)
        requires
            self.wf(),
            rect_bounded(target),
        ensures
            ({
                let rects = self.live_view().map_values(|o: Obstacle| o.rect);
                match r {
                    Some(i) => first_hit_idx(rects, target) == i && i < self.live_view().len(),
                    None => first_hit_idx(rects, target) == -1,
                }
            }),
    {
        let ghost rects = self.live_view().map_values(|o: Obstacle| o.rect);
        let n = self.live.len();
        let mut i: usize = 0;
        while i < n
            invariant
                i <= n,
                n == self.live@.len(),
                self.wf(),
                rect_bounded(target),
                rects == self.live_view().map_values(|o: Obstacle| o.rect),
                forall|j: int| 0 <= j < i ==> !overlap(#[trigger] rects[j], target),
            decreases n - i,
        {
            let o = self.live[i];
            proof {
                assert(ob_wf(self.live_view()[i as int]));
                assert(rects[i as int] == o.rect);
            }
            if rects_overlap(o.rect, target) {
                proof {
                    assert(is_first_hit(rects, target, i as int));
                    lemma_first_hit_at(rects, target, i as int);
                }
                return Some(i);
            }
            i = i + 1;
        }
        proof {
            lemma_no_hit(rects, target);
        }
        None
    }
}

} // verus!
