//! The game state machine and the fixed-step update: one tick advances the
//! player, the difficulty curve, both entity pools, the score accumulator,
//! power-up pickup and collision resolution, exactly as the mode dictates.

use vstd::prelude::*;

use crate::config::{ELAPSED_CAP_MS, FALL_SPEED_CAP, HITBOX_INSET, MAX_SCREEN, MAX_SCREEN_PX,
    MAX_TICK_MS, OB_MAX_SIZE, OB_MIN_SIZE, OB_SPAWN_GAP, OB_SPEED_FRAC_MAX, OB_SPEED_FRAC_MIN,
    OB_START_SPEED, PLAYER_H, PLAYER_SPEED_MAX, PLAYER_W, PLAYER_Y, PU_CHANCE_PERCENT,
    PU_SPAWN_GAP, PU_SPAWN_INTERVAL_MS, PU_SIZE, SCALE, SCORE_CAP, SCORE_STEP_MS, SHAKE_BOMB,
    SHAKE_DECAY, SHAKE_HIT, SHAKE_OVER, SHIELD_MAX, SLOW_DURATION_MS, SPAWN_BASE_INTERVAL_MS,
    SPAWN_INTERVAL_DECREMENT_MS, SPAWN_MIN_INTERVAL_MS};
use crate::difficulty::{difficulty_curve, spec_fall_speed, spec_spawn_interval};
use crate::geom::{first_hit_idx, Rect};
use crate::obstacles::{swept_live, Obstacle, ObstaclePool};
use crate::player::{player_step, spec_vx_after, spec_x_after, Player};
use crate::powerups::{pu_swept_live, PowerUp, PowerUpKind, PowerUpPool};

verus! {

/// The four modes of the state machine.
#[derive(Clone, Copy, PartialEq, Eq, Structural, Debug)]
pub enum GameMode {
    Menu,
    Playing,
    Paused,
    GameOver,
}

/// What the input collaborator hands the simulation each tick: a directional
/// axis in `{-1, 0, 1}` and the edge-triggered action presses.
#[derive(Clone, Copy, PartialEq, Eq, Structural, Debug)]
pub struct TickInput {
    pub axis: i64,
    pub start_pressed: bool,
    pub pause_pressed: bool,
    pub restart_pressed: bool,
    pub menu_pressed: bool,
}

pub open spec fn input_wf(inp: TickInput) -> bool {
    -1 <= inp.axis <= 1
}

/// A tick with no input at all.
pub fn idle_input() -> (inp: TickInput)
    ensures
        inp == (TickInput {
            axis: 0i64,
            start_pressed: false,
            pause_pressed: false,
            restart_pressed: false,
            menu_pressed: false,
        }),
{
    TickInput {
        axis: 0,
        start_pressed: false,
        pause_pressed: false,
        restart_pressed: false,
        menu_pressed: false,
    }
}

/// The uniform random draws one tick may consume.  The update step is a
/// deterministic, fully verified function of these; `update_game_random`
/// fills them from the generator.
#[derive(Clone, Copy, PartialEq, Eq, Structural, Debug)]
pub struct TickDraws {
    pub ob_size: i64,
    pub ob_x: i64,
    pub ob_speed_frac: i64,
    pub pu_roll: i64,
    pub pu_x: i64,
    pub pu_kind: PowerUpKind,
}

/// The ranges the spawn policy draws from, for a screen `w` micro-pixels
/// wide.
pub open spec fn draws_wf(d: TickDraws, w: int) -> bool {
    &&& OB_MIN_SIZE <= d.ob_size <= OB_MAX_SIZE
    &&& 0 <= d.ob_x <= w - d.ob_size
    &&& OB_SPEED_FRAC_MIN <= d.ob_speed_frac <= OB_SPEED_FRAC_MAX
    &&& 0 <= d.pu_roll < 100
    &&& PU_SIZE <= d.pu_x <= w - PU_SIZE
}

/// The whole simulation state: mode, player, the two entity pools, score and
/// best score, and the timers of the difficulty curve and the active effects.
pub struct Game {
    pub mode: GameMode,
    pub player: Player,
    pub obs: ObstaclePool,
    pub pus: PowerUpPool,
    /// Score accumulator, milliseconds toward the next point.
    pub time_tick: i64,
    pub score: i64,
    pub best_score: i64,
    /// Elapsed round time in milliseconds, saturating at `ELAPSED_CAP_MS`.
    pub elapsed: i64,
    pub spawn_timer: i64,
    /// Base spawn interval; shrinks by a fixed decrement after each spawn.
    pub spawn_base: i64,
    /// Effective spawn interval, recomputed every tick.
    pub spawn_interval: i64,
    /// Fall speed newly spawned obstacles start from, recomputed every tick.
    pub fall_speed: i64,
    pub shake: i64,
    pub shield: i64,
    pub slow_timer: i64,
    pub pu_spawn_timer: i64,
}

impl Game {
    /// The state invariant every public operation preserves.  In particular
    /// the shield charge stays within `[0, SHIELD_MAX]` and both pools
    /// account for every object they ever constructed.
    pub open spec fn wf(&self) -> bool {
        &&& self.obs.wf()
        &&& self.pus.wf()
        &&& 0 <= self.player.x <= MAX_SCREEN
        &&& -PLAYER_SPEED_MAX <= self.player.vx <= PLAYER_SPEED_MAX
        &&& 0 <= self.time_tick < SCORE_STEP_MS
        &&& 0 <= self.score <= SCORE_CAP
        &&& 0 <= self.elapsed <= ELAPSED_CAP_MS
        &&& 0 <= self.spawn_timer <= 2 * SPAWN_BASE_INTERVAL_MS
        &&& SPAWN_MIN_INTERVAL_MS <= self.spawn_base <= SPAWN_BASE_INTERVAL_MS
        &&& SPAWN_MIN_INTERVAL_MS <= self.spawn_interval <= 2 * SPAWN_BASE_INTERVAL_MS
        &&& 0 <= self.fall_speed <= FALL_SPEED_CAP
        &&& 0 <= self.shake <= SHAKE_OVER
        &&& 0 <= self.shield <= SHIELD_MAX
        &&& 0 <= self.slow_timer <= SLOW_DURATION_MS
        &&& 0 <= self.pu_spawn_timer <= PU_SPAWN_INTERVAL_MS
    }

    /// A fresh game on the menu screen, carrying the loaded best score.
    pub fn new(best: i64) -> (g: Game)
        ensures
            g.wf(),
            g.mode == GameMode::Menu,
            g.player == (Player { x: 0i64, vx: 0i64 }),
            g.obs.live_view().len() == 0,
            g.obs.dead_view().len() == 0,
            g.pus.live_view().len() == 0,
            g.pus.dead_view().len() == 0,
            g.time_tick == 0 && g.score == 0 && g.best_score == best,
            g.elapsed == 0 && g.spawn_timer == 0,
            g.spawn_base == SPAWN_BASE_INTERVAL_MS,
            g.spawn_interval == SPAWN_BASE_INTERVAL_MS,
            g.fall_speed == OB_START_SPEED,
            g.shake == 0 && g.shield == 0 && g.slow_timer == 0 && g.pu_spawn_timer == 0,
    {
        Game {
            mode: GameMode::Menu,
            player: Player { x: 0, vx: 0 },
            obs: ObstaclePool::new(),
            pus: PowerUpPool::new(),
            time_tick: 0,
            score: 0,
            best_score: best,
            elapsed: 0,
            spawn_timer: 0,
            spawn_base: SPAWN_BASE_INTERVAL_MS,
            spawn_interval: SPAWN_BASE_INTERVAL_MS,
            fall_speed: OB_START_SPEED,
            shake: 0,
            shield: 0,
            slow_timer: 0,
            pu_spawn_timer: 0,
        }
    }
}

/// All round state after a reset (everything but the mode): the player
/// centered on a screen `w` micro-pixels wide, empty pools, zeroed score,
/// timers and effects, initial difficulty; the best score persists.
pub open spec fn reset_fields(g0: Game, g1: Game, w: int) -> bool {
    &&& g1.player.x == w / 2 - PLAYER_W / 2
    &&& g1.player.vx == 0
    &&& g1.obs.live_view().len() == 0
    &&& g1.obs.dead_view().len() == 0
    &&& g1.obs.constructed_total() == 0
    &&& g1.pus.live_view().len() == 0
    &&& g1.pus.dead_view().len() == 0
    &&& g1.pus.constructed_total() == 0
    &&& g1.time_tick == 0
    &&& g1.score == 0
    &&& g1.best_score == g0.best_score
    &&& g1.elapsed == 0
    &&& g1.spawn_timer == 0
    &&& g1.spawn_base == SPAWN_BASE_INTERVAL_MS
    &&& g1.spawn_interval == SPAWN_BASE_INTERVAL_MS
    &&& g1.fall_speed == OB_START_SPEED
    &&& g1.shake == 0
    &&& g1.shield == 0
    &&& g1.slow_timer == 0
    &&& g1.pu_spawn_timer == 0
}

impl Game {
    /// Starts (or restarts) a round on a screen `w_px` pixels wide: resets
    /// all round state and enters `Playing`.
    pub fn reset_round(&mut self, w_px: i64)
        requires
            80 <= w_px <= MAX_SCREEN_PX,
        ensures
            final(self).wf(),
            reset_fields(*old(self), *final(self), w_px * SCALE),
            final(self).mode == GameMode::Playing,
    {
        let w = w_px * SCALE;
        self.player.x = w / 2 - PLAYER_W / 2;
        self.player.vx = 0;
        self.obs.reset();
        self.pus.reset();
        self.time_tick = 0;
        self.score = 0;
        self.elapsed = 0;
        self.spawn_timer = 0;
        self.spawn_base = SPAWN_BASE_INTERVAL_MS;
        self.spawn_interval = SPAWN_BASE_INTERVAL_MS;
        self.fall_speed = OB_START_SPEED;
        self.shake = 0;
        self.shield = 0;
        self.slow_timer = 0;
        self.pu_spawn_timer = 0;
        self.mode = GameMode::Playing;
        proof {
            assert(0 <= w / 2 - PLAYER_W / 2 <= MAX_SCREEN) by (nonlinear_arith)
                requires 80 * SCALE <= w <= MAX_SCREEN && PLAYER_W == 80 * SCALE
                    && MAX_SCREEN == 100_000_000_000;
        }
    }
}

/// Score after one tick: the accumulator grows by `dt` and yields one point
/// per full `SCORE_STEP_MS` it holds, saturating at `SCORE_CAP`.
pub open spec fn spec_score_after(score: int, acc: int, dt: int) -> int {
    let s = score + (acc + dt) / SCORE_STEP_MS as int;
    if s > SCORE_CAP {
        SCORE_CAP as int
    } else {
        s
    }
}

/// The remainder the score accumulator keeps across ticks.
pub open spec fn spec_acc_after(acc: int, dt: int) -> int {
    (acc + dt) % SCORE_STEP_MS as int
}

/// Shake decays by `SHAKE_DECAY` per millisecond, floored at zero.
pub open spec fn spec_shake_decay(shake: int, dt: int) -> int {
    let s = shake - SHAKE_DECAY * dt;
    if s < 0 {
        0
    } else {
        s
    }
}

/// The index of the first live obstacle (pool order) overlapping the hitbox,
/// or `-1`.
pub open spec fn spec_collide_idx(live: Seq<Obstacle>, hitbox: Rect) -> int {
    first_hit_idx(live.map_values(|o: Obstacle| o.rect), hitbox)
}

/// Outcome of the collision-resolution phase of one tick.
pub struct Resolution {
    pub live: Seq<Obstacle>,
    pub shield: int,
    pub shake: int,
    pub best: int,
    pub fatal: bool,
    pub saved: Option<int>,
}

/// Collision and round resolution: the first live obstacle overlapping the
/// hitbox is absorbed if a shield charge remains; otherwise the best score is
/// committed once (as the max of best and score), the save effect is emitted
/// once, no obstacle is consumed, and the round is over.
pub open spec fn spec_resolve(
    live: Seq<Obstacle>,
    hitbox: Rect,
    shield: int,
    best: int,
    score: int,
    shake: int,
) -> Resolution {
    let c = spec_collide_idx(live, hitbox);
    if c >= 0 {
        if shield > 0 {
            Resolution {
                live: live.remove(c),
                shield: shield - 1,
                shake: if shake < SHAKE_HIT {
                    SHAKE_HIT as int
                } else {
                    shake
                },
                best,
                fatal: false,
                saved: None,
            }
        } else {
            let b = if best < score {
                score
            } else {
                best
            };
            Resolution {
                live,
                shield,
                shake: SHAKE_OVER as int,
                best: b,
                fatal: true,
                saved: Some(b),
            }
        }
    } else {
        Resolution { live, shield, shake, best, fatal: false, saved: None }
    }
}

/// Everything but mode and shake is untouched.
pub open spec fn same_core(g0: Game, g1: Game) -> bool {
    &&& g1.player == g0.player
    &&& g1.obs == g0.obs
    &&& g1.pus == g0.pus
    &&& g1.time_tick == g0.time_tick
    &&& g1.score == g0.score
    &&& g1.best_score == g0.best_score
    &&& g1.elapsed == g0.elapsed
    &&& g1.spawn_timer == g0.spawn_timer
    &&& g1.spawn_base == g0.spawn_base
    &&& g1.spawn_interval == g0.spawn_interval
    &&& g1.fall_speed == g0.fall_speed
    &&& g1.shield == g0.shield
    &&& g1.slow_timer == g0.slow_timer
    &&& g1.pu_spawn_timer == g0.pu_spawn_timer
}

/// Menu: the start press begins a round; anything else is a no-op (shake
/// still decays).
pub open spec fn menu_post(g0: Game, g1: Game, eff: Option<i64>, inp: TickInput, w: int, dt: int) -> bool {
    &&& eff is None
    &&& if inp.start_pressed {
        &&& reset_fields(g0, g1, w)
        &&& g1.mode == GameMode::Playing
    } else {
        &&& same_core(g0, g1)
        &&& g1.shake == spec_shake_decay(g0.shake as int, dt)
        &&& g1.mode == GameMode::Menu
    }
}

/// Paused: pause resumes, restart begins a fresh round, menu returns to the
/// menu; presses are handled in that order, so a menu press decides the final
/// mode.
pub open spec fn paused_post(g0: Game, g1: Game, eff: Option<i64>, inp: TickInput, w: int, dt: int) -> bool {
    &&& eff is None
    &&& if inp.restart_pressed {
        &&& reset_fields(g0, g1, w)
        &&& g1.mode == (if inp.menu_pressed {
            GameMode::Menu
        } else {
            GameMode::Playing
        })
    } else {
        &&& same_core(g0, g1)
        &&& g1.shake == spec_shake_decay(g0.shake as int, dt)
        &&& g1.mode == (if inp.menu_pressed {
            GameMode::Menu
        } else if inp.pause_pressed {
            GameMode::Playing
        } else {
            GameMode::Paused
        })
    }
}

/// Game over: restart begins a fresh round, menu returns to the menu.
pub open spec fn gameover_post(g0: Game, g1: Game, eff: Option<i64>, inp: TickInput, w: int, dt: int) -> bool {
    &&& eff is None
    &&& if inp.restart_pressed {
        &&& reset_fields(g0, g1, w)
        &&& g1.mode == (if inp.menu_pressed {
            GameMode::Menu
        } else {
            GameMode::Playing
        })
    } else {
        &&& same_core(g0, g1)
        &&& g1.shake == spec_shake_decay(g0.shake as int, dt)
        &&& g1.mode == (if inp.menu_pressed {
            GameMode::Menu
        } else {
            GameMode::GameOver
        })
    }
}

/// One `Playing` tick, in order: player motion, slow-effect decay, elapsed
/// time, difficulty curve, obstacle spawn, power-up spawn attempt, both
/// sweeps, score accrual, first-match power-up pickup and its effect, and
/// collision resolution; a pause press then takes precedence over the mode
/// the tick computed, and shake decays last.
pub open spec fn playing_post(
    g0: Game,
    g1: Game,
    eff: Option<i64>,
    inp: TickInput,
    d: TickDraws,
    w: int,
    h: int,
    dt: int,
) -> bool {
    let vx1 = spec_vx_after(g0.player.vx as int, inp.axis as int, dt);
    let x1 = spec_x_after(g0.player.x as int, vx1, dt, w);
    let slow1 = if g0.slow_timer - dt < 0 {
        0
    } else {
        g0.slow_timer - dt
    };
    let slowed = slow1 > 0;
    let elapsed1 = if g0.elapsed + dt > ELAPSED_CAP_MS {
        ELAPSED_CAP_MS as int
    } else {
        g0.elapsed + dt
    };
    let fall1 = spec_fall_speed(elapsed1, slowed);
    let interval1 = spec_spawn_interval(g0.spawn_base as int, elapsed1, slowed);
    let ob_spawning = g0.spawn_timer + dt >= interval1;
    let spawn_timer1 = if ob_spawning {
        0
    } else {
        g0.spawn_timer + dt
    };
    let base1 = if ob_spawning {
        if g0.spawn_base - SPAWN_INTERVAL_DECREMENT_MS < SPAWN_MIN_INTERVAL_MS {
            SPAWN_MIN_INTERVAL_MS as int
        } else {
            g0.spawn_base - SPAWN_INTERVAL_DECREMENT_MS
        }
    } else {
        g0.spawn_base as int
    };
    let new_ob = (Obstacle {
        rect: Rect {
            x: d.ob_x,
            y: (-(d.ob_size + OB_SPAWN_GAP)) as i64,
            w: d.ob_size,
            h: d.ob_size,
        },
        vy: (fall1 * d.ob_speed_frac / 1000) as i64,
    });
    let obs_live1 = if ob_spawning {
        g0.obs.live_view().push(new_ob)
    } else {
        g0.obs.live_view()
    };
    let pu_trying = g0.pu_spawn_timer + dt >= PU_SPAWN_INTERVAL_MS;
    let pu_timer1 = if pu_trying {
        0
    } else {
        g0.pu_spawn_timer + dt
    };
    let pu_spawning = pu_trying && d.pu_roll < PU_CHANCE_PERCENT;
    let new_pu = (PowerUp {
        rect: Rect { x: d.pu_x, y: (-(PU_SIZE + PU_SPAWN_GAP)) as i64, w: PU_SIZE, h: PU_SIZE },
        vy: crate::config::PU_FALL_SPEED,
        kind: d.pu_kind,
    });
    let pus_live1 = if pu_spawning {
        g0.pus.live_view().push(new_pu)
    } else {
        g0.pus.live_view()
    };
    let obs_live2 = swept_live(obs_live1, dt, h);
    let pus_live2 = pu_swept_live(pus_live1, dt, h);
    let score1 = spec_score_after(g0.score as int, g0.time_tick as int, dt);
    let acc1 = spec_acc_after(g0.time_tick as int, dt);
    let pbox = (Rect { x: x1 as i64, y: PLAYER_Y, w: PLAYER_W, h: PLAYER_H });
    let pk = first_hit_idx(pus_live2.map_values(|p: PowerUp| p.rect), pbox);
    let picked = if pk >= 0 {
        Some(pus_live2[pk].kind)
    } else {
        None::<PowerUpKind>
    };
    let pus_live3 = if pk >= 0 {
        pus_live2.remove(pk)
    } else {
        pus_live2
    };
    let shield1 = if picked == Some(PowerUpKind::Shield) {
        if g0.shield + 1 > SHIELD_MAX {
            SHIELD_MAX as int
        } else {
            g0.shield + 1
        }
    } else {
        g0.shield as int
    };
    let slow2 = if picked == Some(PowerUpKind::Slow) {
        SLOW_DURATION_MS as int
    } else {
        slow1 as int
    };
    let bombed = picked == Some(PowerUpKind::Bomb);
    let obs_live3 = if bombed {
        Seq::<Obstacle>::empty()
    } else {
        obs_live2
    };
    let shake1 = if bombed && g0.shake < SHAKE_BOMB {
        SHAKE_BOMB as int
    } else {
        g0.shake as int
    };
    let hitbox = (Rect {
        x: (x1 + HITBOX_INSET) as i64,
        y: PLAYER_Y,
        w: (PLAYER_W - 2 * HITBOX_INSET) as i64,
        h: PLAYER_H,
    });
    let rsl = spec_resolve(obs_live3, hitbox, shield1, g0.best_score as int, score1, shake1);
    &&& g1.mode == (if inp.pause_pressed {
        GameMode::Paused
    } else if rsl.fatal {
        GameMode::GameOver
    } else {
        GameMode::Playing
    })
    &&& g1.player.vx == vx1
    &&& g1.player.x == x1
    &&& g1.slow_timer == slow2
    &&& g1.elapsed == elapsed1
    &&& g1.fall_speed == fall1
    &&& g1.spawn_interval == interval1
    &&& g1.spawn_timer == spawn_timer1
    &&& g1.spawn_base == base1
    &&& g1.pu_spawn_timer == pu_timer1
    &&& g1.score == score1
    &&& g1.time_tick == acc1
    &&& g1.best_score == rsl.best
    &&& g1.shield == rsl.shield
    &&& g1.shake == spec_shake_decay(rsl.shake, dt)
    &&& g1.obs.live_view() == rsl.live
    &&& g1.pus.live_view() == pus_live3
    &&& g1.obs.constructed_total() == g0.obs.constructed_total() + (
        if ob_spawning && g0.obs.dead_view().len() == 0 {
            1int
        } else {
            0int
        }
    )
    &&& g1.pus.constructed_total() == g0.pus.constructed_total() + (
        if pu_spawning && g0.pus.dead_view().len() == 0 {
            1int
        } else {
            0int
        }
    )
    &&& eff == (match rsl.saved {
        Some(b) => Some(b as i64),
        None => None::<i64>,
    })
}

/// Decays the shake magnitude over one tick.
fn decay_shake(shake: i64, dt: i64) -> (r: i64)
    requires
        0 <= shake <= SHAKE_OVER,
        0 <= dt <= MAX_TICK_MS,
    ensures
        r == spec_shake_decay(shake as int, dt as int),
        0 <= r <= SHAKE_OVER,
{
    if shake - SHAKE_DECAY * dt < 0 {
        0
    } else {
        shake - SHAKE_DECAY * dt
    }
}

/// The state of a `Playing` tick after motion, timers, difficulty, spawns,
/// sweeps and score accrual, before pickup and collision resolution.
pub open spec fn playing_mid(
    g0: Game,
    gm: Game,
    inp: TickInput,
    d: TickDraws,
    w: int,
    h: int,
    dt: int,
) -> bool {
    let vx1 = spec_vx_after(g0.player.vx as int, inp.axis as int, dt);
    let x1 = spec_x_after(g0.player.x as int, vx1, dt, w);
    let slow1 = if g0.slow_timer - dt < 0 {
        0
    } else {
        g0.slow_timer - dt
    };
    let slowed = slow1 > 0;
    let elapsed1 = if g0.elapsed + dt > ELAPSED_CAP_MS {
        ELAPSED_CAP_MS as int
    } else {
        g0.elapsed + dt
    };
    let fall1 = spec_fall_speed(elapsed1, slowed);
    let interval1 = spec_spawn_interval(g0.spawn_base as int, elapsed1, slowed);
    let ob_spawning = g0.spawn_timer + dt >= interval1;
    let new_ob = (Obstacle {
        rect: Rect {
            x: d.ob_x,
            y: (-(d.ob_size + OB_SPAWN_GAP)) as i64,
            w: d.ob_size,
            h: d.ob_size,
        },
        vy: (fall1 * d.ob_speed_frac / 1000) as i64,
    });
    let obs_live1 = if ob_spawning {
        g0.obs.live_view().push(new_ob)
    } else {
        g0.obs.live_view()
    };
    let pu_trying = g0.pu_spawn_timer + dt >= PU_SPAWN_INTERVAL_MS;
    let pu_spawning = pu_trying && d.pu_roll < PU_CHANCE_PERCENT;
    let new_pu = (PowerUp {
        rect: Rect { x: d.pu_x, y: (-(PU_SIZE + PU_SPAWN_GAP)) as i64, w: PU_SIZE, h: PU_SIZE },
        vy: crate::config::PU_FALL_SPEED,
        kind: d.pu_kind,
    });
    let pus_live1 = if pu_spawning {
        g0.pus.live_view().push(new_pu)
    } else {
        g0.pus.live_view()
    };
    &&& gm.mode == GameMode::Playing
    &&& gm.player.vx == vx1
    &&& gm.player.x == x1
    &&& gm.slow_timer == slow1
    &&& gm.elapsed == elapsed1
    &&& gm.fall_speed == fall1
    &&& gm.spawn_interval == interval1
    &&& gm.spawn_timer == (if ob_spawning {
        0
    } else {
        g0.spawn_timer + dt
    })
    &&& gm.spawn_base == (if ob_spawning {
        if g0.spawn_base - SPAWN_INTERVAL_DECREMENT_MS < SPAWN_MIN_INTERVAL_MS {
            SPAWN_MIN_INTERVAL_MS as int
        } else {
            g0.spawn_base - SPAWN_INTERVAL_DECREMENT_MS
        }
    } else {
        g0.spawn_base as int
    })
    &&& gm.pu_spawn_timer == (if pu_trying {
        0
    } else {
        g0.pu_spawn_timer + dt
    })
    &&& gm.score == spec_score_after(g0.score as int, g0.time_tick as int, dt)
    &&& gm.time_tick == spec_acc_after(g0.time_tick as int, dt)
    &&& gm.best_score == g0.best_score
    &&& gm.shield == g0.shield
    &&& gm.shake == g0.shake
    &&& gm.obs.live_view() == swept_live(obs_live1, dt, h)
    &&& gm.pus.live_view() == pu_swept_live(pus_live1, dt, h)
    &&& gm.obs.constructed_total() == g0.obs.constructed_total() + (
        if ob_spawning && g0.obs.dead_view().len() == 0 {
            1int
        } else {
            0int
        }
    )
    &&& gm.pus.constructed_total() == g0.pus.constructed_total() + (
        if pu_spawning && g0.pus.dead_view().len() == 0 {
            1int
        } else {
            0int
        }
    )
}

/// The pickup, collision-resolution, pause and shake-decay phase of a
/// `Playing` tick, from the mid-tick state `gm` to the final state `g1`.
pub open spec fn playing_end(gm: Game, g1: Game, eff: Option<i64>, inp: TickInput, dt: int) -> bool {
    let pbox = (Rect { x: gm.player.x, y: PLAYER_Y, w: PLAYER_W, h: PLAYER_H });
    let pk = first_hit_idx(gm.pus.live_view().map_values(|p: PowerUp| p.rect), pbox);
    let picked = if pk >= 0 {
        Some(gm.pus.live_view()[pk].kind)
    } else {
        None::<PowerUpKind>
    };
    let pus_live3 = if pk >= 0 {
        gm.pus.live_view().remove(pk)
    } else {
        gm.pus.live_view()
    };
    let shield1 = if picked == Some(PowerUpKind::Shield) {
        if gm.shield + 1 > SHIELD_MAX {
            SHIELD_MAX as int
        } else {
            gm.shield + 1
        }
    } else {
        gm.shield as int
    };
    let slow2 = if picked == Some(PowerUpKind::Slow) {
        SLOW_DURATION_MS as int
    } else {
        gm.slow_timer as int
    };
    let bombed = picked == Some(PowerUpKind::Bomb);
    let obs_live3 = if bombed {
        Seq::<Obstacle>::empty()
    } else {
        gm.obs.live_view()
    };
    let shake1 = if bombed && gm.shake < SHAKE_BOMB {
        SHAKE_BOMB as int
    } else {
        gm.shake as int
    };
    let hitbox = (Rect {
        x: (gm.player.x + HITBOX_INSET) as i64,
        y: PLAYER_Y,
        w: (PLAYER_W - 2 * HITBOX_INSET) as i64,
        h: PLAYER_H,
    });
    let rsl = spec_resolve(obs_live3, hitbox, shield1, gm.best_score as int, gm.score as int, shake1);
    &&& g1.mode == (if inp.pause_pressed {
        GameMode::Paused
    } else if rsl.fatal {
        GameMode::GameOver
    } else {
        GameMode::Playing
    })
    &&& g1.player == gm.player
    &&& g1.slow_timer == slow2
    &&& g1.elapsed == gm.elapsed
    &&& g1.fall_speed == gm.fall_speed
    &&& g1.spawn_interval == gm.spawn_interval
    &&& g1.spawn_timer == gm.spawn_timer
    &&& g1.spawn_base == gm.spawn_base
    &&& g1.pu_spawn_timer == gm.pu_spawn_timer
    &&& g1.score == gm.score
    &&& g1.time_tick == gm.time_tick
    &&& g1.best_score == rsl.best
    &&& g1.shield == rsl.shield
    &&& g1.shake == spec_shake_decay(rsl.shake, dt)
    &&& g1.obs.live_view() == rsl.live
    &&& g1.pus.live_view() == pus_live3
    &&& g1.obs.constructed_total() == gm.obs.constructed_total()
    &&& g1.pus.constructed_total() == gm.pus.constructed_total()
    &&& eff == (match rsl.saved {
        Some(b) => Some(b as i64),
        None => None::<i64>,
    })
}

/// The two phases of a `Playing` tick compose into the whole-tick statement.
#[verifier::rlimit(100)]
#[verifier::spinoff_prover]
proof fn lemma_playing_compose(
    g0: Game,
    gm: Game,
    g1: Game,
    eff: Option<i64>,
    inp: TickInput,
    d: TickDraws,
    w: int,
    h: int,
    dt: int,
)
    requires
        playing_mid(g0, gm, inp, d, w, h, dt),
        playing_end(gm, g1, eff, inp, dt),
    ensures
        playing_post(g0, g1, eff, inp, d, w, h, dt),
{
}

/// Motion, timers, difficulty, spawns, sweeps and score accrual of one
/// `Playing` tick.
#[verifier::rlimit(100)]
#[verifier::spinoff_prover]
fn playing_flow(game: &mut Game, inp: TickInput, d: TickDraws, w_px: i64, h_px: i64, dt: i64)
    requires
        old(game).wf(),
        old(game).mode == GameMode::Playing,
        input_wf(inp),
        draws_wf(d, w_px * SCALE),
        80 <= w_px <= MAX_SCREEN_PX,
        0 <= h_px <= MAX_SCREEN_PX,
        0 <= dt <= MAX_TICK_MS,
    ensures
        final(game).wf(),
        playing_mid(
            *old(game),
            *final(game),
            inp,
            d,
            (w_px * SCALE) as int,
            (h_px * SCALE) as int,
            dt as int,
        ),
{
    let w = w_px * SCALE;
    let h = h_px * SCALE;
    player_step(&mut game.player, inp.axis, w, dt);
    game.slow_timer = if game.slow_timer - dt < 0 {
        0
    } else {
        game.slow_timer - dt
    };
    let slowed = game.slow_timer > 0;
    game.elapsed = if game.elapsed + dt > ELAPSED_CAP_MS {
        ELAPSED_CAP_MS
    } else {
        game.elapsed + dt
    };
    let curve = difficulty_curve(game.elapsed, game.spawn_base, slowed);
    game.fall_speed = curve.0;
    game.spawn_interval = curve.1;
    game.spawn_timer = game.spawn_timer + dt;
    if game.spawn_timer >= game.spawn_interval {
        game.spawn_timer = 0;
        game.spawn_base = if game.spawn_base - SPAWN_INTERVAL_DECREMENT_MS
            < SPAWN_MIN_INTERVAL_MS {
            SPAWN_MIN_INTERVAL_MS
        } else {
            game.spawn_base - SPAWN_INTERVAL_DECREMENT_MS
        };
        proof {
            assert(0 <= game.fall_speed * d.ob_speed_frac <= FALL_SPEED_CAP
                * OB_SPEED_FRAC_MAX) by (nonlinear_arith)
                requires 0 <= game.fall_speed <= FALL_SPEED_CAP && 0 <= d.ob_speed_frac
                    <= OB_SPEED_FRAC_MAX;
            vstd::arithmetic::div_mod::lemma_div_is_ordered(
                game.fall_speed * d.ob_speed_frac,
                FALL_SPEED_CAP * OB_SPEED_FRAC_MAX,
                1000,
            );
            vstd::arithmetic::div_mod::lemma_div_pos_is_pos(
                game.fall_speed * d.ob_speed_frac,
                1000,
            );
        }
        let vy = game.fall_speed * d.ob_speed_frac / 1000;
        game.obs.spawn(
            Rect { x: d.ob_x, y: -(d.ob_size + OB_SPAWN_GAP), w: d.ob_size, h: d.ob_size },
            vy,
        );
    }
    game.pu_spawn_timer = game.pu_spawn_timer + dt;
    if game.pu_spawn_timer >= PU_SPAWN_INTERVAL_MS {
        game.pu_spawn_timer = 0;
        if d.pu_roll < PU_CHANCE_PERCENT {
            game.pus.spawn(d.pu_x, -(PU_SIZE + PU_SPAWN_GAP), d.pu_kind);
        }
    }
    game.obs.update_and_sweep(h, dt);
    game.pus.update_and_sweep(h, dt);
    let total = game.time_tick + dt;
    proof {
        vstd::arithmetic::div_mod::lemma_fundamental_div_mod(
            total as int,
            SCORE_STEP_MS as int,
        );
    }
    let inc = total / SCORE_STEP_MS;
    game.time_tick = total % SCORE_STEP_MS;
    game.score = if game.score + inc > SCORE_CAP {
        SCORE_CAP
    } else {
        game.score + inc
    };
}

/// Pickup, collision resolution, the pause press and shake decay of one
/// `Playing` tick.
#[verifier::rlimit(100)]
#[verifier::spinoff_prover]
fn playing_resolve(game: &mut Game, inp: TickInput, dt: i64) -> (eff: Option<i64>)
    requires
        old(game).wf(),
        old(game).mode == GameMode::Playing,
        0 <= dt <= MAX_TICK_MS,
    ensures
        final(game).wf(),
        playing_end(*old(game), *final(game), eff, inp, dt as int),
{
    let mut eff: Option<i64> = None;
    let pbox = Rect { x: game.player.x, y: PLAYER_Y, w: PLAYER_W, h: PLAYER_H };
    match game.pus.pick_at(pbox) {
        Some(PowerUpKind::Shield) => {
            game.shield = if game.shield + 1 > SHIELD_MAX {
                SHIELD_MAX
            } else {
                game.shield + 1
            };
        },
        Some(PowerUpKind::Slow) => {
            game.slow_timer = SLOW_DURATION_MS;
        },
        Some(PowerUpKind::Bomb) => {
            game.obs.clear_all();
            proof {
                assert(game.obs.live_view() =~= Seq::<Obstacle>::empty());
            }
            if game.shake < SHAKE_BOMB {
                game.shake = SHAKE_BOMB;
            }
        },
        None => {},
    }
    let hitbox = Rect {
        x: game.player.x + HITBOX_INSET,
        y: PLAYER_Y,
        w: PLAYER_W - 2 * HITBOX_INSET,
        h: PLAYER_H,
    };
    match game.obs.first_live_hit(hitbox) {
        Some(i) => {
            if game.shield > 0 {
                game.obs.recycle_at(i);
                game.shield = game.shield - 1;
                if game.shake < SHAKE_HIT {
                    game.shake = SHAKE_HIT;
                }
            } else {
                game.best_score = if game.best_score < game.score {
                    game.score
                } else {
                    game.best_score
                };
                eff = Some(game.best_score);
                game.mode = GameMode::GameOver;
                game.shake = SHAKE_OVER;
            }
        },
        None => {},
    }
    if inp.pause_pressed {
        game.mode = GameMode::Paused;
    }


    game.shake = decay_shake(game.shake, dt);
    eff
}

/// One tick of the `Playing` mode.
fn playing_tick(
    game: &mut Game,
    inp: TickInput,
    d: TickDraws,
    w_px: i64,
    h_px: i64,
    dt: i64,
) -> (eff: Option<i64>)
    requires
        old(game).wf(),
        old(game).mode == GameMode::Playing,
        input_wf(inp),
        draws_wf(d, w_px * SCALE),
        80 <= w_px <= MAX_SCREEN_PX,
        0 <= h_px <= MAX_SCREEN_PX,
        0 <= dt <= MAX_TICK_MS,
    ensures
        final(game).wf(),
        playing_post(
            *old(game),
            *final(game),
            eff,
            inp,
            d,
            (w_px * SCALE) as int,
            (h_px * SCALE) as int,
            dt as int,
        ),
{
    let ghost g0 = *game;
    playing_flow(game, inp, d, w_px, h_px, dt);
    let ghost gm = *game;
    let eff = playing_resolve(game, inp, dt);
    proof {
        lemma_playing_compose(
            g0,
            gm,
            *game,
            eff,
            inp,
            d,
            (w_px * SCALE) as int,
            (h_px * SCALE) as int,
            dt as int,
        );
    }
    eff
}

/// Advances the simulation by one fixed tick of `dt` milliseconds on a screen
/// of `w_px` by `h_px` pixels, consuming the given input and random draws.
/// Returns `Some(best)` exactly when this tick ended the round, in which case
/// the caller must hand `best` to the persistence collaborator.
pub fn update_game(
    game: &mut Game,
    inp: TickInput,
    d: TickDraws,
    w_px: i64,
    h_px: i64,
    dt: i64,
) -> (eff: Option<i64>)
    requires
        old(game).wf(),
        input_wf(inp),
        draws_wf(d, w_px * SCALE),
        80 <= w_px <= MAX_SCREEN_PX,
        0 <= h_px <= MAX_SCREEN_PX,
        0 <= dt <= MAX_TICK_MS,
    ensures
        final(game).wf(),
        tick_post(
            *old(game),
            *final(game),
            eff,
            inp,
            d,
            (w_px * SCALE) as int,
            (h_px * SCALE) as int,
            dt as int,
        ),
{
    match game.mode {
        GameMode::Menu => {
            if inp.start_pressed {
                game.reset_round(w_px);
            }
            game.shake = decay_shake(game.shake, dt);
            None
        },
        GameMode::Playing => playing_tick(game, inp, d, w_px, h_px, dt),
        GameMode::Paused => {
            if inp.pause_pressed {
                game.mode = GameMode::Playing;
            }
            if inp.restart_pressed {
                game.reset_round(w_px);
            }
            if inp.menu_pressed {
                game.mode = GameMode::Menu;
            }
            game.shake = decay_shake(game.shake, dt);
            None
        },
        GameMode::GameOver => {
            if inp.restart_pressed {
                game.reset_round(w_px);
            }
            if inp.menu_pressed {
                game.mode = GameMode::Menu;
            }
            game.shake = decay_shake(game.shake, dt);
            None
        },
    }
}

/// Advances the simulation by one tick, drawing the spawn randomness from
/// the generator.  Whatever the draws were, they lay in the documented ranges
/// and the tick behaved as `tick_post` states for them.
pub fn update_game_random(
    game: &mut Game,
    inp: TickInput,
    w_px: i64,
    h_px: i64,
    dt: i64,
) -> (eff: Option<i64>)
    requires
        old(game).wf(),
        input_wf(inp),
        80 <= w_px <= MAX_SCREEN_PX,
        0 <= h_px <= MAX_SCREEN_PX,
        0 <= dt <= MAX_TICK_MS,
    ensures
        final(game).wf(),
        exists|d: TickDraws|
            #[trigger] draws_wf(d, w_px * SCALE) && tick_post(
                *old(game),
                *final(game),
                eff,
                inp,
                d,
                (w_px * SCALE) as int,
                (h_px * SCALE) as int,
                dt as int,
            ),
{
    let w = w_px * SCALE;
    let mut rng = crate::rng::fresh_rng();
    let ob_size = crate::rng::range_i64(&mut rng, OB_MIN_SIZE, OB_MAX_SIZE);
    let ob_x = crate::rng::range_i64(&mut rng, 0, w - ob_size);
    let ob_speed_frac = crate::rng::range_i64(&mut rng, OB_SPEED_FRAC_MIN, OB_SPEED_FRAC_MAX);
    let pu_roll = crate::rng::range_i64(&mut rng, 0, 99);
    let pu_x = crate::rng::range_i64(&mut rng, PU_SIZE, w - PU_SIZE);
    let kind_roll = crate::rng::range_i64(&mut rng, 0, 2);
    let pu_kind = if kind_roll == 0 {
        PowerUpKind::Shield
    } else if kind_roll == 1 {
        PowerUpKind::Slow
    } else {
        PowerUpKind::Bomb
    };
    let d = TickDraws { ob_size, ob_x, ob_speed_frac, pu_roll, pu_x, pu_kind };
    let eff = update_game(game, inp, d, w_px, h_px, dt);
    proof {
        assert(draws_wf(d, w_px * SCALE));
    }
    eff
}

/// What one fixed tick does, for every mode.
pub open spec fn tick_post(
    g0: Game,
    g1: Game,
    eff: Option<i64>,
    inp: TickInput,
    d: TickDraws,
    w: int,
    h: int,
    dt: int,
) -> bool {
    match g0.mode {
        GameMode::Menu => menu_post(g0, g1, eff, inp, w, dt),
        GameMode::Playing => playing_post(g0, g1, eff, inp, d, w, h, dt),
        GameMode::Paused => paused_post(g0, g1, eff, inp, w, dt),
        GameMode::GameOver => gameover_post(g0, g1, eff, inp, w, dt),
    }
}

} // verus!
