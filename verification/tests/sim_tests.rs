use dodge_rush::config::{MAX_SCREEN, OB_MAX_SIZE, OB_MIN_SIZE, PU_FALL_SPEED, PU_SIZE, SCALE,
    SHAKE_OVER, SLOW_DURATION_MS};
use dodge_rush::game::{idle_input, update_game, update_game_random, Game, GameMode, TickDraws,
    TickInput};
use dodge_rush::geom::{rects_overlap, Rect};
use dodge_rush::obstacles::ObstaclePool;
use dodge_rush::powerups::{PowerUpKind, PowerUpPool};

fn quiet_draws() -> TickDraws {
    TickDraws {
        ob_size: 40_000_000,
        ob_x: 0,
        ob_speed_frac: 1000,
        pu_roll: 99,
        pu_x: PU_SIZE,
        pu_kind: PowerUpKind::Shield,
    }
}

fn held(axis: i64) -> TickInput {
    TickInput {
        axis,
        start_pressed: false,
        pause_pressed: false,
        restart_pressed: false,
        menu_pressed: false,
    }
}

fn press_start() -> TickInput {
    TickInput {
        axis: 0,
        start_pressed: true,
        pause_pressed: false,
        restart_pressed: false,
        menu_pressed: false,
    }
}

/// An obstacle square that overlaps the player hitbox for a player at
/// `x` micro-pixels.
fn obstacle_on_player(game: &mut Game) {
    let x = game.player.x;
    game.obs.spawn(Rect::new(x + 6_000_000, 560_000_000, 40_000_000, 40_000_000), 100_000);
}

#[test]
fn round_start_centers_player_and_right_hold_saturates() {
    let mut game = Game::new(0);
    let eff = update_game(&mut game, press_start(), quiet_draws(), 800, 600, 8);
    assert_eq!(eff, None);
    assert_eq!(game.mode, GameMode::Playing);
    // 800 * 0.5 - 80 * 0.5 = 360 pixels.
    assert_eq!(game.player.x, 360 * SCALE);
    assert_eq!(game.player.vx, 0);
    // Hold right for one second of fixed ticks.
    for _ in 0..125 {
        update_game(&mut game, held(1), quiet_draws(), 800, 600, 8);
    }
    // Velocity saturates at 520 px/s well before one second...
    assert_eq!(game.player.vx, 520_000);
    // ...and the position clamps at 800 - 80 = 720 pixels.
    assert_eq!(game.player.x, 720 * SCALE);
    // One point per 0.4 s of play.
    assert_eq!(game.score, 2);
    assert_eq!(game.elapsed, 1000);
}

#[test]
fn left_hold_clamps_at_left_wall() {
    let mut game = Game::new(0);
    game.reset_round(800);
    for _ in 0..125 {
        update_game(&mut game, held(-1), quiet_draws(), 800, 600, 8);
    }
    assert_eq!(game.player.vx, -520_000);
    assert_eq!(game.player.x, 0);
}

#[test]
fn score_is_exact_under_any_tick_split() {
    let splits: [(i64, usize); 4] = [(8, 125), (500, 2), (1, 1000), (100, 10)];
    for (dt, n) in splits {
        let mut game = Game::new(0);
        game.reset_round(800);
        for _ in 0..n {
            update_game(&mut game, idle_input(), quiet_draws(), 800, 600, dt);
        }
        // One second of play: floor(1000 / 400) = 2 points, 200 ms remainder.
        assert_eq!(game.score, 2, "split dt={dt}");
        assert_eq!(game.time_tick, 200, "split dt={dt}");
    }
}

#[test]
fn gameover_commits_best_once_and_keeps_larger_best() {
    let mut game = Game::new(50);
    game.reset_round(800);
    game.score = 30;
    obstacle_on_player(&mut game);
    let eff = update_game(&mut game, idle_input(), quiet_draws(), 800, 600, 0);
    // best_score = 50 > score = 30: the persistence collaborator is handed 50.
    assert_eq!(eff, Some(50));
    assert_eq!(game.best_score, 50);
    assert_eq!(game.mode, GameMode::GameOver);
    assert_eq!(game.shake, SHAKE_OVER);
    // The colliding obstacle is not consumed on game over.
    assert_eq!(game.obs.live_len(), 1);
    // Further ticks in GameOver never commit again.
    let eff2 = update_game(&mut game, idle_input(), quiet_draws(), 800, 600, 8);
    assert_eq!(eff2, None);
}

#[test]
fn gameover_raises_best_when_score_is_higher() {
    let mut game = Game::new(10);
    game.reset_round(800);
    game.score = 30;
    obstacle_on_player(&mut game);
    let eff = update_game(&mut game, idle_input(), quiet_draws(), 800, 600, 0);
    assert_eq!(eff, Some(30));
    assert_eq!(game.best_score, 30);
}

#[test]
fn shield_absorbs_hit_and_round_continues() {
    let mut game = Game::new(0);
    game.reset_round(800);
    game.shield = 2;
    game.score = 30;
    obstacle_on_player(&mut game);
    let eff = update_game(&mut game, idle_input(), quiet_draws(), 800, 600, 0);
    assert_eq!(eff, None);
    assert_eq!(game.shield, 1);
    assert_eq!(game.mode, GameMode::Playing);
    assert_eq!(game.score, 30);
    // The colliding obstacle moved from the live set to the recycled set.
    assert_eq!(game.obs.live_len(), 0);
    assert_eq!(game.obs.dead_len(), 1);
}

#[test]
fn two_overlapping_obstacles_end_round_exactly_once() {
    let mut game = Game::new(0);
    game.reset_round(800);
    game.score = 7;
    obstacle_on_player(&mut game);
    obstacle_on_player(&mut game);
    let eff = update_game(&mut game, idle_input(), quiet_draws(), 800, 600, 0);
    assert_eq!(eff, Some(7));
    assert_eq!(game.mode, GameMode::GameOver);
    // Exactly one transition: neither obstacle was consumed.
    assert_eq!(game.obs.live_len(), 2);
    assert_eq!(game.best_score, 7);
}

#[test]
fn bomb_recycles_every_live_obstacle() {
    let mut game = Game::new(0);
    game.reset_round(800);
    // Three live obstacles away from the player.
    game.obs.spawn(Rect::new(0, 0, 30_000_000, 30_000_000), 100_000);
    game.obs.spawn(Rect::new(100_000_000, 0, 30_000_000, 30_000_000), 100_000);
    game.obs.spawn(Rect::new(200_000_000, 0, 30_000_000, 30_000_000), 100_000);
    // A bomb power-up overlapping the player.
    game.pus.spawn(game.player.x, 560_000_000, PowerUpKind::Bomb);
    let eff = update_game(&mut game, idle_input(), quiet_draws(), 800, 600, 0);
    assert_eq!(eff, None);
    assert_eq!(game.obs.live_len(), 0);
    assert_eq!(game.obs.dead_len(), 3);
    assert_eq!(game.pus.live_len(), 0);
    assert_eq!(game.pus.dead_len(), 1);
    assert_eq!(game.mode, GameMode::Playing);
    // Bomb shake is at least 6.0 units.
    assert_eq!(game.shake, 6 * SCALE);
}

#[test]
fn bomb_shake_is_monotonic_max() {
    let mut game = Game::new(0);
    game.reset_round(800);
    game.shake = 8 * SCALE;
    game.pus.spawn(game.player.x, 560_000_000, PowerUpKind::Bomb);
    update_game(&mut game, idle_input(), quiet_draws(), 800, 600, 0);
    // A larger existing shake is not cancelled by the bomb's 6.0.
    assert_eq!(game.shake, 8 * SCALE);
}

#[test]
fn shield_pickup_caps_at_three() {
    let mut game = Game::new(0);
    game.reset_round(800);
    game.shield = 3;
    game.pus.spawn(game.player.x, 560_000_000, PowerUpKind::Shield);
    update_game(&mut game, idle_input(), quiet_draws(), 800, 600, 0);
    assert_eq!(game.shield, 3);
    assert_eq!(game.pus.live_len(), 0);
}

#[test]
fn slow_pickup_refreshes_rather_than_stacks() {
    let mut game = Game::new(0);
    game.reset_round(800);
    game.slow_timer = 2000;
    game.pus.spawn(game.player.x, 560_000_000, PowerUpKind::Slow);
    update_game(&mut game, idle_input(), quiet_draws(), 800, 600, 0);
    assert_eq!(game.slow_timer, SLOW_DURATION_MS);
}

#[test]
fn pickup_is_first_match_only() {
    let mut game = Game::new(0);
    game.reset_round(800);
    game.pus.spawn(game.player.x, 560_000_000, PowerUpKind::Slow);
    game.pus.spawn(game.player.x, 560_000_000, PowerUpKind::Shield);
    update_game(&mut game, idle_input(), quiet_draws(), 800, 600, 0);
    // Only the first overlapping power-up was collected this tick.
    assert_eq!(game.slow_timer, SLOW_DURATION_MS);
    assert_eq!(game.shield, 0);
    assert_eq!(game.pus.live_len(), 1);
    // The second one is collected on a later tick.
    update_game(&mut game, idle_input(), quiet_draws(), 800, 600, 0);
    assert_eq!(game.shield, 1);
    assert_eq!(game.pus.live_len(), 0);
}

#[test]
fn random_spawns_stay_in_documented_ranges() {
    let mut game = Game::new(0);
    game.reset_round(800);
    for _ in 0..125 {
        update_game_random(&mut game, held(0), 800, 600, 8);
    }
    // One second in, the spawn policy has produced at least one obstacle,
    // with the random size, position and speed inside their ranges.
    assert!(game.obs.live_len() >= 1);
    for i in 0..game.obs.live_len() {
        let o = game.obs.live_at(i);
        assert!(OB_MIN_SIZE <= o.rect.w && o.rect.w <= OB_MAX_SIZE);
        assert_eq!(o.rect.w, o.rect.h);
        assert!(0 <= o.rect.x && o.rect.x + o.rect.w <= 800 * SCALE);
        assert!(o.vy >= 0);
    }
    // Score is deterministic whatever was drawn.
    assert_eq!(game.score, 2);
    assert!(0 <= game.player.x && game.player.x <= 720 * SCALE);
}

#[test]
fn obstacle_pool_conserves_objects() {
    let mut pool = ObstaclePool::new();
    pool.spawn(Rect::new(0, 0, 30_000_000, 30_000_000), 1_000_000_000);
    pool.spawn(Rect::new(0, 0, 30_000_000, 30_000_000), 0);
    pool.spawn(Rect::new(0, 99_000_000_000, 30_000_000, 30_000_000), 1_000_000_000);
    assert_eq!(pool.live_len() + pool.dead_len(), 3);
    // Sweep on a 600-pixel screen: the first and third fall past the bound.
    pool.update_and_sweep(600_000_000, 1000);
    assert_eq!(pool.live_len(), 1);
    assert_eq!(pool.dead_len(), 2);
    pool.clear_all();
    assert_eq!(pool.live_len(), 0);
    assert_eq!(pool.dead_len(), 3);
    // Spawning now reuses recycled storage: the total stays 3.
    pool.spawn(Rect::new(0, 0, 25_000_000, 25_000_000), 5);
    assert_eq!(pool.live_len(), 1);
    assert_eq!(pool.dead_len(), 2);
    assert_eq!(pool.live_len() + pool.dead_len(), 3);
    let o = pool.live_at(0);
    assert_eq!(o.rect.w, 25_000_000);
    assert_eq!(o.vy, 5);
}

#[test]
fn powerup_pool_conserves_objects() {
    let mut pool = PowerUpPool::new();
    pool.spawn(0, 0, PowerUpKind::Shield);
    pool.spawn(100_000_000, 0, PowerUpKind::Bomb);
    assert_eq!(pool.live_len() + pool.dead_len(), 2);
    let picked = pool.pick_at(Rect::new(0, 0, PU_SIZE, PU_SIZE));
    assert!(matches!(picked, Some(PowerUpKind::Shield)));
    assert_eq!(pool.live_len(), 1);
    assert_eq!(pool.dead_len(), 1);
    let v = pool.live_at(0);
    assert_eq!(v.vy, PU_FALL_SPEED);
}

#[test]
fn sweep_moves_entities_by_velocity() {
    let mut pool = ObstaclePool::new();
    pool.spawn(Rect::new(10_000_000, -50_000_000, 40_000_000, 40_000_000), 140_000);
    pool.update_and_sweep(600_000_000, 500);
    let o = pool.live_at(0);
    // y advanced by vy * dt = 140_000 * 500 micro-pixels (70 pixels).
    assert_eq!(o.rect.y, -50_000_000 + 70_000_000);
    assert_eq!(o.rect.x, 10_000_000);
}

#[test]
fn touching_edges_do_not_overlap() {
    let a = Rect::new(0, 0, 10_000_000, 10_000_000);
    let b = Rect::new(10_000_000, 0, 10_000_000, 10_000_000);
    assert!(!rects_overlap(a, b));
    let c = Rect::new(9_999_999, 0, 10_000_000, 10_000_000);
    assert!(rects_overlap(a, c));
}

#[test]
fn player_x_stays_in_bounds_whatever_the_inputs() {
    let mut game = Game::new(0);
    game.reset_round(800);
    let pattern: [i64; 7] = [1, 1, -1, 0, 1, -1, -1];
    for round in 0..300usize {
        let axis = pattern[round % pattern.len()];
        update_game(&mut game, held(axis), quiet_draws(), 800, 600, 8);
        assert!(0 <= game.player.x);
        assert!(game.player.x <= (800 - 80) * SCALE);
        assert!(0 <= game.shield && game.shield <= 3);
    }
    assert!(game.player.x <= MAX_SCREEN);
}
