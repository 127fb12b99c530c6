use dodge_rush::clock::FrameClock;
use dodge_rush::difficulty::difficulty_curve;
use dodge_rush::game::{update_game, Game, GameMode, TickDraws, TickInput};
use dodge_rush::powerups::PowerUpKind;

fn draws() -> TickDraws {
    TickDraws {
        ob_size: 30_000_000,
        ob_x: 0,
        ob_speed_frac: 1000,
        pu_roll: 99,
        pu_x: 28_000_000,
        pu_kind: PowerUpKind::Slow,
    }
}

fn press(pause: bool, restart: bool, menu: bool, start: bool) -> TickInput {
    TickInput {
        axis: 0,
        start_pressed: start,
        pause_pressed: pause,
        restart_pressed: restart,
        menu_pressed: menu,
    }
}

#[test]
fn menu_ignores_everything_but_start() {
    let mut game = Game::new(9);
    update_game(&mut game, press(true, true, true, false), draws(), 800, 600, 8);
    assert_eq!(game.mode, GameMode::Menu);
    assert_eq!(game.best_score, 9);
    update_game(&mut game, press(false, false, false, true), draws(), 800, 600, 8);
    assert_eq!(game.mode, GameMode::Playing);
    assert_eq!(game.score, 0);
}

#[test]
fn pause_toggles_and_freezes_the_round() {
    let mut game = Game::new(0);
    game.reset_round(800);
    game.score = 4;
    update_game(&mut game, press(true, false, false, false), draws(), 800, 600, 8);
    assert_eq!(game.mode, GameMode::Paused);
    // While paused nothing advances.
    update_game(&mut game, press(false, false, false, false), draws(), 800, 600, 8);
    assert_eq!(game.score, 4);
    assert_eq!(game.elapsed, 8);
    update_game(&mut game, press(true, false, false, false), draws(), 800, 600, 8);
    assert_eq!(game.mode, GameMode::Playing);
}

#[test]
fn paused_restart_resets_the_round() {
    let mut game = Game::new(3);
    game.reset_round(800);
    game.score = 11;
    update_game(&mut game, press(true, false, false, false), draws(), 800, 600, 8);
    update_game(&mut game, press(false, true, false, false), draws(), 800, 600, 8);
    assert_eq!(game.mode, GameMode::Playing);
    assert_eq!(game.score, 0);
    assert_eq!(game.best_score, 3);
    assert_eq!(game.player.x, 360_000_000);
}

#[test]
fn paused_menu_returns_to_menu() {
    let mut game = Game::new(0);
    game.reset_round(800);
    update_game(&mut game, press(true, false, false, false), draws(), 800, 600, 8);
    update_game(&mut game, press(false, false, true, false), draws(), 800, 600, 8);
    assert_eq!(game.mode, GameMode::Menu);
}

#[test]
fn gameover_restart_and_menu() {
    let mut game = Game::new(0);
    game.reset_round(800);
    game.obs.spawn(
        dodge_rush::geom::Rect::new(game.player.x, 560_000_000, 40_000_000, 40_000_000),
        100_000,
    );
    update_game(&mut game, press(false, false, false, false), draws(), 800, 600, 0);
    assert_eq!(game.mode, GameMode::GameOver);
    update_game(&mut game, press(false, true, false, false), draws(), 800, 600, 8);
    assert_eq!(game.mode, GameMode::Playing);
    // Back to game over, then to the menu.
    game.obs.spawn(
        dodge_rush::geom::Rect::new(game.player.x, 560_000_000, 40_000_000, 40_000_000),
        100_000,
    );
    update_game(&mut game, press(false, false, false, false), draws(), 800, 600, 0);
    assert_eq!(game.mode, GameMode::GameOver);
    update_game(&mut game, press(false, false, true, false), draws(), 800, 600, 8);
    assert_eq!(game.mode, GameMode::Menu);
}

#[test]
fn difficulty_curve_grows_speed_and_floors_interval() {
    // At the start of a round: base values.
    let (fall0, itv0) = difficulty_curve(0, 900, false);
    assert_eq!(fall0, 140_000);
    assert_eq!(itv0, 900);
    // 100 seconds in: 140 + 100 * 18 = 1940 px/s (1_940_000 micro-px/ms),
    // and the interval formula has bottomed out at its floor.
    let (fall1, itv1) = difficulty_curve(100_000, 900, false);
    assert_eq!(fall1, 1_940_000);
    assert_eq!(itv1, 250);
    // Ten seconds in: 140 + 10 * 18 = 320 px/s.
    let (fall10, _) = difficulty_curve(10_000, 900, false);
    assert_eq!(fall10, 320_000);
    // The Slow effect halves the speed and doubles the interval.
    let (fall2, itv2) = difficulty_curve(1000, 900, true);
    assert_eq!(fall2, (140_000 + 18_000) / 2);
    assert_eq!(itv2, (900 - 20) * 2);
}

#[test]
fn slow_effect_halves_fall_speed_in_game() {
    let mut game = Game::new(0);
    game.reset_round(800);
    game.slow_timer = 6000;
    update_game(&mut game, press(false, false, false, false), draws(), 800, 600, 8);
    // elapsed 8 ms: raw speed 140_000 + 8 * 18 micro-px/ms, halved while slowed.
    assert_eq!(game.fall_speed, (140_000 + 144) / 2);
    assert_eq!(game.slow_timer, 6000 - 8);
}

#[test]
fn axis_cancels_when_both_keys_are_held() {
    assert_eq!(dodge_rush::player::axis_from_keys(false, false), 0);
    assert_eq!(dodge_rush::player::axis_from_keys(true, false), -1);
    assert_eq!(dodge_rush::player::axis_from_keys(false, true), 1);
    assert_eq!(dodge_rush::player::axis_from_keys(true, true), 0);
}

#[test]
fn widest_screen_still_bounds_the_player() {
    let mut game = Game::new(0);
    game.reset_round(100_000);
    // Centered: (100000 - 80) / 2 pixels, in micro-pixels.
    assert_eq!(game.player.x, 49_960_000_000);
    for _ in 0..125 {
        update_game(&mut game, press(false, false, false, false), draws(), 100_000, 600, 8);
    }
    assert!(game.player.x <= (100_000 - 80) * 1_000_000);
}

#[test]
fn frame_clock_carries_the_remainder() {
    let mut clock = FrameClock::new();
    // 20 ms: two whole 8 ms ticks, 4 ms carried.
    assert_eq!(clock.add_frame(20), 2);
    // 4 more ms complete one more tick exactly.
    assert_eq!(clock.add_frame(4), 1);
    // A short frame runs no tick at all.
    assert_eq!(clock.add_frame(3), 0);
    assert_eq!(clock.add_frame(5), 1);
}
