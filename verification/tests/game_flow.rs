use lander::fixed::{ANGLE_QUARTER, DEAD_TIMEOUT_FX, FX_ONE, TICK_FX};
use lander::game::{camera_rect, effect_for, Effect, Game, LevelId, Message};
use lander::geom::{Pt, Trigger};
use lander::level::{Level, LevelError};
use lander::ship::Controls;

fn trig(id: u32, x0: i64, y0: i64, x1: i64, y1: i64) -> Trigger {
    Trigger { id, min_x: x0, max_x: x1, min_y: y0, max_y: y1 }
}

fn rect_poly(x0: i64, y0: i64, x1: i64, y1: i64) -> Vec<Pt> {
    vec![
        Pt { x: x0, y: y0 },
        Pt { x: x1, y: y0 },
        Pt { x: x1, y: y1 },
        Pt { x: x0, y: y1 },
    ]
}

fn no_keys() -> Controls {
    Controls { turn_left: false, turn_right: false, thrust: false, confirm: false }
}

fn confirm_key() -> Controls {
    Controls { turn_left: false, turn_right: false, thrust: false, confirm: true }
}

/// A level with the spawn at the origin, one wide trigger rectangle
/// around the spawn, and no solid geometry.
fn open_level(extra: Vec<Trigger>) -> Level {
    let mut triggers = vec![trig(0, -FX_ONE, -FX_ONE, FX_ONE, FX_ONE)];
    triggers.extend(extra);
    Level::new(Vec::new(), triggers).unwrap()
}

fn point_collider() -> Vec<Vec<Pt>> {
    vec![vec![Pt { x: 0, y: 0 }]]
}

#[test]
fn level_validation_reports_each_error() {
    let far = 1_000_000_000_000i64;
    assert!(matches!(
        Level::new(vec![vec![Pt { x: far, y: 0 }]], vec![trig(0, -1, -1, 1, 1)]),
        Err(LevelError::BadPolygon)
    ));
    assert!(matches!(
        Level::new(Vec::new(), vec![trig(0, 5, -1, 5, 1)]),
        Err(LevelError::BadTrigger)
    ));
    assert!(matches!(
        Level::new(Vec::new(), vec![trig(3, -1, -1, 1, 1), trig(3, 2, 2, 4, 4)]),
        Err(LevelError::BadTrigger)
    ));
    assert!(matches!(
        Level::new(Vec::new(), vec![trig(7, -1, -1, 1, 1)]),
        Err(LevelError::MissingSpawnTrigger)
    ));
    assert!(Level::new(Vec::new(), vec![trig(0, -1, -1, 1, 1)]).is_ok());
}

#[test]
fn spawn_position_is_the_spawn_trigger_center() {
    let level = Level::new(
        Vec::new(),
        vec![trig(0, 4 * FX_ONE, 10 * FX_ONE, 8 * FX_ONE, 20 * FX_ONE)],
    )
    .unwrap();
    assert_eq!(
        level.get_spawn_position(),
        Pt { x: 6 * FX_ONE, y: 15 * FX_ONE }
    );
}

#[test]
fn overlapping_triggers_pick_the_smallest_id() {
    let wide = trig(7, -50 * FX_ONE, -50 * FX_ONE, 50 * FX_ONE, 50 * FX_ONE);
    let wide2 = trig(3, -50 * FX_ONE, -50 * FX_ONE, 50 * FX_ONE, 50 * FX_ONE);
    let level = open_level(vec![wide, wide2]);
    let fired: Vec<u32> = Vec::new();
    // All three contain the origin; the smallest id wins.
    assert_eq!(level.pick_trigger(&fired, 0, 0), Some(0));
    let fired = vec![0u32];
    assert_eq!(level.pick_trigger(&fired, 0, 0), Some(3));
    let fired = vec![0u32, 3u32];
    assert_eq!(level.pick_trigger(&fired, 0, 0), Some(7));
    let fired = vec![0u32, 3u32, 7u32];
    assert_eq!(level.pick_trigger(&fired, 0, 0), None);
}

#[test]
fn effect_table_matches_the_narrative() {
    let none = Effect { message: None, enable_thrust: false, enable_turning: false };
    assert_eq!(effect_for(LevelId::One, 0), none);
    let e13 = effect_for(LevelId::One, 13);
    assert_eq!(e13.message, Some(Message::ThrustFound));
    assert!(e13.enable_thrust);
    assert!(!e13.enable_turning);
    let e20 = effect_for(LevelId::One, 20);
    assert_eq!(e20.message, Some(Message::TurningFound));
    assert!(e20.enable_turning);
    assert!(!e20.enable_thrust);
    assert_eq!(effect_for(LevelId::One, 10).message, Some(Message::Falling));
    assert_eq!(
        effect_for(LevelId::One, 99).message,
        Some(Message::UnknownTrigger(99))
    );
}

#[test]
fn a_new_game_starts_at_rest_pointing_up() {
    let game = Game::new(LevelId::One, open_level(Vec::new()), point_collider());
    assert_eq!(game.ship.position, Pt { x: 0, y: 0 });
    assert_eq!(game.ship.velocity, Pt { x: 0, y: 0 });
    assert_eq!(game.ship.angle, ANGLE_QUARTER);
    assert_eq!(game.ship.angular_velocity, 0);
    assert_eq!(game.ship.thrust, 0);
    assert!(game.ship.alive);
    assert_eq!(game.ship.dead_time, 0);
    assert!(!game.ship.turning_enabled);
    assert!(!game.ship.thrust_enabled);
    assert_eq!(game.pending_message, None);
    assert!(game.fired.is_empty());
}

#[test]
fn a_trigger_fires_at_most_once_per_attempt() {
    // A wide trigger the ship sits inside; crossing it again and again
    // yields exactly one narrative effect.
    let wide = trig(10, -50 * FX_ONE, -50 * FX_ONE, 50 * FX_ONE, 50 * FX_ONE);
    let mut game = Game::new(LevelId::One, open_level(vec![wide]), point_collider());
    // First frame: the spawn marker (id 0) fires silently.
    let out = game.update(no_keys(), 1);
    assert_eq!(game.pending_message, None);
    assert!(!out.ping);
    assert_eq!(game.fired, vec![0]);
    // Second frame: trigger 10 fires and shows its message.
    let out = game.update(no_keys(), 1);
    assert_eq!(game.pending_message, Some(Message::Falling));
    assert!(out.ping);
    assert_eq!(game.fired, vec![0, 10]);
    // Acknowledge; the ship is still inside the same rectangle.
    game.update(confirm_key(), 1);
    assert_eq!(game.pending_message, None);
    // Many more frames inside the rectangle: it never fires again.
    for _ in 0..30 {
        let out = game.update(no_keys(), 1);
        assert_eq!(game.pending_message, None);
        assert!(!out.ping);
    }
    assert_eq!(game.fired, vec![0, 10]);
}

#[test]
fn trigger_unlocks_stick_to_the_ship() {
    let wide = trig(13, -50 * FX_ONE, -50 * FX_ONE, 50 * FX_ONE, 50 * FX_ONE);
    let mut game = Game::new(LevelId::One, open_level(vec![wide]), point_collider());
    assert!(!game.ship.thrust_enabled);
    game.update(no_keys(), 1); // spawn marker
    game.update(no_keys(), 1); // trigger 13
    assert_eq!(game.pending_message, Some(Message::ThrustFound));
    assert!(game.ship.thrust_enabled);
    game.update(confirm_key(), 1);
    assert!(game.ship.thrust_enabled);
}

#[test]
fn crash_death_and_acknowledged_game_over_resets_to_spawn() {
    // Solid ground below the spawn; the ship falls into it.
    let ground = rect_poly(-400 * FX_ONE, -60 * FX_ONE, 400 * FX_ONE, -20 * FX_ONE);
    let level = Level::new(
        vec![ground],
        vec![trig(0, -FX_ONE, -FX_ONE, FX_ONE, FX_ONE)],
    )
    .unwrap();
    let mut game = Game::new(LevelId::One, level, point_collider());
    let spawn = game.ship.position;
    // Fire the spawn marker first.
    game.update(no_keys(), 1);
    assert!(game.ship.alive);
    // One long frame: the ship falls, crashes, and its dead time runs
    // out, so the game-over prompt appears with both audio cues.
    let out = game.update(no_keys(), 100000);
    assert!(!game.ship.alive);
    assert!(out.explosion);
    assert!(out.ping);
    assert_eq!(out.thrust_volume_pct, 0);
    assert_eq!(game.pending_message, Some(Message::GameOver));
    assert!(game.ship.dead_time >= DEAD_TIMEOUT_FX);
    assert!(game.ship.position.y < -19 * FX_ONE);
    // While the prompt is up, nothing moves.
    let frozen = game.ship.position;
    game.update(no_keys(), 10);
    assert_eq!(game.ship.position, frozen);
    // Acknowledging the game-over prompt resets the ship to the spawn,
    // at rest and alive, and keeps the fired set.
    let fired_before = game.fired.clone();
    game.update(confirm_key(), 1);
    assert_eq!(game.pending_message, None);
    assert!(game.ship.alive);
    assert_eq!(game.ship.position, spawn);
    assert_eq!(game.ship.velocity, Pt { x: 0, y: 0 });
    assert_eq!(game.ship.dead_time, 0);
    assert_eq!(game.fired, fired_before);
}

#[test]
fn dead_time_gates_the_game_over_prompt() {
    let ground = rect_poly(-400 * FX_ONE, -60 * FX_ONE, 400 * FX_ONE, -20 * FX_ONE);
    let level = Level::new(
        vec![ground],
        vec![trig(0, -FX_ONE, -FX_ONE, FX_ONE, FX_ONE)],
    )
    .unwrap();
    let mut game = Game::new(LevelId::One, level, point_collider());
    game.update(no_keys(), 1); // spawn marker
    // Run single ticks until the crash.
    let mut guard: u32 = 0;
    while game.ship.alive {
        let out = game.update(no_keys(), 1);
        if !game.ship.alive {
            assert!(out.explosion);
        }
        guard += 1;
        assert!(guard < 100000);
    }
    // Dead, but the prompt waits for the dead timeout.
    assert_eq!(game.pending_message, None);
    let ticks_needed = (DEAD_TIMEOUT_FX + TICK_FX - 1) / TICK_FX;
    for _ in 0..ticks_needed {
        assert_eq!(game.pending_message, None);
        game.update(no_keys(), 1);
    }
    assert_eq!(game.pending_message, Some(Message::GameOver));
}

#[test]
fn frame_audio_reports_thrust_volume() {
    let mut game = Game::new(LevelId::One, open_level(Vec::new()), point_collider());
    game.ship.thrust_enabled = true;
    game.update(no_keys(), 1); // spawn marker, no thrust held
    let out = game.update(no_keys(), 1);
    assert_eq!(out.thrust_volume_pct, 0);
    let thrust_key = Controls { turn_left: false, turn_right: false, thrust: true, confirm: false };
    let out = game.update(thrust_key, 1);
    assert_eq!(out.thrust_volume_pct, 30);
}

#[test]
fn camera_rect_follows_the_ship() {
    // Aspect ratio 2:1 at a fixed 300-unit visible height.
    let r = camera_rect(Pt { x: 10 * FX_ONE, y: -20 * FX_ONE }, 2 * FX_ONE);
    assert_eq!(r.w, 600 * FX_ONE);
    assert_eq!(r.h, -300 * FX_ONE);
    assert_eq!(r.x, 10 * FX_ONE - 300 * FX_ONE);
    assert_eq!(r.y, -20 * FX_ONE + 150 * FX_ONE);
}
