use lander::fixed::{ANGLE_FULL, ANGLE_QUARTER, FX_ONE, GRAVITY_FX, THRUST_FX, TURN_SPEED_ANGLE};
use lander::geom::Pt;
use lander::ship::{transform_polygon, Controls, Ship};

fn ship_at_rest() -> Ship {
    Ship::new(Pt { x: 0, y: 0 }, vec![vec![Pt { x: 0, y: 0 }]])
}

#[test]
fn zero_input_velocity_decays_to_rest() {
    let mut ship = ship_at_rest();
    ship.velocity = Pt { x: 3 * FX_ONE, y: -2 * FX_ONE };
    let mut prev_x = ship.velocity.x;
    let mut prev_y = ship.velocity.y;
    for _ in 0..2000 {
        ship.tick(0);
        assert!(ship.velocity.x.abs() <= prev_x.abs());
        assert!(ship.velocity.y.abs() <= prev_y.abs());
        assert!(ship.velocity.x >= 0);
        assert!(ship.velocity.y <= 0);
        prev_x = ship.velocity.x;
        prev_y = ship.velocity.y;
    }
    // After plenty of ticks the ship is exactly at rest and stays there.
    assert_eq!(ship.velocity, Pt { x: 0, y: 0 });
    let pos = ship.position;
    ship.tick(0);
    assert_eq!(ship.velocity, Pt { x: 0, y: 0 });
    assert_eq!(ship.position, pos);
}

#[test]
fn gravity_pulls_vertical_velocity_negative() {
    let mut ship = ship_at_rest();
    for _ in 0..100 {
        ship.tick(GRAVITY_FX);
        assert!(ship.velocity.y < 0);
        assert_eq!(ship.velocity.x, 0);
    }
}

#[test]
fn first_tick_under_gravity_matches_the_integrator_formula() {
    // At rest, thrust off, gravity 40: one tick gives
    // velocity.y == -40 * dt and position.y == -40 * dt * dt,
    // in exact fixed-point arithmetic.
    let mut ship = ship_at_rest();
    ship.tick(GRAVITY_FX);
    // -40 * 1092 == -43680 (about -0.667 world units per second)
    assert_eq!(ship.velocity.y, -43680);
    // trunc(-43680 * 1092 / 65536) == -727 (about -0.011 world units)
    assert_eq!(ship.position.y, -727);
    assert_eq!(ship.velocity.x, 0);
    assert_eq!(ship.position.x, 0);
    assert_eq!(ship.angle, ANGLE_QUARTER);
}

#[test]
fn thrust_pointing_up_fights_gravity() {
    let mut ship = ship_at_rest();
    ship.thrust_enabled = true;
    ship.update(Controls { turn_left: false, turn_right: false, thrust: true, confirm: false });
    assert_eq!(ship.thrust, THRUST_FX);
    ship.tick(GRAVITY_FX);
    // Thrust 120 up against gravity 40: net 80 up.
    // trunc(80 * 65536 * 1092 / 65536) == 87360.
    assert_eq!(ship.velocity.y, 87360);
    assert_eq!(ship.velocity.x, 0);
}

#[test]
fn controls_are_ignored_without_capability_or_life() {
    let mut ship = ship_at_rest();
    let all = Controls { turn_left: true, turn_right: false, thrust: true, confirm: false };
    ship.update(all);
    assert_eq!(ship.angular_velocity, 0);
    assert_eq!(ship.thrust, 0);
    ship.turning_enabled = true;
    ship.thrust_enabled = true;
    ship.update(all);
    assert_eq!(ship.angular_velocity, TURN_SPEED_ANGLE);
    assert_eq!(ship.thrust, THRUST_FX);
    // Both turn keys cancel out.
    ship.update(Controls { turn_left: true, turn_right: true, thrust: false, confirm: false });
    assert_eq!(ship.angular_velocity, 0);
    // Dead ships ignore everything.
    ship.alive = false;
    ship.update(all);
    assert_eq!(ship.angular_velocity, 0);
    assert_eq!(ship.thrust, 0);
}

#[test]
fn turn_control_changes_heading_by_the_turn_rate() {
    let mut ship = ship_at_rest();
    ship.turning_enabled = true;
    ship.update(Controls { turn_left: true, turn_right: false, thrust: false, confirm: false });
    assert_eq!(ship.angular_velocity, TURN_SPEED_ANGLE);
    ship.tick(0);
    // One tick turns by trunc(417215 * 1092 / 65536) == 6951 angle units.
    assert_eq!(ship.angle, ANGLE_QUARTER + 6951);
}

#[test]
fn heading_wraps_around_a_full_circle() {
    let mut ship = ship_at_rest();
    ship.turning_enabled = true;
    ship.angle = ANGLE_FULL - 1000;
    ship.update(Controls { turn_left: true, turn_right: false, thrust: false, confirm: false });
    ship.tick(0);
    assert_eq!(ship.angle, 5951);
}

#[test]
fn dead_ship_does_not_move() {
    let mut ship = ship_at_rest();
    ship.velocity = Pt { x: FX_ONE, y: FX_ONE };
    ship.alive = false;
    let before_pos = ship.position;
    let before_vel = ship.velocity;
    ship.tick(GRAVITY_FX);
    assert_eq!(ship.position, before_pos);
    assert_eq!(ship.velocity, before_vel);
}

#[test]
fn reset_returns_the_ship_to_rest() {
    let mut ship = ship_at_rest();
    ship.turning_enabled = true;
    ship.velocity = Pt { x: FX_ONE, y: FX_ONE };
    ship.alive = false;
    ship.dead_time = 5000;
    ship.reset(Pt { x: 7 * FX_ONE, y: -3 * FX_ONE });
    assert_eq!(ship.position, Pt { x: 7 * FX_ONE, y: -3 * FX_ONE });
    assert_eq!(ship.velocity, Pt { x: 0, y: 0 });
    assert_eq!(ship.angle, ANGLE_QUARTER);
    assert!(ship.alive);
    assert_eq!(ship.dead_time, 0);
    // Unlocked capabilities survive a reset.
    assert!(ship.turning_enabled);
}

#[test]
fn transform_polygon_rotates_and_translates() {
    let poly = vec![Pt { x: 2 * FX_ONE, y: 0 }, Pt { x: 0, y: FX_ONE }];
    // No rotation: pure translation.
    let t = transform_polygon(&poly, Pt { x: 10 * FX_ONE, y: 5 * FX_ONE }, 0);
    assert_eq!(t[0], Pt { x: 12 * FX_ONE, y: 5 * FX_ONE });
    assert_eq!(t[1], Pt { x: 10 * FX_ONE, y: 6 * FX_ONE });
    // A quarter turn sends (x, y) to (-y, x) exactly.
    let q = transform_polygon(&poly, Pt { x: 0, y: 0 }, ANGLE_QUARTER);
    assert_eq!(q[0], Pt { x: 0, y: 2 * FX_ONE });
    assert_eq!(q[1], Pt { x: -FX_ONE, y: 0 });
}
