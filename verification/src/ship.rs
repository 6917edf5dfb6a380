//! The ship: kinematic state, per-frame control sampling, the fixed-tick
//! physics integrator, and the collider-against-collision-map test.
//!
//! The ship is a two-state machine, Alive or Dead.  Dead is terminal for
//! the level attempt: only an explicit reset to the spawn position brings
//! the ship back.  Each fixed tick while alive advances the angle by the
//! angular velocity, decays the velocity by the per-tick damping factor,
//! accelerates along the heading by the thrust and downward by gravity,
//! and moves by the velocity; every step is exact fixed-point arithmetic.

use vstd::prelude::*;

verus! {

use crate::collision::CollisionMap;
use crate::collision::is_solid_spec;
use crate::fixed::ANGLE_FULL;
use crate::fixed::ANGLE_QUARTER;
use crate::fixed::COORD_LIMIT_FX;
use crate::fixed::DAMPING_TICK_FX;
use crate::fixed::DEAD_TIMEOUT_FX;
use crate::fixed::FX_ONE;
use crate::fixed::GRAVITY_FX;
use crate::fixed::P_MAX_FX;
use crate::fixed::THRUST_FX;
use crate::fixed::TICK_FX;
use crate::fixed::TURN_SPEED_ANGLE;
use crate::fixed::V_MAX_FX;
use crate::fixed::clamp;
use crate::fixed::clamp_spec;
use crate::fixed::fx_mul;
use crate::fixed::fx_mul_spec;
use crate::fixed::wrap_angle;
use crate::geom::Pt;
use crate::geom::polys_in_range;
use crate::geom::pt_in_range;
use crate::trig::cos_fx;
use crate::trig::cos_spec;
use crate::trig::sin_fx;
use crate::trig::sin_spec;

/// The control keys the host saw held this frame.
#[derive(Clone, Copy, Debug, PartialEq, Eq, Structural)]
pub struct Controls {
    pub turn_left: bool,
    pub turn_right: bool,
    pub thrust: bool,
    pub confirm: bool,
}

/// The ship's state.  Positions and velocities are fixed point; the angle
/// is in angle units, 0 pointing along positive x and a quarter turn
/// pointing up; `dead_time` is the fixed-point seconds since death,
/// saturated at `DEAD_TIMEOUT_FX`.
pub struct Ship {
    pub position: Pt,
    pub velocity: Pt,
    pub angle: i64,
    pub angular_velocity: i64,
    pub thrust: i64,
    pub alive: bool,
    pub dead_time: i64,
    pub turning_enabled: bool,
    pub thrust_enabled: bool,
    /// Collider polygons in ship-local coordinates; a dedicated, usually
    /// coarser shape than the drawn hull, used only for collision tests.
    pub collider: Vec<Vec<Pt>>,
}

impl Ship {
    /// The collider as a sequence of vertex sequences.
    pub open spec fn collider_polys(self) -> Seq<Seq<Pt>> {
        self.collider@.map_values(|v: Vec<Pt>| v@)
    }

    /// The bounds every reachable ship state keeps: the integrator
    /// preserves them and every constructor establishes them.
    pub open spec fn wf(self) -> bool {
        &&& 0 <= self.angle < ANGLE_FULL
        &&& -V_MAX_FX <= self.velocity.x <= V_MAX_FX
        &&& -V_MAX_FX <= self.velocity.y <= V_MAX_FX
        &&& -P_MAX_FX <= self.position.x <= P_MAX_FX
        &&& -P_MAX_FX <= self.position.y <= P_MAX_FX
        &&& 0 <= self.thrust <= THRUST_FX
        &&& -2 * TURN_SPEED_ANGLE <= self.angular_velocity <= 2 * TURN_SPEED_ANGLE
        &&& 0 <= self.dead_time <= DEAD_TIMEOUT_FX
        &&& polys_in_range(self.collider_polys())
    }

    /// Builds a ship at rest at `position`, pointing up, fully alive,
    /// with both capabilities locked until triggers enable them.
    pub fn new(position: Pt, collider: Vec<Vec<Pt>>) -> (s: Ship)
        requires
            -P_MAX_FX <= position.x <= P_MAX_FX,
            -P_MAX_FX <= position.y <= P_MAX_FX,
            polys_in_range(collider@.map_values(|v: Vec<Pt>| v@)),
        ensures
            s.wf(),
            s.position == position,
            s.velocity == (Pt { x: 0, y: 0 }),
            s.angle == ANGLE_QUARTER,
            s.angular_velocity == 0,
            s.thrust == 0,
            s.alive,
            s.dead_time == 0,
            !s.turning_enabled,
            !s.thrust_enabled,
            s.collider == collider,
    {
        Ship {
            position,
            velocity: Pt { x: 0, y: 0 },
            angle: ANGLE_QUARTER,
            angular_velocity: 0,
            thrust: 0,
            alive: true,
            dead_time: 0,
            turning_enabled: false,
            thrust_enabled: false,
            collider,
        }
    }

    /// Puts the ship back at `position`, at rest, pointing up and alive.
    /// The capability flags and the collider keep their values.
    pub fn reset(&mut self, position: Pt)
        requires
            -P_MAX_FX <= position.x <= P_MAX_FX,
            -P_MAX_FX <= position.y <= P_MAX_FX,
        ensures
            final(self).position == position,
            final(self).velocity == (Pt { x: 0, y: 0 }),
            final(self).angle == ANGLE_QUARTER,
            final(self).angular_velocity == 0,
            final(self).thrust == 0,
            final(self).alive,
            final(self).dead_time == 0,
            final(self).turning_enabled == old(self).turning_enabled,
            final(self).thrust_enabled == old(self).thrust_enabled,
            final(self).collider == old(self).collider,
            old(self).wf() ==> final(self).wf(),
    {
        self.position = position;
        self.velocity = Pt { x: 0, y: 0 };
        self.angular_velocity = 0;
        self.thrust = 0;
        self.angle = ANGLE_QUARTER;
        self.alive = true;
        self.dead_time = 0;
    }

    /// The angular velocity control sampling gives: full turn speed when
    /// exactly one turn key is held, with turning enabled and the ship
    /// alive; zero otherwise.
    pub open spec fn sampled_angular_velocity(self, c: Controls) -> int {
        if self.alive && self.turning_enabled {
            (if c.turn_left { TURN_SPEED_ANGLE as int } else { 0 })
                - (if c.turn_right { TURN_SPEED_ANGLE as int } else { 0 })
        } else {
            0
        }
    }

    /// The thrust control sampling gives: full thrust when the thrust key
    /// is held, with thrust enabled and the ship alive; zero otherwise.
    pub open spec fn sampled_thrust(self, c: Controls) -> int {
        if self.alive && self.thrust_enabled && c.thrust {
            THRUST_FX as int
        } else {
            0
        }
    }

    /// Samples the held controls into the angular velocity and thrust for
    /// the coming ticks.  A dead ship ignores every control.
    pub fn update(&mut self, c: Controls)
        ensures
            final(self).angular_velocity == old(self).sampled_angular_velocity(c),
            final(self).thrust == old(self).sampled_thrust(c),
            *final(self) == (Ship {
                angular_velocity: final(self).angular_velocity,
                thrust: final(self).thrust,
                ..*old(self)
            }),
            old(self).wf() ==> final(self).wf(),
    {
        self.angular_velocity = 0;
        self.thrust = 0;
        if self.alive {
            if self.turning_enabled && c.turn_left {
                self.angular_velocity = self.angular_velocity + TURN_SPEED_ANGLE;
            }
            if self.turning_enabled && c.turn_right {
                self.angular_velocity = self.angular_velocity - TURN_SPEED_ANGLE;
            }
            if self.thrust_enabled && c.thrust {
                self.thrust = THRUST_FX;
            }
        }
    }
}

/// One tick of velocity damping: the fixed-point product with the
/// per-tick damping factor, rounded toward zero.
pub open spec fn damp_spec(v: int) -> int {
    fx_mul_spec(v, DAMPING_TICK_FX as int)
}

/// The angle after one tick: advanced by the angular velocity and wrapped
/// into one full circle.
pub open spec fn tick_angle_spec(s: Ship) -> int {
    (s.angle + fx_mul_spec(s.angular_velocity as int, TICK_FX as int)) % (ANGLE_FULL as int)
}

/// The acceleration after one tick, along x: thrust times the heading's
/// cosine.
pub open spec fn tick_accel_x_spec(s: Ship) -> int {
    fx_mul_spec(s.thrust as int, cos_spec(tick_angle_spec(s)))
}

/// The acceleration after one tick, along y: thrust times the heading's
/// sine, less gravity.
pub open spec fn tick_accel_y_spec(s: Ship, gravity: int) -> int {
    fx_mul_spec(s.thrust as int, sin_spec(tick_angle_spec(s))) - gravity
}

/// The velocity after one tick, along x.
pub open spec fn tick_vel_x_spec(s: Ship) -> int {
    damp_spec(s.velocity.x as int) + fx_mul_spec(tick_accel_x_spec(s), TICK_FX as int)
}

/// The velocity after one tick, along y.
pub open spec fn tick_vel_y_spec(s: Ship, gravity: int) -> int {
    damp_spec(s.velocity.y as int) + fx_mul_spec(tick_accel_y_spec(s, gravity), TICK_FX as int)
}

/// The position after one tick, each axis moved by the new velocity over
/// one tick and saturated at the world bound.
pub open spec fn tick_pos_x_spec(s: Ship) -> int {
    clamp_spec(
        s.position.x + fx_mul_spec(tick_vel_x_spec(s), TICK_FX as int),
        -P_MAX_FX as int,
        P_MAX_FX as int,
    )
}

/// The position after one tick, along y.
pub open spec fn tick_pos_y_spec(s: Ship, gravity: int) -> int {
    clamp_spec(
        s.position.y + fx_mul_spec(tick_vel_y_spec(s, gravity), TICK_FX as int),
        -P_MAX_FX as int,
        P_MAX_FX as int,
    )
}

/// The whole ship after one integration tick under the given gravity.
/// A dead ship does not move.
pub open spec fn tick_spec(s: Ship, gravity: int) -> Ship {
    if !s.alive {
        s
    } else {
        Ship {
            position: Pt {
                x: tick_pos_x_spec(s) as i64,
                y: tick_pos_y_spec(s, gravity) as i64,
            },
            velocity: Pt {
                x: tick_vel_x_spec(s) as i64,
                y: tick_vel_y_spec(s, gravity) as i64,
            },
            angle: tick_angle_spec(s) as i64,
            ..s
        }
    }
}

impl Ship {
    /// Advances the ship by one fixed tick under `gravity` (fixed-point
    /// acceleration, downward positive): the angle turns, the velocity is
    /// damped and accelerated, the position moves.  Dead ships stay put.
    pub fn tick(&mut self, gravity: i64)
        requires
            old(self).wf(),
            0 <= gravity <= GRAVITY_FX,
        ensures
            *final(self) == tick_spec(*old(self), gravity as int),
            final(self).wf(),
    {
        if !self.alive {
            return;
        }
        let ghost s0 = *self;
        let da = fx_mul(self.angular_velocity, TICK_FX);
        let angle = wrap_angle(self.angle + da);
        self.angle = angle;
        let dir_x = cos_fx(angle);
        let dir_y = sin_fx(angle);
        proof {
            assert(-0x4000_0000_0000_0000 <= self.thrust * dir_x <= 0x4000_0000_0000_0000
                && self.thrust * dir_x <= THRUST_FX * FX_ONE
                && self.thrust * dir_x >= -THRUST_FX * FX_ONE) by (nonlinear_arith)
                requires
                    0 <= self.thrust <= THRUST_FX,
                    -FX_ONE <= dir_x <= FX_ONE,
                    THRUST_FX == 7864320,
                    FX_ONE == 65536,
            ;
            assert(-0x4000_0000_0000_0000 <= self.thrust * dir_y <= 0x4000_0000_0000_0000
                && self.thrust * dir_y <= THRUST_FX * FX_ONE
                && self.thrust * dir_y >= -THRUST_FX * FX_ONE) by (nonlinear_arith)
                requires
                    0 <= self.thrust <= THRUST_FX,
                    -FX_ONE <= dir_y <= FX_ONE,
                    THRUST_FX == 7864320,
                    FX_ONE == 65536,
            ;
        }
        let ax = fx_mul(self.thrust, dir_x);
        let ay = fx_mul(self.thrust, dir_y) - gravity;
        let vx = fx_mul(self.velocity.x, DAMPING_TICK_FX) + fx_mul(ax, TICK_FX);
        let vy = fx_mul(self.velocity.y, DAMPING_TICK_FX) + fx_mul(ay, TICK_FX);
        proof {
            lemma_velocity_step_bounded(s0.velocity.x as int, ax as int);
            lemma_velocity_step_bounded(s0.velocity.y as int, ay as int);
        }
        self.velocity = Pt { x: vx, y: vy };
        let px = clamp(self.position.x + fx_mul(vx, TICK_FX), -P_MAX_FX, P_MAX_FX);
        let py = clamp(self.position.y + fx_mul(vy, TICK_FX), -P_MAX_FX, P_MAX_FX);
        self.position = Pt { x: px, y: py };
    }
}

/// One damped-and-accelerated velocity step stays within the velocity
/// bound: damping takes away more than one tick of full thrust plus
/// gravity can add back.
proof fn lemma_velocity_step_bounded(v: int, a: int)
    requires
        -V_MAX_FX <= v <= V_MAX_FX,
        -(THRUST_FX + GRAVITY_FX) <= a <= THRUST_FX + GRAVITY_FX,
    ensures
        -V_MAX_FX <= damp_spec(v) + fx_mul_spec(a, TICK_FX as int) <= V_MAX_FX,
{
    let s = FX_ONE as int;
    assert(33554432int * 64980 == 65536int * 33269760) by (nonlinear_arith);
    assert(10485760int * 1092 == 65536int * 174720) by (nonlinear_arith);
    if v >= 0 {
        vstd::arithmetic::div_mod::lemma_div_is_ordered(v * DAMPING_TICK_FX, 33554432int * 64980, s);
        vstd::arithmetic::div_mod::lemma_div_multiples_vanish(33269760, s);
    } else {
        vstd::arithmetic::div_mod::lemma_div_is_ordered(-(v * DAMPING_TICK_FX), 33554432int * 64980, s);
        vstd::arithmetic::div_mod::lemma_div_multiples_vanish(33269760, s);
    }
    if a >= 0 {
        vstd::arithmetic::div_mod::lemma_div_is_ordered(a * TICK_FX, 10485760int * 1092, s);
        vstd::arithmetic::div_mod::lemma_div_multiples_vanish(174720, s);
    } else {
        vstd::arithmetic::div_mod::lemma_div_is_ordered(-(a * TICK_FX), 10485760int * 1092, s);
        vstd::arithmetic::div_mod::lemma_div_multiples_vanish(174720, s);
    }
}

/// One tick of damping moves a velocity component strictly toward zero
/// and never past it; zero is a fixed point.
pub proof fn lemma_damp_decay(v: int)
    requires
        -V_MAX_FX <= v <= V_MAX_FX,
    ensures
        v == 0 ==> damp_spec(v) == 0,
        v > 0 ==> 0 <= damp_spec(v) < v,
        v < 0 ==> v < damp_spec(v) <= 0,
{
    let s = FX_ONE as int;
    if v == 0 {
        vstd::arithmetic::div_mod::lemma_div_of0(s);
    } else if v > 0 {
        let p = v * DAMPING_TICK_FX;
        vstd::arithmetic::div_mod::lemma_div_pos_is_pos(p, s);
        vstd::arithmetic::div_mod::lemma_fundamental_div_mod_converse_div(
            s * v - 1, s, v - 1, s - 1);
        vstd::arithmetic::div_mod::lemma_div_is_ordered(p, s * v - 1, s);
    } else {
        let m = (-v) * DAMPING_TICK_FX;
        vstd::arithmetic::div_mod::lemma_div_pos_is_pos(m, s);
        vstd::arithmetic::div_mod::lemma_fundamental_div_mod_converse_div(
            s * (-v) - 1, s, -v - 1, s - 1);
        vstd::arithmetic::div_mod::lemma_div_is_ordered(m, s * (-v) - 1, s);
    }
}

/// Law: under zero input the integrator is a pure decay.  With no
/// thrust, no turning and no gravity, a tick keeps the heading, moves
/// each velocity component strictly toward zero, and once the ship is at
/// rest it stays exactly where it is.
pub proof fn lemma_tick_zero_input_decay(s: Ship)
    requires
        s.wf(),
        s.alive,
        s.thrust == 0,
        s.angular_velocity == 0,
    ensures
        tick_spec(s, 0).angle == s.angle,
        tick_spec(s, 0).velocity.x == damp_spec(s.velocity.x as int),
        tick_spec(s, 0).velocity.y == damp_spec(s.velocity.y as int),
        s.velocity.x > 0 ==> 0 <= tick_spec(s, 0).velocity.x < s.velocity.x,
        s.velocity.x < 0 ==> s.velocity.x < tick_spec(s, 0).velocity.x <= 0,
        s.velocity.y > 0 ==> 0 <= tick_spec(s, 0).velocity.y < s.velocity.y,
        s.velocity.y < 0 ==> s.velocity.y < tick_spec(s, 0).velocity.y <= 0,
        s.velocity == (Pt { x: 0, y: 0 }) ==> {
            &&& tick_spec(s, 0).velocity == (Pt { x: 0, y: 0 })
            &&& tick_spec(s, 0).position == s.position
        },
{
    let f = FX_ONE as int;
    vstd::arithmetic::div_mod::lemma_div_of0(f);
    vstd::arithmetic::div_mod::lemma_small_mod(s.angle as nat, ANGLE_FULL as nat);
    assert(tick_angle_spec(s) == s.angle);
    assert(tick_accel_x_spec(s) == 0);
    assert(tick_accel_y_spec(s, 0) == 0);
    lemma_damp_decay(s.velocity.x as int);
    lemma_damp_decay(s.velocity.y as int);
    assert(tick_vel_x_spec(s) == damp_spec(s.velocity.x as int));
    assert(tick_vel_y_spec(s, 0) == damp_spec(s.velocity.y as int));
}

/// Law: with gravity on and thrust off, a ship that is not climbing ends
/// the tick with a strictly negative vertical velocity.  Gravity must
/// amount to at least one fixed-point step per tick to register at all.
pub proof fn lemma_tick_gravity_pulls_down(s: Ship, gravity: int)
    requires
        s.wf(),
        s.alive,
        s.thrust == 0,
        s.velocity.y <= 0,
        61 <= gravity <= GRAVITY_FX,
    ensures
        tick_spec(s, gravity).velocity.y < 0,
{
    let f = FX_ONE as int;
    vstd::arithmetic::div_mod::lemma_div_of0(f);
    assert(tick_accel_y_spec(s, gravity) == -gravity);
    lemma_damp_decay(s.velocity.y as int);
    vstd::arithmetic::div_mod::lemma_div_is_ordered(f, gravity * TICK_FX, f);
    vstd::arithmetic::div_mod::lemma_div_multiples_vanish(1, f);
    assert(fx_mul_spec(-gravity, TICK_FX as int) <= -1);
}

/// The x coordinate of a local point rotated by `angle` and moved to
/// `pos`.
pub open spec fn transform_x_spec(pos: Pt, angle: int, p: Pt) -> int {
    pos.x + fx_mul_spec(p.x as int, cos_spec(angle)) - fx_mul_spec(p.y as int, sin_spec(angle))
}

/// The y coordinate of a local point rotated by `angle` and moved to
/// `pos`.
pub open spec fn transform_y_spec(pos: Pt, angle: int, p: Pt) -> int {
    pos.y + fx_mul_spec(p.x as int, sin_spec(angle)) + fx_mul_spec(p.y as int, cos_spec(angle))
}

/// The x coordinate of a ship-local point carried into the world by the
/// ship's position and heading.
pub open spec fn world_x_spec(s: Ship, p: Pt) -> int {
    transform_x_spec(s.position, s.angle as int, p)
}

/// The y coordinate of a ship-local point carried into the world.
pub open spec fn world_y_spec(s: Ship, p: Pt) -> int {
    transform_y_spec(s.position, s.angle as int, p)
}

/// Carries a polygon from local coordinates into the world by a rigid
/// transform: rotation by `angle` around the origin, then translation to
/// `pos`.  This is what the host draws the ship's hull with, and what
/// the collision test samples the collider with.
pub fn transform_polygon(poly: &Vec<Pt>, pos: Pt, angle: i64) -> (r: Vec<Pt>)
    requires
        crate::geom::poly_in_range(poly@),
        0 <= angle < ANGLE_FULL,
        -P_MAX_FX <= pos.x <= P_MAX_FX,
        -P_MAX_FX <= pos.y <= P_MAX_FX,
    ensures
        r@.len() == poly@.len(),
        forall|i: int| 0 <= i < poly@.len() ==> {
            &&& (#[trigger] r@[i]).x == transform_x_spec(pos, angle as int, poly@[i])
            &&& r@[i].y == transform_y_spec(pos, angle as int, poly@[i])
        },
{
    let cos_a = cos_fx(angle);
    let sin_a = sin_fx(angle);
    let mut out: Vec<Pt> = Vec::new();
    let mut i: usize = 0;
    #[verifier::loop_isolation(false)]
    while i < poly.len()
        invariant
            0 <= i <= poly@.len(),
            out@.len() == i,
            forall|j: int| 0 <= j < i ==> {
                &&& (#[trigger] out@[j]).x == transform_x_spec(pos, angle as int, poly@[j])
                &&& out@[j].y == transform_y_spec(pos, angle as int, poly@[j])
            },
        decreases poly@.len() - i,
    {
        let p = poly[i];
        proof {
            lemma_local_term_bounded(p.x as int, cos_a as int);
            lemma_local_term_bounded(p.y as int, sin_a as int);
            lemma_local_term_bounded(p.x as int, sin_a as int);
            lemma_local_term_bounded(p.y as int, cos_a as int);
        }
        let wx = pos.x + fx_mul(p.x, cos_a) - fx_mul(p.y, sin_a);
        let wy = pos.y + fx_mul(p.x, sin_a) + fx_mul(p.y, cos_a);
        out.push(Pt { x: wx, y: wy });
        i = i + 1;
    }
    out
}

/// Some vertex of the ship's collider, carried into the world by the
/// ship's current pose, samples solid on the grid.
pub open spec fn ship_hits_spec(cells: Seq<bool>, s: Ship) -> bool {
    exists|i: int, j: int| {
        &&& 0 <= i < s.collider_polys().len()
        &&& 0 <= j < s.collider_polys()[i].len()
        &&& is_solid_spec(
            cells,
            world_x_spec(s, s.collider_polys()[i][j]),
            world_y_spec(s, s.collider_polys()[i][j]),
        )
    }
}

impl Ship {
    /// Whether any collider vertex, transformed by the ship's pose, lies
    /// in a solid cell of the collision map.
    pub fn hits(&self, map: &CollisionMap) -> (r: bool)
        requires
            self.wf(),
            map.wf(),
        ensures
            r == ship_hits_spec(map.cells(), *self),
    {
        let ghost polys = self.collider_polys();
        let cos_a = cos_fx(self.angle);
        let sin_a = sin_fx(self.angle);
        let mut i: usize = 0;
        #[verifier::loop_isolation(false)]
        while i < self.collider.len()
            invariant
                0 <= i <= self.collider@.len(),
                forall|i2: int, j2: int| {
                    &&& 0 <= i2 < i
                    &&& 0 <= j2 < polys[i2].len()
                } ==> !is_solid_spec(
                    map.cells(),
                    world_x_spec(*self, #[trigger] polys[i2][j2]),
                    world_y_spec(*self, polys[i2][j2]),
                ),
            decreases self.collider@.len() - i,
        {
            proof {
                assert(polys[i as int] == self.collider@[i as int]@);
            }
            let poly = &self.collider[i];
            let mut j: usize = 0;
            #[verifier::loop_isolation(false)]
            while j < poly.len()
                invariant
                    0 <= j <= poly@.len(),
                    forall|j2: int| 0 <= j2 < j ==> !is_solid_spec(
                        map.cells(),
                        world_x_spec(*self, #[trigger] poly@[j2]),
                        world_y_spec(*self, poly@[j2]),
                    ),
                decreases poly@.len() - j,
            {
                let p = poly[j];
                proof {
                    lemma_local_term_bounded(p.x as int, cos_a as int);
                    lemma_local_term_bounded(p.y as int, sin_a as int);
                    lemma_local_term_bounded(p.x as int, sin_a as int);
                    lemma_local_term_bounded(p.y as int, cos_a as int);
                }
                let wx = self.position.x + fx_mul(p.x, cos_a) - fx_mul(p.y, sin_a);
                let wy = self.position.y + fx_mul(p.x, sin_a) + fx_mul(p.y, cos_a);
                if map.is_solid(wx, wy) {
                    proof {
                        assert(polys[i as int][j as int] == p);
                    }
                    return true;
                }
                j = j + 1;
            }
            i = i + 1;
        }
        false
    }
}

/// The product of an in-range local coordinate and a trig value stays a
/// small fixed-point quantity.
proof fn lemma_local_term_bounded(c: int, t: int)
    requires
        -COORD_LIMIT_FX <= c <= COORD_LIMIT_FX,
        -FX_ONE <= t <= FX_ONE,
    ensures
        -0x4000_0000_0000_0000 <= c * t <= 0x4000_0000_0000_0000,
        -COORD_LIMIT_FX <= fx_mul_spec(c, t) <= COORD_LIMIT_FX,
{
    let s = FX_ONE as int;
    assert(-(COORD_LIMIT_FX as int) * s <= c * t <= (COORD_LIMIT_FX as int) * s) by (nonlinear_arith)
        requires
            -COORD_LIMIT_FX <= c <= COORD_LIMIT_FX,
            -FX_ONE <= t <= FX_ONE,
            s == FX_ONE,
            FX_ONE == 65536,
            COORD_LIMIT_FX == 536870912,
    ;
    assert(536870912int * 65536 == 65536int * 536870912) by (nonlinear_arith);
    if c * t >= 0 {
        vstd::arithmetic::div_mod::lemma_div_is_ordered(c * t, 536870912int * 65536, s);
        vstd::arithmetic::div_mod::lemma_div_multiples_vanish(536870912, s);
    } else {
        vstd::arithmetic::div_mod::lemma_div_is_ordered(-(c * t), 536870912int * 65536, s);
        vstd::arithmetic::div_mod::lemma_div_multiples_vanish(536870912, s);
    }
}

} // verus!
