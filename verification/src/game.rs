//! The trigger/narrative state machine and the per-frame orchestration.
//!
//! A game is either Playing (no pending message; physics ticks run) or
//! Paused-for-text (one pending message; physics is suspended until the
//! player acknowledges).  Entering an un-fired trigger marks it fired
//! first and then runs its effect — a narrative message and, for some
//! triggers, a permanent control unlock — so a trigger fires at most
//! once per level attempt.  Acknowledging the game-over message resets
//! the ship to the spawn position without clearing the fired set; only
//! loading a fresh level clears it.
//!
//! A frame runs all its pending fixed ticks in order, but a trigger hit
//! aborts the remaining ticks of that frame, so the player reads the
//! message before the ship can fly further.

use vstd::prelude::*;

verus! {

use crate::collision::CollisionMap;
use crate::collision::grid_matches;
use crate::fixed::DEAD_TIMEOUT_FX;
use crate::fixed::GRAVITY_FX;
use crate::fixed::P_MAX_FX;
use crate::fixed::TICK_FX;
use crate::geom::Pt;
use crate::geom::polys_in_range;
use crate::level::Level;
use crate::level::lemma_pick_excludes_fired;
use crate::level::pick_trigger_spec;
use crate::level::spawn_center_spec;
use crate::ship::Controls;
use crate::ship::Ship;
use crate::ship::ship_hits_spec;
use crate::ship::tick_spec;

/// Which level's narrative table is in play.
#[derive(Clone, Copy, Debug, PartialEq, Eq, Structural)]
pub enum LevelId {
    One,
}

/// A narrative message the host displays; the wording is presentation
/// and lives with the host.
#[derive(Clone, Copy, Debug, PartialEq, Eq, Structural)]
pub enum Message {
    /// Waking up mid-fall, first trigger of the opening sequence.
    Falling,
    /// Realizing the fall happens inside some kind of aircraft.
    InAircraft,
    /// The controls do not answer yet.
    NoResponse,
    /// Thrust is discovered; this message accompanies the thrust unlock.
    ThrustFound,
    /// Climbing away, urged upward.
    Climb,
    /// Turning is discovered; this message accompanies the turning unlock.
    TurningFound,
    /// Flying starts to feel natural.
    NaturalFeel,
    /// Wondering whether this was once a pilot's life.
    PilotMemory,
    /// The game-over prompt after a crash.
    GameOver,
    /// A trigger id the narrative table does not know: surfaced to the
    /// player as a diagnostic instead of crashing.
    UnknownTrigger(u32),
}

/// What firing a trigger does: at most one message, and permanent
/// control unlocks.
#[derive(Clone, Copy, Debug, PartialEq, Eq, Structural)]
pub struct Effect {
    pub message: Option<Message>,
    pub enable_thrust: bool,
    pub enable_turning: bool,
}

/// The narrative table: the effect each trigger id has on each level.
/// Id 0 is the spawn marker and has no visible effect; an id the table
/// does not know yields the diagnostic message.
pub open spec fn effect_spec(level: LevelId, id: u32) -> Effect {
    if id == 0 {
        Effect { message: None, enable_thrust: false, enable_turning: false }
    } else if id == 10 {
        Effect { message: Some(Message::Falling), enable_thrust: false, enable_turning: false }
    } else if id == 11 {
        Effect { message: Some(Message::InAircraft), enable_thrust: false, enable_turning: false }
    } else if id == 12 {
        Effect { message: Some(Message::NoResponse), enable_thrust: false, enable_turning: false }
    } else if id == 13 {
        Effect { message: Some(Message::ThrustFound), enable_thrust: true, enable_turning: false }
    } else if id == 14 {
        Effect { message: Some(Message::Climb), enable_thrust: false, enable_turning: false }
    } else if id == 20 {
        Effect { message: Some(Message::TurningFound), enable_thrust: false, enable_turning: true }
    } else if id == 21 {
        Effect { message: Some(Message::NaturalFeel), enable_thrust: false, enable_turning: false }
    } else if id == 22 {
        Effect { message: Some(Message::PilotMemory), enable_thrust: false, enable_turning: false }
    } else {
        Effect { message: Some(Message::UnknownTrigger(id)), enable_thrust: false, enable_turning: false }
    }
}

/// Looks a trigger id up in the narrative table.
pub fn effect_for(level: LevelId, id: u32) -> (e: Effect)
    ensures
        e == effect_spec(level, id),
{
    match (level, id) {
        (_, 0) => Effect { message: None, enable_thrust: false, enable_turning: false },
        (LevelId::One, 10) => Effect {
            message: Some(Message::Falling),
            enable_thrust: false,
            enable_turning: false,
        },
        (LevelId::One, 11) => Effect {
            message: Some(Message::InAircraft),
            enable_thrust: false,
            enable_turning: false,
        },
        (LevelId::One, 12) => Effect {
            message: Some(Message::NoResponse),
            enable_thrust: false,
            enable_turning: false,
        },
        (LevelId::One, 13) => Effect {
            message: Some(Message::ThrustFound),
            enable_thrust: true,
            enable_turning: false,
        },
        (LevelId::One, 14) => Effect {
            message: Some(Message::Climb),
            enable_thrust: false,
            enable_turning: false,
        },
        (LevelId::One, 20) => Effect {
            message: Some(Message::TurningFound),
            enable_thrust: false,
            enable_turning: true,
        },
        (LevelId::One, 21) => Effect {
            message: Some(Message::NaturalFeel),
            enable_thrust: false,
            enable_turning: false,
        },
        (LevelId::One, 22) => Effect {
            message: Some(Message::PilotMemory),
            enable_thrust: false,
            enable_turning: false,
        },
        (LevelId::One, _) => Effect {
            message: Some(Message::UnknownTrigger(id)),
            enable_thrust: false,
            enable_turning: false,
        },
    }
}

/// The sounds and the thrust loudness the host should play after a
/// frame.
#[derive(Clone, Copy, Debug, PartialEq, Eq, Structural)]
pub struct FrameOutput {
    /// The ship crashed this frame.
    pub explosion: bool,
    /// A new message appeared this frame.
    pub ping: bool,
    /// Thrust loudness in percent: silent while dead or idle, soft while
    /// a message is pending, full otherwise.
    pub thrust_volume_pct: u8,
}

/// The whole game state of one level attempt.
pub struct Game {
    pub level_id: LevelId,
    pub level: Level,
    pub map: CollisionMap,
    pub ship: Ship,
    /// Ids of the triggers that have fired this level attempt.
    pub fired: Vec<u32>,
    /// The message pending acknowledgment; its presence pauses physics.
    pub pending_message: Option<Message>,
}

/// The ship with the frame's controls sampled into angular velocity and
/// thrust.
pub open spec fn sampled_ship(s: Ship, c: Controls) -> Ship {
    Ship {
        angular_velocity: s.sampled_angular_velocity(c) as i64,
        thrust: s.sampled_thrust(c) as i64,
        ..s
    }
}

/// One fixed tick of play: a dead ship only accumulates dead time; a
/// live ship integrates, dies if its collider touches a solid cell, and
/// otherwise reports the trigger pick at its new position.
pub open spec fn step_tick_spec(g: Game) -> (Ship, Option<u32>) {
    if !g.ship.alive {
        let d = if g.ship.dead_time + TICK_FX >= DEAD_TIMEOUT_FX {
            DEAD_TIMEOUT_FX as int
        } else {
            g.ship.dead_time + TICK_FX
        };
        (Ship { dead_time: d as i64, ..g.ship }, None::<u32>)
    } else {
        let s = tick_spec(g.ship, GRAVITY_FX as int);
        if ship_hits_spec(g.map.cells(), s) {
            (Ship { alive: false, ..s }, None::<u32>)
        } else {
            (s, pick_trigger_spec(g.level.triggers@, g.fired@, s.position.x as int, s.position.y as int))
        }
    }
}

/// Up to `n` fixed ticks of play, stopping early at the first trigger
/// hit: the ship afterwards, and the hit if one stopped the run.
pub open spec fn run_play_spec(g: Game, n: nat) -> (Ship, Option<u32>)
    decreases n,
{
    if n == 0 {
        (g.ship, None::<u32>)
    } else {
        let st = step_tick_spec(g);
        if st.1 is Some {
            st
        } else {
            run_play_spec(Game { ship: st.0, ..g }, (n - 1) as nat)
        }
    }
}

impl Game {
    /// A well-formed game: level, map and ship well formed, and the map
    /// rasterized from this level's polygons.
    pub open spec fn wf(self) -> bool {
        &&& self.level.wf()
        &&& self.map.wf()
        &&& self.ship.wf()
        &&& grid_matches(self.map.cells(), self.level.polys())
    }

    /// Starts a level attempt: rasterizes the collision map and puts a
    /// fresh ship at the spawn position, with no trigger fired and no
    /// message pending.
    pub fn new(level_id: LevelId, level: Level, collider: Vec<Vec<Pt>>) -> (g: Game)
        requires
            level.wf(),
            polys_in_range(collider@.map_values(|v: Vec<Pt>| v@)),
        ensures
            g.wf(),
            g.level_id == level_id,
            g.level == level,
            g.fired@ == Seq::<u32>::empty(),
            g.pending_message is None,
            grid_matches(g.map.cells(), level.polys()),
            g.ship.position == spawn_center_spec(level),
            g.ship.velocity == (Pt { x: 0, y: 0 }),
            g.ship.angle == crate::fixed::ANGLE_QUARTER,
            g.ship.angular_velocity == 0,
            g.ship.thrust == 0,
            g.ship.alive,
            g.ship.dead_time == 0,
            !g.ship.turning_enabled,
            !g.ship.thrust_enabled,
            g.ship.collider == collider,
    {
        let spawn = level.get_spawn_position();
        let map = CollisionMap::build(&level);
        let ship = Ship::new(spawn, collider);
        Game {
            level_id,
            level,
            map,
            ship,
            fired: Vec::new(),
            pending_message: None,
        }
    }

    /// Shows a message: it becomes the one pending message, pausing
    /// physics until acknowledged.
    pub fn show_message(&mut self, m: Message)
        ensures
            *final(self) == (Game { pending_message: Some(m), ..*old(self) }),
    {
        self.pending_message = Some(m);
    }

    /// Resets the ship to the spawn position for a new try at the same
    /// level; the fired set is deliberately kept.
    pub fn restart_level(&mut self)
        requires
            old(self).wf(),
        ensures
            final(self).wf(),
            *final(self) == (Game {
                ship: final(self).ship,
                ..*old(self)
            }),
            final(self).ship == (Ship {
                position: spawn_center_spec(old(self).level),
                velocity: (Pt { x: 0, y: 0 }),
                angle: crate::fixed::ANGLE_QUARTER,
                angular_velocity: 0,
                thrust: 0,
                alive: true,
                dead_time: 0,
                ..old(self).ship
            }),
    {
        let spawn = self.level.get_spawn_position();
        self.ship.reset(spawn);
    }

    /// Samples the controls and runs up to `max_ticks` fixed ticks,
    /// stopping at the first trigger hit; afterwards, a ship that has
    /// been dead long enough is shown the game-over prompt.  The fired
    /// set is not touched here: the caller fires the returned trigger.
    pub fn update_during_play(&mut self, c: Controls, max_ticks: u32) -> (hit: Option<u32>)
        requires
            old(self).wf(),
        ensures
            final(self).wf(),
            final(self).level == old(self).level,
            final(self).level_id == old(self).level_id,
            final(self).map == old(self).map,
            final(self).fired == old(self).fired,
            ({
                let start = Game { ship: sampled_ship(old(self).ship, c), ..*old(self) };
                let r = run_play_spec(start, max_ticks as nat);
                &&& final(self).ship == r.0
                &&& hit == r.1
                &&& final(self).pending_message == if !r.0.alive && r.0.dead_time >= DEAD_TIMEOUT_FX {
                    Some(Message::GameOver)
                } else {
                    old(self).pending_message
                }
            }),
    {
        let ghost start = Game { ship: sampled_ship(old(self).ship, c), ..*old(self) };
        let ghost n = max_ticks as nat;
        self.ship.update(c);
        let mut ticks_left = max_ticks;
        let mut hit: Option<u32> = None;
        proof {
            assert(self.ship == start.ship);
            assert(*self == (Game { pending_message: self.pending_message, ..start }));
        }
        #[verifier::loop_isolation(false)]
        while ticks_left > 0 && hit.is_none()
            invariant
                self.ship.wf(),
                self.level == start.level,
                self.level_id == start.level_id,
                self.map == start.map,
                self.fired == start.fired,
                self.pending_message == old(self).pending_message,
                0 <= ticks_left <= max_ticks,
                hit is None ==> run_play_spec(start, n)
                    == run_play_spec(Game { ship: self.ship, ..start }, ticks_left as nat),
                hit is Some ==> run_play_spec(start, n) == (self.ship, hit),
            decreases ticks_left,
        {
            let ghost cur = Game { ship: self.ship, ..start };
            if self.ship.alive {
                self.ship.tick(GRAVITY_FX);
                if self.ship.hits(&self.map) {
                    self.ship.alive = false;
                } else {
                    hit = self.level.pick_trigger(
                        &self.fired,
                        self.ship.position.x,
                        self.ship.position.y,
                    );
                }
            } else {
                let d = self.ship.dead_time + TICK_FX;
                self.ship.dead_time = if d >= DEAD_TIMEOUT_FX {
                    DEAD_TIMEOUT_FX
                } else {
                    d
                };
            }
            proof {
                let st = step_tick_spec(cur);
                assert(self.ship == st.0);
                assert(hit == st.1);
            }
            ticks_left = ticks_left - 1;
        }
        if !self.ship.alive && self.ship.dead_time >= DEAD_TIMEOUT_FX {
            self.show_message(Message::GameOver);
        }
        hit
    }

    /// Fires a trigger: marks it fired first, then applies its effect
    /// from the narrative table — control unlocks stick to the ship, and
    /// the message, if any, becomes pending.
    pub fn execute_trigger(&mut self, id: u32)
        ensures
            final(self).level == old(self).level,
            final(self).level_id == old(self).level_id,
            final(self).map == old(self).map,
            final(self).fired@ == if old(self).fired@.contains(id) {
                old(self).fired@
            } else {
                old(self).fired@.push(id)
            },
            final(self).fired@.contains(id),
            forall|id2: u32| old(self).fired@.contains(id2) ==> final(self).fired@.contains(id2),
            ({
                let e = effect_spec(old(self).level_id, id);
                &&& final(self).pending_message == if e.message is Some {
                    e.message
                } else {
                    old(self).pending_message
                }
                &&& final(self).ship == (Ship {
                    thrust_enabled: old(self).ship.thrust_enabled || e.enable_thrust,
                    turning_enabled: old(self).ship.turning_enabled || e.enable_turning,
                    ..old(self).ship
                })
            }),
            old(self).wf() ==> final(self).wf(),
    {
        if !crate::level::contains_id(&self.fired, id) {
            self.fired.push(id);
            proof {
                assert(self.fired@[old(self).fired@.len() as int] == id);
                assert(self.fired@.contains(id));
                assert forall|id2: u32| old(self).fired@.contains(id2)
                    implies self.fired@.contains(id2) by {
                    let j = choose|j: int| 0 <= j < old(self).fired@.len()
                        && old(self).fired@[j] == id2;
                    assert(self.fired@[j] == id2);
                }
            }
        }
        let e = effect_for(self.level_id, id);
        if e.enable_thrust {
            self.ship.thrust_enabled = true;
        }
        if e.enable_turning {
            self.ship.turning_enabled = true;
        }
        match e.message {
            Some(m) => {
                self.show_message(m);
            },
            None => {},
        }
    }

    /// One frame: while a message is pending, physics is suspended and
    /// only the confirm key acts — it clears the message, and if the
    /// ship is dead it also resets it to the spawn without clearing the
    /// fired set.  Otherwise the frame samples controls, runs its ticks,
    /// and fires the trigger hit, if any.  The output carries the
    /// frame's audio cues.
    pub fn update(&mut self, c: Controls, max_ticks: u32) -> (out: FrameOutput)
        requires
            old(self).wf(),
        ensures
            final(self).wf(),
            final(self).level == old(self).level,
            final(self).level_id == old(self).level_id,
            final(self).map == old(self).map,
            forall|id: u32| old(self).fired@.contains(id) ==> final(self).fired@.contains(id),
            old(self).pending_message is Some ==> if c.confirm {
                &&& final(self).pending_message is None
                &&& final(self).fired == old(self).fired
                &&& if !old(self).ship.alive {
                    final(self).ship == (Ship {
                        position: spawn_center_spec(old(self).level),
                        velocity: (Pt { x: 0, y: 0 }),
                        angle: crate::fixed::ANGLE_QUARTER,
                        angular_velocity: 0,
                        thrust: 0,
                        alive: true,
                        dead_time: 0,
                        ..old(self).ship
                    })
                } else {
                    final(self).ship == old(self).ship
                }
            } else {
                *final(self) == *old(self)
            },
            old(self).pending_message is None ==> ({
                let start = Game { ship: sampled_ship(old(self).ship, c), ..*old(self) };
                let r = run_play_spec(start, max_ticks as nat);
                match r.1 {
                    Some(id) => {
                        let e = effect_spec(old(self).level_id, id);
                        &&& final(self).fired@ == old(self).fired@.push(id)
                        &&& final(self).pending_message == e.message
                        &&& final(self).ship == (Ship {
                            thrust_enabled: r.0.thrust_enabled || e.enable_thrust,
                            turning_enabled: r.0.turning_enabled || e.enable_turning,
                            ..r.0
                        })
                    },
                    None => {
                        &&& final(self).fired == old(self).fired
                        &&& final(self).ship == r.0
                        &&& final(self).pending_message == if !r.0.alive
                            && r.0.dead_time >= DEAD_TIMEOUT_FX {
                            Some(Message::GameOver)
                        } else {
                            None::<Message>
                        }
                    },
                }
            }),
            out.explosion == (old(self).ship.alive && !final(self).ship.alive),
            out.ping == (old(self).pending_message is None && final(self).pending_message is Some),
            out.thrust_volume_pct == if !final(self).ship.alive || final(self).ship.thrust == 0 {
                0u8
            } else if final(self).pending_message is Some {
                15u8
            } else {
                30u8
            },
    {
        let alive_before = self.ship.alive;
        let ui_displayed = self.pending_message.is_some();
        if ui_displayed {
            if c.confirm {
                self.pending_message = None;
                if !self.ship.alive {
                    self.restart_level();
                }
            }
        } else {
            let hit = self.update_during_play(c, max_ticks);
            match hit {
                Some(id) => {
                    proof {
                        let start = Game { ship: sampled_ship(old(self).ship, c), ..*old(self) };
                        lemma_run_play_hit_unfired(start, max_ticks as nat, id);
                        lemma_run_play_hit_alive(start, max_ticks as nat);
                    }
                    self.execute_trigger(id);
                },
                None => {},
            }
        }
        let pending_now = self.pending_message.is_some();
        let thrust_volume_pct: u8 = if !self.ship.alive || self.ship.thrust == 0 {
            0
        } else if pending_now {
            15
        } else {
            30
        };
        FrameOutput {
            explosion: alive_before && !self.ship.alive,
            ping: !ui_displayed && pending_now,
            thrust_volume_pct,
        }
    }
}

/// A world-space rectangle in fixed point: origin at `(x, y)`, extent
/// `(w, h)`.  A negative `h` means the rectangle is given top-down, as
/// raster-oriented hosts expect.
#[derive(Clone, Copy, Debug, PartialEq, Eq, Structural)]
pub struct RectFx {
    pub x: i64,
    pub y: i64,
    pub w: i64,
    pub h: i64,
}

/// The world rectangle the camera shows: centered on `center`, a fixed
/// visible height, and a width following the viewport's aspect ratio
/// (fixed point, width over height), handed top-down.
pub fn camera_rect(center: Pt, aspect: i64) -> (r: RectFx)
    requires
        0 <= aspect <= 16 * crate::fixed::FX_ONE,
        -P_MAX_FX <= center.x <= P_MAX_FX,
        -P_MAX_FX <= center.y <= P_MAX_FX,
    ensures
        r.w == crate::fixed::fx_mul_spec(crate::fixed::VISIBLE_HEIGHT_FX as int, aspect as int),
        r.h == -crate::fixed::VISIBLE_HEIGHT_FX,
        r.x == center.x - r.w / 2,
        r.y == center.y + crate::fixed::VISIBLE_HEIGHT_FX / 2,
{
    let width = crate::fixed::fx_mul(crate::fixed::VISIBLE_HEIGHT_FX, aspect);
    RectFx {
        x: center.x - width / 2,
        y: center.y + crate::fixed::VISIBLE_HEIGHT_FX / 2,
        w: width,
        h: -crate::fixed::VISIBLE_HEIGHT_FX,
    }
}

/// A run that stops at a trigger hit leaves the ship alive: only a live
/// ship reaches the trigger pick.
pub proof fn lemma_run_play_hit_alive(g: Game, n: nat)
    requires
        run_play_spec(g, n).1 is Some,
    ensures
        run_play_spec(g, n).0.alive,
    decreases n,
{
    if n > 0 {
        let st = step_tick_spec(g);
        if !(st.1 is Some) {
            lemma_run_play_hit_alive(Game { ship: st.0, ..g }, (n - 1) as nat);
        }
    }
}

/// A trigger hit reported by a run of ticks is never one that had
/// already fired.
pub proof fn lemma_run_play_hit_unfired(g: Game, n: nat, id: u32)
    requires
        run_play_spec(g, n).1 == Some(id),
    ensures
        !g.fired@.contains(id),
    decreases n,
{
    if n > 0 {
        let st = step_tick_spec(g);
        if st.1 is Some {
            if g.fired@.contains(id) {
                lemma_pick_excludes_fired(
                    g.level.triggers@,
                    g.fired@,
                    st.0.position.x as int,
                    st.0.position.y as int,
                    g.level.triggers@.len() as int,
                    id,
                );
            }
        } else {
            lemma_run_play_hit_unfired(Game { ship: st.0, ..g }, (n - 1) as nat, id);
        }
    }
}

/// Law: a trigger fires at most once per level attempt.  Once an id is
/// in the fired set, no later run of ticks — however the ship moves —
/// ever reports it again, and nothing but a fresh level removes ids
/// from the set.
pub proof fn lemma_trigger_fires_at_most_once(g: Game, n: nat, id: u32)
    requires
        g.fired@.contains(id),
    ensures
        run_play_spec(g, n).1 != Some(id),
{
    if run_play_spec(g, n).1 == Some(id) {
        lemma_run_play_hit_unfired(g, n, id);
    }
}

} // verus!

