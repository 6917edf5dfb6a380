//! The level geometry store: the polygon list rendered and rasterized for
//! collisions, and the trigger rectangles keyed by id.
//!
//! A level is validated once when built from decoded asset data and is
//! immutable afterwards.  Validation failures are content-authoring bugs
//! and abort construction.

use vstd::prelude::*;

verus! {

use crate::geom::Pt;
use crate::geom::Trigger;
use crate::geom::pt_in_range;
use crate::geom::poly_in_range;
use crate::geom::polys_in_range;
use crate::geom::trigger_wf;
use crate::geom::trigger_contains_spec;

/// Why decoded level data was rejected.
#[derive(Clone, Copy, Debug, PartialEq, Eq, Structural)]
pub enum LevelError {
    /// A polygon vertex lies outside the geometry bound.
    BadPolygon,
    /// A trigger has an empty rectangle, lies outside the geometry bound,
    /// or shares its id with another trigger.
    BadTrigger,
    /// No trigger has id 0, so the level has no spawn position.
    MissingSpawnTrigger,
}

/// All trigger ids in `ts` are pairwise distinct.
pub open spec fn trigger_ids_unique(ts: Seq<Trigger>) -> bool {
    forall|i: int, j: int| 0 <= i < j < ts.len() ==> (#[trigger] ts[i]).id != (#[trigger] ts[j]).id
}

/// Every trigger in `ts` is well formed.
pub open spec fn triggers_wf(ts: Seq<Trigger>) -> bool {
    forall|i: int| 0 <= i < ts.len() ==> trigger_wf(#[trigger] ts[i])
}

/// Some trigger in `ts` carries the spawn id 0.
pub open spec fn has_spawn_trigger(ts: Seq<Trigger>) -> bool {
    exists|i: int| 0 <= i < ts.len() && (#[trigger] ts[i]).id == 0
}

/// The index of the spawn trigger; meaningful when `has_spawn_trigger`
/// holds, and unique when the ids are.
pub open spec fn spawn_index(ts: Seq<Trigger>) -> int {
    choose|i: int| 0 <= i < ts.len() && (#[trigger] ts[i]).id == 0
}

/// The center of the spawn trigger's rectangle, each coordinate rounded
/// toward negative infinity.
pub open spec fn spawn_center_spec(l: Level) -> Pt {
    let t = l.triggers@[spawn_index(l.triggers@)];
    Pt {
        x: ((t.min_x + t.max_x) / 2) as i64,
        y: ((t.min_y + t.max_y) / 2) as i64,
    }
}

/// The pick among the first `k` triggers: the smallest id of an un-fired
/// trigger whose rectangle contains `(x, y)`, if there is one.
pub open spec fn pick_upto(ts: Seq<Trigger>, fired: Seq<u32>, x: int, y: int, k: int) -> Option<u32>
    decreases k,
{
    if k <= 0 {
        None
    } else {
        let prev = pick_upto(ts, fired, x, y, k - 1);
        let t = ts[k - 1];
        if trigger_contains_spec(t, x, y) && !fired.contains(t.id) {
            match prev {
                None => Some(t.id),
                Some(b) => if t.id < b {
                    Some(t.id)
                } else {
                    Some(b)
                },
            }
        } else {
            prev
        }
    }
}

/// The trigger pick over all triggers: the smallest un-fired containing
/// id, or `None`.
pub open spec fn pick_trigger_spec(ts: Seq<Trigger>, fired: Seq<u32>, x: int, y: int) -> Option<u32> {
    pick_upto(ts, fired, x, y, ts.len() as int)
}

/// The pick never returns an id that has already fired.
pub proof fn lemma_pick_excludes_fired(ts: Seq<Trigger>, fired: Seq<u32>, x: int, y: int, k: int, id: u32)
    requires
        fired.contains(id),
    ensures
        pick_upto(ts, fired, x, y, k) != Some(id),
    decreases k,
{
    if k > 0 {
        lemma_pick_excludes_fired(ts, fired, x, y, k - 1, id);
    }
}

/// Trigger id `id` is unfired and its rectangle contains `(x, y)`.
pub open spec fn candidate_trigger(ts: Seq<Trigger>, fired: Seq<u32>, x: int, y: int, id: u32) -> bool {
    exists|i: int| {
        &&& 0 <= i < ts.len()
        &&& (#[trigger] ts[i]).id == id
        &&& trigger_contains_spec(ts[i], x, y)
        &&& !fired.contains(id)
    }
}

/// A loaded level: polygons for rendering and rasterization, and the
/// trigger rectangles.  Immutable after construction.
pub struct Level {
    pub polygons: Vec<Vec<Pt>>,
    pub triggers: Vec<Trigger>,
}

impl Level {
    /// The polygons as a sequence of vertex sequences.
    pub open spec fn polys(self) -> Seq<Seq<Pt>> {
        self.polygons@.map_values(|v: Vec<Pt>| v@)
    }

    /// A well-formed level: geometry in range, triggers well formed with
    /// unique ids, and a spawn trigger present.
    pub open spec fn wf(self) -> bool {
        &&& polys_in_range(self.polys())
        &&& triggers_wf(self.triggers@)
        &&& trigger_ids_unique(self.triggers@)
        &&& has_spawn_trigger(self.triggers@)
    }

    /// Validates decoded level data and builds the level.  Rejection is
    /// checked in this order: polygon geometry, trigger rectangles and
    /// ids, then the presence of the spawn trigger.
    pub fn new(polygons: Vec<Vec<Pt>>, triggers: Vec<Trigger>) -> (r: Result<Level, LevelError>)
        ensures
            match r {
                Ok(level) => {
                    &&& level.polygons@ == polygons@
                    &&& level.triggers@ == triggers@
                    &&& level.wf()
                },
                Err(e) => {
                    &&& e == LevelError::BadPolygon
                        <==> !polys_in_range(polygons@.map_values(|v: Vec<Pt>| v@))
                    &&& e == LevelError::BadTrigger
                        <==> polys_in_range(polygons@.map_values(|v: Vec<Pt>| v@))
                            && !(triggers_wf(triggers@) && trigger_ids_unique(triggers@))
                    &&& e == LevelError::MissingSpawnTrigger
                        <==> polys_in_range(polygons@.map_values(|v: Vec<Pt>| v@))
                            && triggers_wf(triggers@) && trigger_ids_unique(triggers@)
                            && !has_spawn_trigger(triggers@)
                },
            },
            r is Ok <==> {
                &&& polys_in_range(polygons@.map_values(|v: Vec<Pt>| v@))
                &&& triggers_wf(triggers@)
                &&& trigger_ids_unique(triggers@)
                &&& has_spawn_trigger(triggers@)
            },
    {
        let ghost pview = polygons@.map_values(|v: Vec<Pt>| v@);
        let mut i: usize = 0;
        #[verifier::loop_isolation(false)]
        while i < polygons.len()
            invariant
                0 <= i <= polygons@.len(),
                forall|j: int| 0 <= j < i ==> poly_in_range(#[trigger] pview[j]),
            decreases polygons@.len() - i,
        {
            proof {
                assert(pview[i as int] == polygons@[i as int]@);
            }
            let poly = &polygons[i];
            let mut k: usize = 0;
            #[verifier::loop_isolation(false)]
            while k < poly.len()
                invariant
                    0 <= k <= poly@.len(),
                    forall|j: int| 0 <= j < k ==> pt_in_range(#[trigger] poly@[j]),
                decreases poly@.len() - k,
            {
                let p = poly[k];
                if p.x < -crate::fixed::COORD_LIMIT_FX || p.x > crate::fixed::COORD_LIMIT_FX
                    || p.y < -crate::fixed::COORD_LIMIT_FX || p.y > crate::fixed::COORD_LIMIT_FX {
                    proof {
                        assert(!pt_in_range(pview[i as int][k as int]));
                        assert(!poly_in_range(pview[i as int]));
                    }
                    return Err(LevelError::BadPolygon);
                }
                k = k + 1;
            }
            i = i + 1;
        }
        proof {
            assert(polys_in_range(pview));
        }
        let mut i: usize = 0;
        #[verifier::loop_isolation(false)]
        while i < triggers.len()
            invariant
                0 <= i <= triggers@.len(),
                forall|j: int| 0 <= j < i ==> trigger_wf(#[trigger] triggers@[j]),
                forall|j: int, l: int| 0 <= j < l < i
                    ==> (#[trigger] triggers@[j]).id != (#[trigger] triggers@[l]).id,
            decreases triggers@.len() - i,
        {
            let t = triggers[i];
            if !(t.min_x < t.max_x && t.min_y < t.max_y
                && -crate::fixed::COORD_LIMIT_FX <= t.min_x && t.max_x <= crate::fixed::COORD_LIMIT_FX
                && -crate::fixed::COORD_LIMIT_FX <= t.min_y && t.max_y <= crate::fixed::COORD_LIMIT_FX) {
                proof {
                    assert(!trigger_wf(triggers@[i as int]));
                }
                return Err(LevelError::BadTrigger);
            }
            let mut j: usize = 0;
            #[verifier::loop_isolation(false)]
            while j < i
                invariant
                    0 <= j <= i,
                    forall|l: int| 0 <= l < j ==> (#[trigger] triggers@[l]).id != triggers@[i as int].id,
                decreases i - j,
            {
                if triggers[j].id == t.id {
                    proof {
                        assert((triggers@[j as int]).id == (triggers@[i as int]).id);
                        assert(!trigger_ids_unique(triggers@));
                    }
                    return Err(LevelError::BadTrigger);
                }
                j = j + 1;
            }
            i = i + 1;
        }
        proof {
            assert(triggers_wf(triggers@));
            assert(trigger_ids_unique(triggers@));
        }
        let mut has_spawn = false;
        let mut i: usize = 0;
        #[verifier::loop_isolation(false)]
        while i < triggers.len()
            invariant
                0 <= i <= triggers@.len(),
                has_spawn == exists|j: int| 0 <= j < i && (#[trigger] triggers@[j]).id == 0,
            decreases triggers@.len() - i,
        {
            if triggers[i].id == 0 {
                has_spawn = true;
            }
            i = i + 1;
        }
        if !has_spawn {
            return Err(LevelError::MissingSpawnTrigger);
        }
        Ok(Level { polygons, triggers })
    }

    /// The trigger with the given id, if the level has one.
    pub fn find_trigger(&self, id: u32) -> (r: Option<Trigger>)
        ensures
            match r {
                Some(t) => exists|i: int|
                    0 <= i < self.triggers@.len() && #[trigger] self.triggers@[i] == t && t.id == id,
                None => forall|i: int|
                    0 <= i < self.triggers@.len() ==> (#[trigger] self.triggers@[i]).id != id,
            },
    {
        let mut i: usize = 0;
        while i < self.triggers.len()
            invariant
                0 <= i <= self.triggers@.len(),
                forall|j: int| 0 <= j < i ==> (#[trigger] self.triggers@[j]).id != id,
            decreases self.triggers@.len() - i,
        {
            if self.triggers[i].id == id {
                return Some(self.triggers[i]);
            }
            i = i + 1;
        }
        None
    }

    /// The spawn position: the center of the trigger with id 0.  The
    /// level owes this position to every well-formed level.
    pub fn get_spawn_position(&self) -> (c: Pt)
        requires
            self.wf(),
        ensures
            c == spawn_center_spec(*self),
            pt_in_range(c),
    {
        let r = self.find_trigger(0);
        match r {
            Some(t) => {
                proof {
                    let i = choose|i: int|
                        0 <= i < self.triggers@.len() && #[trigger] self.triggers@[i] == t && t.id == 0;
                    let s = spawn_index(self.triggers@);
                    assert(0 <= s < self.triggers@.len() && self.triggers@[s].id == 0);
                    assert(i == s || self.triggers@[i].id != self.triggers@[s].id);
                }
                t.center()
            },
            None => {
                proof {
                    let s = spawn_index(self.triggers@);
                    assert(0 <= s < self.triggers@.len() && self.triggers@[s].id == 0);
                }
                // Unreachable: a well-formed level has a spawn trigger.
                Pt { x: 0, y: 0 }
            },
        }
    }

    /// The un-fired trigger whose rectangle contains `(x, y)`, if any.
    /// When several overlap, the smallest id wins: the source of truth for
    /// trigger order is the id, so the choice is deterministic.
    pub fn pick_trigger(&self, fired: &Vec<u32>, x: i64, y: i64) -> (r: Option<u32>)
        ensures
            r == pick_trigger_spec(self.triggers@, fired@, x as int, y as int),
            match r {
                Some(id) => {
                    &&& candidate_trigger(self.triggers@, fired@, x as int, y as int, id)
                    &&& forall|id2: u32|
                        candidate_trigger(self.triggers@, fired@, x as int, y as int, id2)
                            ==> id <= id2
                },
                None => forall|id2: u32|
                    !candidate_trigger(self.triggers@, fired@, x as int, y as int, id2),
            },
    {
        let mut best: Option<u32> = None;
        let mut i: usize = 0;
        while i < self.triggers.len()
            invariant
                0 <= i <= self.triggers@.len(),
                best == pick_upto(self.triggers@, fired@, x as int, y as int, i as int),
                match best {
                    Some(id) => {
                        &&& candidate_trigger(self.triggers@, fired@, x as int, y as int, id)
                        &&& forall|j: int| 0 <= j < i
                            && trigger_contains_spec(#[trigger] self.triggers@[j], x as int, y as int)
                            && !fired@.contains(self.triggers@[j].id)
                            ==> id <= self.triggers@[j].id
                    },
                    None => forall|j: int| 0 <= j < i
                        ==> !(trigger_contains_spec(#[trigger] self.triggers@[j], x as int, y as int)
                            && !fired@.contains(self.triggers@[j].id)),
                },
            decreases self.triggers@.len() - i,
        {
            let t = self.triggers[i];
            if t.contains(x, y) && !contains_id(fired, t.id) {
                match best {
                    Some(id) => {
                        if t.id < id {
                            best = Some(t.id);
                        }
                    },
                    None => {
                        best = Some(t.id);
                    },
                }
            }
            i = i + 1;
        }
        proof {
            if best is Some {
                assert(forall|id2: u32|
                    candidate_trigger(self.triggers@, fired@, x as int, y as int, id2)
                        ==> best->Some_0 <= id2);
            } else {
                assert(forall|id2: u32|
                    !candidate_trigger(self.triggers@, fired@, x as int, y as int, id2));
            }
        }
        best
    }
}

/// Whether `v` holds `id`.
pub fn contains_id(v: &Vec<u32>, id: u32) -> (r: bool)
    ensures
        r == v@.contains(id),
{
    let mut i: usize = 0;
    while i < v.len()
        invariant
            0 <= i <= v@.len(),
            forall|j: int| 0 <= j < i ==> v@[j] != id,
        decreases v@.len() - i,
    {
        if v[i] == id {
            proof {
                assert(v@.contains(id));
            }
            return true;
        }
        i = i + 1;
    }
    proof {
        assert(forall|j: int| 0 <= j < v@.len() ==> v@[j] != id);
        assert(!v@.contains(id));
    }
    false
}

} // verus!
