//! Plane geometry over fixed-point coordinates: points, axis-aligned
//! trigger rectangles, and the even-odd (crossing parity) containment test
//! that the collision rasterizer samples polygons with.
//!
//! A polygon is an ordered list of vertices forming a closed loop; either
//! winding is accepted, since crossing parity ignores orientation.  All
//! coordinates that take part in a containment test must stay within
//! `COORD_LIMIT_FX`, which keeps every intermediate product inside an
//! `i64`.

use vstd::prelude::*;

verus! {

use crate::fixed::COORD_LIMIT_FX;
use crate::fixed::div_floor;

/// A point or vector of the world plane, both coordinates in 16.16 fixed
/// point. World `y` grows upward.
#[derive(Clone, Copy, Debug, PartialEq, Eq, Structural)]
pub struct Pt {
    pub x: i64,
    pub y: i64,
}

/// Both coordinates of `p` lie within the geometry bound.
pub open spec fn pt_in_range(p: Pt) -> bool {
    &&& -COORD_LIMIT_FX <= p.x <= COORD_LIMIT_FX
    &&& -COORD_LIMIT_FX <= p.y <= COORD_LIMIT_FX
}

/// Every vertex of `poly` lies within the geometry bound.
pub open spec fn poly_in_range(poly: Seq<Pt>) -> bool {
    forall|i: int| 0 <= i < poly.len() ==> pt_in_range(#[trigger] poly[i])
}

/// Every vertex of every polygon of `polys` lies within the geometry bound.
pub open spec fn polys_in_range(polys: Seq<Seq<Pt>>) -> bool {
    forall|i: int| 0 <= i < polys.len() ==> poly_in_range(#[trigger] polys[i])
}

/// The index after `i` around a polygon of `n` vertices.
pub open spec fn next_vertex(n: int, i: int) -> int {
    if i + 1 == n {
        0
    } else {
        i + 1
    }
}

/// Twice the signed area of the triangle `a`, `b`, `p`: positive when `p`
/// lies to the left of the directed line from `a` to `b`.
pub open spec fn cross_spec(a: Pt, b: Pt, p: Pt) -> int {
    (b.x - a.x) * (p.y - a.y) - (p.x - a.x) * (b.y - a.y)
}

/// Whether the edge from `a` to `b` crosses the horizontal ray that runs
/// from `p` toward positive x.  Edges are half-open in y, so a vertex
/// shared by two edges is counted exactly once.
pub open spec fn edge_crosses_spec(a: Pt, b: Pt, p: Pt) -> bool {
    &&& (a.y <= p.y) != (b.y <= p.y)
    &&& if b.y > a.y {
            cross_spec(a, b, p) > 0
        } else {
            cross_spec(a, b, p) < 0
        }
}

/// Parity of ray crossings among the first `k` edges of `poly`; edge `i`
/// runs from vertex `i` to the vertex after it.
pub open spec fn crossing_parity(poly: Seq<Pt>, p: Pt, k: int) -> bool
    decreases k,
{
    if k <= 0 {
        false
    } else {
        crossing_parity(poly, p, k - 1) != edge_crosses_spec(
            poly[k - 1],
            poly[next_vertex(poly.len() as int, k - 1)],
            p,
        )
    }
}

/// `p` lies inside `poly` by the even-odd rule: a ray from `p` crosses the
/// boundary an odd number of times.
pub open spec fn point_in_polygon_spec(poly: Seq<Pt>, p: Pt) -> bool {
    crossing_parity(poly, p, poly.len() as int)
}

/// `p` lies inside at least one polygon of `polys`.
pub open spec fn point_in_any_spec(polys: Seq<Seq<Pt>>, p: Pt) -> bool {
    exists|i: int| 0 <= i < polys.len() && point_in_polygon_spec(#[trigger] polys[i], p)
}

fn edge_crosses(a: Pt, b: Pt, p: Pt) -> (r: bool)
    requires
        pt_in_range(a),
        pt_in_range(b),
        pt_in_range(p),
    ensures
        r == edge_crosses_spec(a, b, p),
{
    if (a.y <= p.y) != (b.y <= p.y) {
        proof {
            assert({
                &&& -0x4000_0000_0000_0000 < (b.x - a.x) * (p.y - a.y) < 0x4000_0000_0000_0000
                &&& -0x4000_0000_0000_0000 < (p.x - a.x) * (b.y - a.y) < 0x4000_0000_0000_0000
            }) by (nonlinear_arith)
                requires
                    -2 * COORD_LIMIT_FX <= b.x - a.x <= 2 * COORD_LIMIT_FX,
                    -2 * COORD_LIMIT_FX <= p.y - a.y <= 2 * COORD_LIMIT_FX,
                    -2 * COORD_LIMIT_FX <= p.x - a.x <= 2 * COORD_LIMIT_FX,
                    -2 * COORD_LIMIT_FX <= b.y - a.y <= 2 * COORD_LIMIT_FX,
                    COORD_LIMIT_FX == 536870912,
            ;
        }
        let cross = (b.x - a.x) * (p.y - a.y) - (p.x - a.x) * (b.y - a.y);
        if b.y > a.y {
            cross > 0
        } else {
            cross < 0
        }
    } else {
        false
    }
}

/// Whether `p` lies inside `poly` by the even-odd rule.
pub fn point_in_polygon(poly: &Vec<Pt>, p: Pt) -> (r: bool)
    requires
        poly_in_range(poly@),
        pt_in_range(p),
    ensures
        r == point_in_polygon_spec(poly@, p),
{
    let n = poly.len();
    let mut parity = false;
    let mut k: usize = 0;
    while k < n
        invariant
            n == poly@.len(),
            0 <= k <= n,
            poly_in_range(poly@),
            pt_in_range(p),
            parity == crossing_parity(poly@, p, k as int),
        decreases n - k,
    {
        let j = if k + 1 == n {
            0
        } else {
            k + 1
        };
        let c = edge_crosses(poly[k], poly[j], p);
        parity = parity != c;
        k = k + 1;
    }
    parity
}

/// Whether `p` lies inside at least one polygon of `polys`.
pub fn point_in_any(polys: &Vec<Vec<Pt>>, p: Pt) -> (r: bool)
    requires
        polys_in_range(polys@.map_values(|v: Vec<Pt>| v@)),
        pt_in_range(p),
    ensures
        r == point_in_any_spec(polys@.map_values(|v: Vec<Pt>| v@), p),
{
    let ghost view = polys@.map_values(|v: Vec<Pt>| v@);
    let mut i: usize = 0;
    while i < polys.len()
        invariant
            view == polys@.map_values(|v: Vec<Pt>| v@),
            0 <= i <= polys@.len(),
            polys_in_range(view),
            pt_in_range(p),
            forall|j: int| 0 <= j < i ==> !point_in_polygon_spec(#[trigger] view[j], p),
        decreases polys@.len() - i,
    {
        proof {
            assert(view[i as int] == polys@[i as int]@);
        }
        if point_in_polygon(&polys[i], p) {
            return true;
        }
        i = i + 1;
    }
    false
}

/// The four-vertex polygon of the axis-aligned rectangle with corners
/// `(x0, y0)` and `(x1, y1)`.
pub open spec fn rect_polygon_spec(x0: int, y0: int, x1: int, y1: int) -> Seq<Pt> {
    seq![
        Pt { x: x0 as i64, y: y0 as i64 },
        Pt { x: x1 as i64, y: y0 as i64 },
        Pt { x: x1 as i64, y: y1 as i64 },
        Pt { x: x0 as i64, y: y1 as i64 },
    ]
}

/// The even-odd rule on an axis-aligned rectangle polygon agrees with the
/// half-open box test: a point is inside exactly when `x0 <= x < x1` and
/// `y0 <= y < y1`.
pub proof fn lemma_rect_polygon_contains(x0: i64, y0: i64, x1: i64, y1: i64, p: Pt)
    requires
        x0 < x1,
        y0 < y1,
    ensures
        point_in_polygon_spec(rect_polygon_spec(x0 as int, y0 as int, x1 as int, y1 as int), p)
            == (x0 <= p.x < x1 && y0 <= p.y < y1),
{
    let poly = rect_polygon_spec(x0 as int, y0 as int, x1 as int, y1 as int);
    let a0 = poly[0];
    let a1 = poly[1];
    let a2 = poly[2];
    let a3 = poly[3];
    reveal_with_fuel(crossing_parity, 5);
    assert((cross_spec(a1, a2, p) > 0) == (p.x < x1)) by (nonlinear_arith)
        requires
            a1 == (Pt { x: x1, y: y0 }),
            a2 == (Pt { x: x1, y: y1 }),
            y0 < y1,
    ;
    assert((cross_spec(a3, a0, p) < 0) == (p.x < x0)) by (nonlinear_arith)
        requires
            a3 == (Pt { x: x0, y: y1 }),
            a0 == (Pt { x: x0, y: y0 }),
            y0 < y1,
    ;
    assert(!edge_crosses_spec(a0, a1, p));
    assert(!edge_crosses_spec(a2, a3, p));
    assert(edge_crosses_spec(a1, a2, p) == ((y0 <= p.y < y1) && p.x < x1));
    assert(edge_crosses_spec(a3, a0, p) == ((y0 <= p.y < y1) && p.x < x0));
    assert(crossing_parity(poly, p, 4)
        == (crossing_parity(poly, p, 0) != edge_crosses_spec(a0, a1, p)
            != edge_crosses_spec(a1, a2, p) != edge_crosses_spec(a2, a3, p)
            != edge_crosses_spec(a3, a0, p)));
}

/// An axis-aligned rectangular zone of the world, half-open on both axes,
/// that fires a one-time narrative or gating effect when the ship enters
/// it.  Id 0 is the spawn marker: its center is where the ship starts.
#[derive(Clone, Copy, Debug, PartialEq, Eq, Structural)]
pub struct Trigger {
    pub id: u32,
    pub min_x: i64,
    pub max_x: i64,
    pub min_y: i64,
    pub max_y: i64,
}

/// A well-formed trigger: a nonempty rectangle within the geometry bound.
pub open spec fn trigger_wf(t: Trigger) -> bool {
    &&& t.min_x < t.max_x
    &&& t.min_y < t.max_y
    &&& -COORD_LIMIT_FX <= t.min_x && t.max_x <= COORD_LIMIT_FX
    &&& -COORD_LIMIT_FX <= t.min_y && t.max_y <= COORD_LIMIT_FX
}

/// `(x, y)` lies in `t`'s rectangle; the test is half-open on both axes.
pub open spec fn trigger_contains_spec(t: Trigger, x: int, y: int) -> bool {
    &&& t.min_x <= x < t.max_x
    &&& t.min_y <= y < t.max_y
}

impl Trigger {
    /// Whether the point lies in this trigger's rectangle.
    pub fn contains(&self, x: i64, y: i64) -> (r: bool)
        ensures
            r == trigger_contains_spec(*self, x as int, y as int),
    {
        self.min_x <= x && x < self.max_x && self.min_y <= y && y < self.max_y
    }

    /// The center of this trigger's rectangle, each coordinate rounded
    /// toward negative infinity.
    pub fn center(&self) -> (c: Pt)
        requires
            trigger_wf(*self),
        ensures
            c.x == (self.min_x + self.max_x) / 2,
            c.y == (self.min_y + self.max_y) / 2,
            pt_in_range(c),
    {
        let cx = div_floor(self.min_x + self.max_x, 2);
        let cy = div_floor(self.min_y + self.max_y, 2);
        Pt { x: cx, y: cy }
    }
}

} // verus!
