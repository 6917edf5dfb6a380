//! The collision rasterizer: level polygons are sampled once into a dense
//! bit-per-cell occupancy grid over the fixed world rectangle
//! `LEVEL_EXTENTS` (x in [-500, 500), y in [-1000, 1000) world units), and
//! per-tick queries test world points against it in O(1).
//!
//! Grid convention, fixed here once: column `c` (row `r`) covers the
//! half-open band of width `CELL_FX` centered on the lattice point
//! `EXT_MIN + c * CELL_FX`, and that lattice point is the cell's sample
//! center; a world point maps to its cell by rounding `(p - EXT_MIN) /
//! CELL_FX` to the nearest integer (halves rounding up).  A cell is solid
//! exactly when its sample center lies inside some level polygon by the
//! even-odd rule.  Rows are stored top-down: world row `r` lives at bit
//! index `(MAP_H - 1 - r) * MAP_W + c`, because raster storage grows
//! downward while world y grows upward.  A query outside the grid is not
//! solid: out-of-bounds points are conservatively empty space.

use vstd::prelude::*;

verus! {

use crate::fixed::COORD_LIMIT_FX;
use crate::fixed::div_floor;
use crate::geom::Pt;
use crate::geom::pt_in_range;
use crate::geom::point_in_any;
use crate::geom::point_in_any_spec;
use crate::level::Level;

/// Cells per grid row.
pub const MAP_W: usize = 1024;

/// Grid rows.
pub const MAP_H: usize = 2048;

/// Total cells of the grid.
pub const MAP_CELLS: usize = 2097152;

/// Smallest x of the rasterized world rectangle (-500 world units).
pub const EXT_MIN_X_FX: i64 = -32768000;

/// Smallest y of the rasterized world rectangle (-1000 world units).
pub const EXT_MIN_Y_FX: i64 = -65536000;

/// One past the largest x of the rasterized world rectangle (500 world units).
pub const EXT_MAX_X_FX: i64 = 32768000;

/// One past the largest y of the rasterized world rectangle (1000 world units).
pub const EXT_MAX_Y_FX: i64 = 65536000;

/// Side of one grid cell in fixed point (1000 world units / 1024 cells).
pub const CELL_FX: i64 = 64000;

/// Half a grid cell in fixed point.
pub const HALF_CELL_FX: i64 = 32000;

/// Largest coordinate magnitude a collision query accepts; far beyond the
/// extents, and small enough that the cell mapping cannot overflow.
pub const QUERY_LIMIT_FX: i64 = 2199023255552;

/// The bits a `bit_vec::BitVec` holds, in index order: element `i` of
/// the sequence is bit `i` of the vector.
pub uninterp spec fn bits_of(v: bit_vec::BitVec) -> Seq<bool>;

#[verifier::external_type_specification]
#[verifier::external_body]
#[verifier::reject_recursive_types(B)]
pub struct ExBitVec<B>(bit_vec::BitVec<B>);

/// Relies on bit_vec::BitVec::from_elem: a vector of `len` bits, each
/// equal to `bit`.
#[verifier::external_body]
fn bv_from_elem(len: usize, bit: bool) -> (r: bit_vec::BitVec)
    ensures
        bits_of(r) == Seq::new(len as nat, |i: int| bit),
{
    bit_vec::BitVec::from_elem(len, bit)
}

/// Relies on bit_vec::BitVec::set: writes bit `i`, leaving every other
/// bit as it was.  `set` panics at or past the length, so that is
/// excluded here.
#[verifier::external_body]
fn bv_set(v: &mut bit_vec::BitVec, i: usize, x: bool)
    requires
        i < bits_of(*old(v)).len(),
    ensures
        bits_of(*final(v)) == bits_of(*old(v)).update(i as int, x),
{
    v.set(i, x)
}

/// Relies on bit_vec::BitVec::get: bit `i` when `i` is within the length,
/// and `None` past it.
#[verifier::external_body]
fn bv_get(v: &bit_vec::BitVec, i: usize) -> (r: Option<bool>)
    ensures
        r == if i < bits_of(*v).len() {
            Some(bits_of(*v)[i as int])
        } else {
            None::<bool>
        },
{
    v.get(i)
}

/// The grid column whose band holds `x`: `(x - EXT_MIN_X) / CELL` rounded
/// to the nearest integer, halves up.
pub open spec fn col_of_x(x: int) -> int {
    (x - EXT_MIN_X_FX + HALF_CELL_FX) / (CELL_FX as int)
}

/// The grid row whose band holds `y`, with the same rounding as columns.
pub open spec fn row_of_y(y: int) -> int {
    (y - EXT_MIN_Y_FX + HALF_CELL_FX) / (CELL_FX as int)
}

/// The bit index of world cell `(row, col)` in top-down raster storage.
pub open spec fn bit_index(row: int, col: int) -> int {
    (MAP_H - 1 - row) * (MAP_W as int) + col
}

/// The world point at the sample center of cell `(row, col)`.
pub open spec fn cell_center(row: int, col: int) -> Pt {
    Pt {
        x: (EXT_MIN_X_FX + col * CELL_FX) as i64,
        y: (EXT_MIN_Y_FX + row * CELL_FX) as i64,
    }
}

/// Cell `(row, col)` samples solid: its center lies in some polygon.
pub open spec fn cell_solid(polys: Seq<Seq<Pt>>, row: int, col: int) -> bool {
    point_in_any_spec(polys, cell_center(row, col))
}

/// What a well-built occupancy grid holds for `polys`: every cell's bit
/// is its center's containment sample.
pub open spec fn grid_matches(cells: Seq<bool>, polys: Seq<Seq<Pt>>) -> bool {
    &&& cells.len() == MAP_CELLS
    &&& forall|row: int, col: int|
        0 <= row < MAP_H && 0 <= col < MAP_W
            ==> cells[bit_index(row, col)] == cell_solid(polys, row, col)
}

/// The point-in-solid answer the grid `cells` gives for world point
/// `(x, y)`: the point's cell's bit, or empty when the point maps outside
/// the grid.
pub open spec fn is_solid_spec(cells: Seq<bool>, x: int, y: int) -> bool {
    let col = col_of_x(x);
    let row = row_of_y(y);
    &&& 0 <= col < MAP_W
    &&& 0 <= row < MAP_H
    &&& cells[bit_index(row, col)]
}

/// The rasterized occupancy grid of one level; built once, immutable
/// afterwards, queried every tick.
pub struct CollisionMap {
    bits: bit_vec::BitVec,
}

impl CollisionMap {
    /// The grid as a sequence of bits in raster order.
    pub closed spec fn cells(self) -> Seq<bool> {
        bits_of(self.bits)
    }

    /// A well-formed map holds exactly one bit per grid cell.
    pub open spec fn wf(self) -> bool {
        self.cells().len() == MAP_CELLS
    }

    /// Rasterizes the level's polygons: every grid cell's bit becomes the
    /// even-odd containment sample of its center.
    pub fn build(level: &Level) -> (m: CollisionMap)
        requires
            level.wf(),
        ensures
            m.wf(),
            grid_matches(m.cells(), level.polys()),
    {
        let ghost polys = level.polys();
        let mut bits = bv_from_elem(MAP_CELLS, false);
        let mut row: usize = 0;
        #[verifier::loop_isolation(false)]
        while row < MAP_H
            invariant
                0 <= row <= MAP_H,
                bits_of(bits).len() == MAP_CELLS,
                forall|r: int, c: int|
                    0 <= r < row && 0 <= c < MAP_W
                        ==> bits_of(bits)[bit_index(r, c)] == cell_solid(polys, r, c),
            decreases MAP_H - row,
        {
            let mut col: usize = 0;
            #[verifier::loop_isolation(false)]
            while col < MAP_W
                invariant
                    0 <= row < MAP_H,
                    0 <= col <= MAP_W,
                    bits_of(bits).len() == MAP_CELLS,
                    forall|r: int, c: int|
                        0 <= r < row && 0 <= c < MAP_W
                            ==> bits_of(bits)[bit_index(r, c)] == cell_solid(polys, r, c),
                    forall|c: int|
                        0 <= c < col
                            ==> bits_of(bits)[bit_index(row as int, c)]
                                == cell_solid(polys, row as int, c),
                decreases MAP_W - col,
            {
                let cx = EXT_MIN_X_FX + (col as i64) * CELL_FX;
                let cy = EXT_MIN_Y_FX + (row as i64) * CELL_FX;
                let center = Pt { x: cx, y: cy };
                proof {
                    assert(center == cell_center(row as int, col as int));
                    assert(pt_in_range(center));
                }
                let solid = point_in_any(&level.polygons, center);
                let idx = (MAP_H - 1 - row) * MAP_W + col;
                proof {
                    assert(idx == bit_index(row as int, col as int));
                    assert(idx < MAP_CELLS);
                }
                bv_set(&mut bits, idx, solid);
                proof {
                    lemma_bit_index_injective();
                }
                col = col + 1;
            }
            row = row + 1;
        }
        CollisionMap { bits }
    }

    /// The bit index a world point maps to, or `None` when it falls
    /// outside the grid.
    pub fn get_collider_map_index(x: i64, y: i64) -> (r: Option<usize>)
        requires
            -QUERY_LIMIT_FX <= x <= QUERY_LIMIT_FX,
            -QUERY_LIMIT_FX <= y <= QUERY_LIMIT_FX,
        ensures
            r == if 0 <= col_of_x(x as int) < MAP_W && 0 <= row_of_y(y as int) < MAP_H {
                Some(bit_index(row_of_y(y as int), col_of_x(x as int)) as usize)
            } else {
                None::<usize>
            },
    {
        let col = div_floor(x - EXT_MIN_X_FX + HALF_CELL_FX, CELL_FX);
        if col < 0 || col >= MAP_W as i64 {
            return None;
        }
        let row = div_floor(y - EXT_MIN_Y_FX + HALF_CELL_FX, CELL_FX);
        if row < 0 || row >= MAP_H as i64 {
            return None;
        }
        Some((MAP_H - 1 - (row as usize)) * MAP_W + (col as usize))
    }

    /// Whether the level is solid at a world point.  Points that map
    /// outside the grid are reported empty.
    pub fn is_solid(&self, x: i64, y: i64) -> (r: bool)
        requires
            self.wf(),
            -QUERY_LIMIT_FX <= x <= QUERY_LIMIT_FX,
            -QUERY_LIMIT_FX <= y <= QUERY_LIMIT_FX,
        ensures
            r == is_solid_spec(self.cells(), x as int, y as int),
    {
        match CollisionMap::get_collider_map_index(x, y) {
            Some(idx) => {
                proof {
                    lemma_bit_index_in_range(row_of_y(y as int), col_of_x(x as int));
                }
                match bv_get(&self.bits, idx) {
                    Some(b) => b,
                    None => false,
                }
            },
            None => false,
        }
    }
}

/// Distinct in-range cells use distinct bit indices.
pub proof fn lemma_bit_index_injective()
    ensures
        forall|r1: int, c1: int, r2: int, c2: int|
            0 <= r1 < MAP_H && 0 <= c1 < MAP_W && 0 <= r2 < MAP_H && 0 <= c2 < MAP_W
                && bit_index(r1, c1) == bit_index(r2, c2)
                ==> r1 == r2 && c1 == c2,
{
    assert forall|r1: int, c1: int, r2: int, c2: int|
        0 <= r1 < MAP_H && 0 <= c1 < MAP_W && 0 <= r2 < MAP_H && 0 <= c2 < MAP_W
            && bit_index(r1, c1) == bit_index(r2, c2)
        implies r1 == r2 && c1 == c2 by {
        assert((MAP_H - 1 - r1) * (MAP_W as int) - (MAP_H - 1 - r2) * (MAP_W as int)
            == (r2 - r1) * (MAP_W as int)) by (nonlinear_arith);
        assert((r2 - r1) * (MAP_W as int) == c1 - c2);
        if r1 != r2 {
            assert((r2 - r1) * (MAP_W as int) >= MAP_W || (r2 - r1) * (MAP_W as int) <= -(MAP_W as int))
                by (nonlinear_arith)
                requires
                    r1 != r2,
            ;
        }
    }
}

/// Law: a query outside the rasterized extents is never solid.  The grid
/// is closed-open per cell, so on the low side of each axis the guarantee
/// begins half a cell out (a point less than `HALF_CELL_FX` below the
/// minimum still rounds to the first cell); at and beyond the maxima it
/// holds exactly.
pub proof fn lemma_outside_extents_not_solid(cells: Seq<bool>, x: int, y: int)
    requires
        x < EXT_MIN_X_FX - HALF_CELL_FX || x >= EXT_MAX_X_FX
            || y < EXT_MIN_Y_FX - HALF_CELL_FX || y >= EXT_MAX_Y_FX,
    ensures
        !is_solid_spec(cells, x, y),
{
    let cell = CELL_FX as int;
    if x < EXT_MIN_X_FX - HALF_CELL_FX {
        let n = x - EXT_MIN_X_FX + HALF_CELL_FX;
        vstd::arithmetic::div_mod::lemma_div_is_ordered(n, -1, cell);
        vstd::arithmetic::div_mod::lemma_fundamental_div_mod_converse_div(-1, cell, -1, cell - 1);
    } else if x >= EXT_MAX_X_FX {
        let n = x - EXT_MIN_X_FX + HALF_CELL_FX;
        vstd::arithmetic::div_mod::lemma_div_is_ordered(1024 * cell, n, cell);
        vstd::arithmetic::div_mod::lemma_div_multiples_vanish(1024, cell);
    } else if y < EXT_MIN_Y_FX - HALF_CELL_FX {
        let n = y - EXT_MIN_Y_FX + HALF_CELL_FX;
        vstd::arithmetic::div_mod::lemma_div_is_ordered(n, -1, cell);
        vstd::arithmetic::div_mod::lemma_fundamental_div_mod_converse_div(-1, cell, -1, cell - 1);
    } else {
        let n = y - EXT_MIN_Y_FX + HALF_CELL_FX;
        vstd::arithmetic::div_mod::lemma_div_is_ordered(2048 * cell, n, cell);
        vstd::arithmetic::div_mod::lemma_div_multiples_vanish(2048, cell);
    }
}

/// Law: the coordinate mapping round-trips through cell centers.  Taking
/// any in-range cell, mapping its sample center back to world coordinates
/// and querying the grid there reads exactly that cell's bit.
pub proof fn lemma_cell_center_round_trip(cells: Seq<bool>, row: int, col: int)
    requires
        cells.len() == MAP_CELLS,
        0 <= row < MAP_H,
        0 <= col < MAP_W,
    ensures
        is_solid_spec(cells, cell_center(row, col).x as int, cell_center(row, col).y as int)
            == cells[bit_index(row, col)],
{
    let cell = CELL_FX as int;
    let cx = EXT_MIN_X_FX + col * cell;
    let cy = EXT_MIN_Y_FX + row * cell;
    assert(-COORD_LIMIT_FX <= col * cell <= COORD_LIMIT_FX) by (nonlinear_arith)
        requires
            0 <= col < MAP_W,
            cell == CELL_FX,
            MAP_W == 1024,
            CELL_FX == 64000,
            COORD_LIMIT_FX == 536870912,
    ;
    assert(-2 * COORD_LIMIT_FX <= row * cell <= 2 * COORD_LIMIT_FX) by (nonlinear_arith)
        requires
            0 <= row < MAP_H,
            cell == CELL_FX,
            MAP_H == 2048,
            CELL_FX == 64000,
            COORD_LIMIT_FX == 536870912,
    ;
    assert(cell_center(row, col).x == cx && cell_center(row, col).y == cy);
    vstd::arithmetic::div_mod::lemma_fundamental_div_mod_converse_div(
        cx - EXT_MIN_X_FX + HALF_CELL_FX, cell, col, HALF_CELL_FX as int);
    vstd::arithmetic::div_mod::lemma_fundamental_div_mod_converse_div(
        cy - EXT_MIN_Y_FX + HALF_CELL_FX, cell, row, HALF_CELL_FX as int);
    assert(col_of_x(cx) == col);
    assert(row_of_y(cy) == row);
}

/// Law: a grid built from an empty polygon list is entirely empty — no
/// query anywhere reports solid.
pub proof fn lemma_empty_level_never_solid(cells: Seq<bool>, polys: Seq<Seq<Pt>>, x: int, y: int)
    requires
        grid_matches(cells, polys),
        polys.len() == 0,
    ensures
        !is_solid_spec(cells, x, y),
{
    let col = col_of_x(x);
    let row = row_of_y(y);
    if 0 <= col < MAP_W && 0 <= row < MAP_H {
        assert(!cell_solid(polys, row, col));
    }
}

/// Law: a single rectangle that covers the whole extents rectangle makes
/// every cell of the built grid solid, because every sample center lies
/// inside it.
pub proof fn lemma_rect_cover_all_solid(x0: i64, y0: i64, x1: i64, y1: i64, row: int, col: int)
    requires
        x0 < x1,
        y0 < y1,
        x0 <= EXT_MIN_X_FX,
        x1 >= EXT_MAX_X_FX,
        y0 <= EXT_MIN_Y_FX,
        y1 >= EXT_MAX_Y_FX,
        0 <= row < MAP_H,
        0 <= col < MAP_W,
    ensures
        cell_solid(seq![crate::geom::rect_polygon_spec(x0 as int, y0 as int, x1 as int, y1 as int)],
            row, col),
{
    let cell = CELL_FX as int;
    let p = cell_center(row, col);
    assert(0 <= col * cell <= 1023 * cell) by (nonlinear_arith)
        requires
            0 <= col <= 1023,
            cell == 64000,
    ;
    assert(0 <= row * cell <= 2047 * cell) by (nonlinear_arith)
        requires
            0 <= row <= 2047,
            cell == 64000,
    ;
    crate::geom::lemma_rect_polygon_contains(x0, y0, x1, y1, p);
    let rect = crate::geom::rect_polygon_spec(x0 as int, y0 as int, x1 as int, y1 as int);
    let polys = seq![rect];
    assert(crate::geom::point_in_polygon_spec(polys[0], p));
}

/// Law: a grid built from a single rectangle that covers the whole
/// extents rectangle is entirely solid — every cell's bit is set.
pub proof fn lemma_full_cover_map_all_solid(cells: Seq<bool>, x0: i64, y0: i64, x1: i64, y1: i64)
    requires
        grid_matches(cells,
            seq![crate::geom::rect_polygon_spec(x0 as int, y0 as int, x1 as int, y1 as int)]),
        x0 < x1,
        y0 < y1,
        x0 <= EXT_MIN_X_FX,
        x1 >= EXT_MAX_X_FX,
        y0 <= EXT_MIN_Y_FX,
        y1 >= EXT_MAX_Y_FX,
    ensures
        forall|row: int, col: int|
            0 <= row < MAP_H && 0 <= col < MAP_W ==> cells[bit_index(row, col)],
{
    assert forall|row: int, col: int|
        0 <= row < MAP_H && 0 <= col < MAP_W implies cells[bit_index(row, col)] by {
        lemma_rect_cover_all_solid(x0, y0, x1, y1, row, col);
    }
}

/// Every in-range cell's bit index lies within the grid.
pub proof fn lemma_bit_index_in_range(row: int, col: int)
    requires
        0 <= row < MAP_H,
        0 <= col < MAP_W,
    ensures
        0 <= bit_index(row, col) < MAP_CELLS,
{
    assert(0 <= (MAP_H - 1 - row) * (MAP_W as int) <= (MAP_H - 1) * (MAP_W as int))
        by (nonlinear_arith)
        requires
            0 <= row < MAP_H,
    ;
}

} // verus!
