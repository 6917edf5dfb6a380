use lander::collision::{CollisionMap, CELL_FX, EXT_MAX_X_FX, EXT_MAX_Y_FX, EXT_MIN_X_FX,
    EXT_MIN_Y_FX, HALF_CELL_FX, MAP_H, MAP_W};
use lander::fixed::FX_ONE;
use lander::geom::{point_in_polygon, Pt, Trigger};
use lander::level::Level;

fn spawn_trigger() -> Trigger {
    Trigger { id: 0, min_x: -FX_ONE, max_x: FX_ONE, min_y: -FX_ONE, max_y: FX_ONE }
}

fn rect_poly(x0: i64, y0: i64, x1: i64, y1: i64) -> Vec<Pt> {
    vec![
        Pt { x: x0, y: y0 },
        Pt { x: x1, y: y0 },
        Pt { x: x1, y: y1 },
        Pt { x: x0, y: y1 },
    ]
}

#[test]
fn point_in_rectangle_polygon_is_the_box_test() {
    let poly = rect_poly(0, 0, 10 * FX_ONE, 5 * FX_ONE);
    assert!(point_in_polygon(&poly, Pt { x: FX_ONE, y: FX_ONE }));
    assert!(point_in_polygon(&poly, Pt { x: 0, y: 0 }));
    assert!(!point_in_polygon(&poly, Pt { x: 10 * FX_ONE, y: FX_ONE }));
    assert!(!point_in_polygon(&poly, Pt { x: -1, y: FX_ONE }));
    assert!(!point_in_polygon(&poly, Pt { x: FX_ONE, y: 5 * FX_ONE }));
    assert!(!point_in_polygon(&poly, Pt { x: FX_ONE, y: -1 }));
}

#[test]
fn point_in_triangle_polygon() {
    let poly = vec![
        Pt { x: 0, y: 0 },
        Pt { x: 4 * FX_ONE, y: 0 },
        Pt { x: 0, y: 4 * FX_ONE },
    ];
    assert!(point_in_polygon(&poly, Pt { x: FX_ONE, y: FX_ONE }));
    assert!(!point_in_polygon(&poly, Pt { x: 3 * FX_ONE, y: 3 * FX_ONE }));
}

#[test]
fn empty_level_has_an_empty_collision_map() {
    let level = Level::new(Vec::new(), vec![spawn_trigger()]).unwrap();
    let map = CollisionMap::build(&level);
    // Sample a coarse lattice of the whole extents: nothing is solid.
    let mut y = EXT_MIN_Y_FX;
    while y < EXT_MAX_Y_FX {
        let mut x = EXT_MIN_X_FX;
        while x < EXT_MAX_X_FX {
            assert!(!map.is_solid(x, y));
            x += 97 * CELL_FX;
        }
        y += 97 * CELL_FX;
    }
}

#[test]
fn full_cover_level_is_solid_everywhere_inside() {
    // One rectangle covering the whole extents.
    let poly = rect_poly(
        EXT_MIN_X_FX - CELL_FX,
        EXT_MIN_Y_FX - CELL_FX,
        EXT_MAX_X_FX + CELL_FX,
        EXT_MAX_Y_FX + CELL_FX,
    );
    let level = Level::new(vec![poly], vec![spawn_trigger()]).unwrap();
    let map = CollisionMap::build(&level);
    // Every sampled cell center inside the extents reports solid.
    let mut row: usize = 0;
    while row < MAP_H {
        let mut col: usize = 0;
        while col < MAP_W {
            let cx = EXT_MIN_X_FX + (col as i64) * CELL_FX;
            let cy = EXT_MIN_Y_FX + (row as i64) * CELL_FX;
            assert!(map.is_solid(cx, cy));
            col += 131;
        }
        row += 131;
    }
}

#[test]
fn queries_outside_extents_are_never_solid() {
    let poly = rect_poly(
        EXT_MIN_X_FX - CELL_FX,
        EXT_MIN_Y_FX - CELL_FX,
        EXT_MAX_X_FX + CELL_FX,
        EXT_MAX_Y_FX + CELL_FX,
    );
    let level = Level::new(vec![poly], vec![spawn_trigger()]).unwrap();
    let map = CollisionMap::build(&level);
    // Even over an everywhere-solid level, points outside the extents
    // report empty.
    assert!(!map.is_solid(EXT_MIN_X_FX - HALF_CELL_FX - 1, 0));
    assert!(!map.is_solid(EXT_MAX_X_FX, 0));
    assert!(!map.is_solid(0, EXT_MIN_Y_FX - HALF_CELL_FX - 1));
    assert!(!map.is_solid(0, EXT_MAX_Y_FX));
    assert!(!map.is_solid(EXT_MAX_X_FX + 1000 * FX_ONE, 0));
    assert!(!map.is_solid(0, EXT_MIN_Y_FX - 1000 * FX_ONE));
}

#[test]
fn single_rectangle_map_answers_the_box_test_at_cell_centers() {
    // A single solid rectangle; aligned generously off the origin.
    let x0 = -100 * FX_ONE;
    let x1 = 50 * FX_ONE;
    let y0 = 20 * FX_ONE;
    let y1 = 120 * FX_ONE;
    let level = Level::new(vec![rect_poly(x0, y0, x1, y1)], vec![spawn_trigger()]).unwrap();
    let map = CollisionMap::build(&level);
    // Points well inside are solid, points well outside are not.
    assert!(map.is_solid(0, 60 * FX_ONE));
    assert!(map.is_solid(x0 + FX_ONE, y0 + FX_ONE));
    assert!(map.is_solid(x1 - FX_ONE, y1 - FX_ONE));
    assert!(!map.is_solid(x0 - FX_ONE, 60 * FX_ONE));
    assert!(!map.is_solid(x1 + FX_ONE, 60 * FX_ONE));
    assert!(!map.is_solid(0, y0 - FX_ONE));
    assert!(!map.is_solid(0, y1 + FX_ONE));
}

#[test]
fn cell_center_round_trip_reads_the_same_bit() {
    let x0 = -100 * FX_ONE;
    let x1 = 50 * FX_ONE;
    let y0 = 20 * FX_ONE;
    let y1 = 120 * FX_ONE;
    let level = Level::new(vec![rect_poly(x0, y0, x1, y1)], vec![spawn_trigger()]).unwrap();
    let map = CollisionMap::build(&level);
    // For a lattice of cells, the occupancy at the cell's center must be
    // the rectangle's own containment verdict for that center, since
    // centers are exactly the sampled points.
    let mut row: usize = 0;
    while row < MAP_H {
        let mut col: usize = 0;
        while col < MAP_W {
            let cx = EXT_MIN_X_FX + (col as i64) * CELL_FX;
            let cy = EXT_MIN_Y_FX + (row as i64) * CELL_FX;
            let expected = x0 <= cx && cx < x1 && y0 <= cy && cy < y1;
            assert_eq!(map.is_solid(cx, cy), expected);
            col += 37;
        }
        row += 59;
    }
}

#[test]
fn map_index_inverts_rows() {
    // The world's lowest row is stored at the end of the bit vector.
    assert_eq!(
        CollisionMap::get_collider_map_index(EXT_MIN_X_FX, EXT_MIN_Y_FX),
        Some((MAP_H - 1) * MAP_W)
    );
    // One cell up in the world moves one full row back in storage.
    assert_eq!(
        CollisionMap::get_collider_map_index(EXT_MIN_X_FX, EXT_MIN_Y_FX + CELL_FX),
        Some((MAP_H - 2) * MAP_W)
    );
    assert_eq!(
        CollisionMap::get_collider_map_index(EXT_MIN_X_FX + 5 * CELL_FX, EXT_MIN_Y_FX),
        Some((MAP_H - 1) * MAP_W + 5)
    );
    assert_eq!(CollisionMap::get_collider_map_index(EXT_MAX_X_FX, 0), None);
    assert_eq!(
        CollisionMap::get_collider_map_index(EXT_MIN_X_FX - HALF_CELL_FX - 1, 0),
        None
    );
}
