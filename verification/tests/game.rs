use clockwork::game::constants::{to_tile_units, UnitVec2};
use clockwork::game::{Aabb, Tiles};
use clockwork::util::texture_atlas::LazySpriteId;

fn level() -> Tiles {
    Tiles {
        position: UnitVec2 { x: 1000 * -8, y: 1000 * -5 },
        map: [
            [1, 0, 0, 1, 0, 0, 0, 0, 0, 0, 0, 0, 0, 0, 0, 0, 1, 0, 0, 1],
            [1, 0, 0, 0, 0, 0, 0, 0, 0, 0, 0, 0, 0, 0, 0, 0, 0, 0, 0, 1],
            [1, 0, 0, 0, 0, 0, 0, 0, 0, 0, 0, 0, 0, 0, 0, 0, 0, 0, 0, 1],
            [1, 0, 0, 0, 0, 1, 0, 0, 0, 0, 0, 0, 0, 0, 0, 0, 0, 0, 0, 1],
            [1, 0, 0, 0, 0, 0, 0, 0, 0, 0, 1, 0, 0, 0, 0, 0, 0, 0, 0, 1],
            [1, 0, 0, 0, 0, 0, 0, 0, 0, 0, 0, 0, 0, 0, 1, 0, 0, 0, 0, 1],
            [1, 0, 0, 0, 0, 0, 0, 0, 0, 0, 0, 0, 0, 0, 0, 0, 0, 0, 0, 1],
            [1, 0, 0, 0, 0, 0, 0, 0, 0, 0, 0, 0, 0, 0, 0, 0, 0, 0, 0, 1],
            [1, 0, 0, 0, 0, 0, 0, 0, 0, 0, 0, 0, 0, 0, 0, 0, 0, 1, 1, 1],
            [1, 0, 0, 0, 0, 0, 0, 0, 0, 0, 0, 0, 0, 0, 0, 0, 0, 0, 0, 1],
            [1, 0, 0, 0, 0, 1, 1, 1, 1, 1, 1, 0, 0, 0, 0, 1, 0, 0, 0, 1],
            [1, 0, 0, 0, 0, 0, 0, 0, 0, 0, 0, 1, 0, 0, 1, 1, 0, 0, 0, 1],
            [1, 0, 0, 1, 1, 0, 0, 0, 0, 0, 0, 0, 1, 1, 1, 1, 0, 0, 1, 1],
            [1, 0, 0, 0, 0, 0, 0, 0, 0, 0, 0, 0, 0, 0, 0, 0, 1, 1, 0, 1],
            [1, 1, 1, 1, 1, 1, 1, 1, 1, 1, 1, 1, 1, 1, 1, 1, 1, 1, 1, 1],
        ],
        sprite: LazySpriteId::new("block.png", None),
    }
}

fn block(x: i32, y: i32, w: i32, h: i32) -> Aabb {
    Aabb { top_left: UnitVec2 { x, y }, dimensions: UnitVec2 { x: w, y: h } }
}

#[test]
fn the_corners_and_sides_of_a_box() {
    let aabb = block(10, 20, 30, 40);
    assert_eq!(aabb.width(), 30);
    assert_eq!(aabb.height(), 40);
    assert_eq!(aabb.top_left(), UnitVec2 { x: 10, y: 20 });
    assert_eq!(aabb.top_right(), UnitVec2 { x: 40, y: 20 });
    assert_eq!(aabb.bottom_left(), UnitVec2 { x: 10, y: 60 });
    assert_eq!(aabb.bottom_right(), UnitVec2 { x: 40, y: 60 });
    assert_eq!(aabb.x_left(), 10);
    assert_eq!(aabb.x_right(), 40);
    assert_eq!(aabb.y_top(), 20);
    assert_eq!(aabb.y_bottom(), 60);
}

#[test]
fn boxes_that_touch_do_not_collide() {
    let aabb = block(0, 0, 10, 10);
    assert!(aabb.collides_with(&block(5, 5, 10, 10)));
    assert!(block(5, 5, 10, 10).collides_with(&aabb));
    assert!(aabb.collides_with(&block(9, 9, 1, 1)));
    assert!(!aabb.collides_with(&block(10, 0, 10, 10)));
    assert!(!aabb.collides_with(&block(0, 10, 10, 10)));
    assert!(!aabb.collides_with(&block(-10, 0, 10, 10)));
    assert!(!aabb.collides_with(&block(20, 20, 5, 5)));
    assert!(aabb.collides_with(&block(2, 2, 3, 3)));
}

#[test]
fn tile_units_round_toward_zero() {
    assert_eq!(to_tile_units(0), 0);
    assert_eq!(to_tile_units(999), 0);
    assert_eq!(to_tile_units(1000), 1);
    assert_eq!(to_tile_units(2500), 2);
    assert_eq!(to_tile_units(-999), 0);
    assert_eq!(to_tile_units(-1000), -1);
    assert_eq!(to_tile_units(-2500), -2);
}

#[test]
fn the_tile_under_a_position() {
    let tiles = level();
    assert_eq!(tiles.get_tile_coordinates(UnitVec2 { x: -8000, y: -5000 }), UnitVec2 { x: 0, y: 0 });
    assert_eq!(tiles.get_tile_coordinates(UnitVec2 { x: -7001, y: -4001 }), UnitVec2 { x: 0, y: 0 });
    assert_eq!(tiles.get_tile_coordinates(UnitVec2 { x: 0, y: 0 }), UnitVec2 { x: 8, y: 5 });
    assert_eq!(tiles.get_tile_coordinates(UnitVec2 { x: 11999, y: 9999 }), UnitVec2 { x: 19, y: 14 });
    // Left of the map the division rounds toward the map.
    assert_eq!(tiles.get_tile_coordinates(UnitVec2 { x: -8500, y: -5500 }), UnitVec2 { x: 0, y: 0 });
    assert_eq!(tiles.get_tile_coordinates(UnitVec2 { x: -9000, y: -7000 }), UnitVec2 { x: -1, y: -2 });
    assert_eq!(
        tiles.get_tile_coordinates(UnitVec2 { x: i32::MAX, y: i32::MIN }),
        UnitVec2 { x: 2147491, y: -2147478 }
    );
}

#[test]
fn a_box_in_free_space_hits_nothing() {
    let tiles = level();
    // The tile in column 8 and row 5 and its neighbors are free.
    assert_eq!(tiles.check_collision(&block(0, 0, 1000, 1000)), None);
    assert_eq!(tiles.check_collision(&block(0, 0, 2000, 1000)), None);
}

#[test]
fn a_box_outside_the_map_hits_nothing() {
    let tiles = level();
    assert_eq!(tiles.check_collision(&block(-20000, 0, 1000, 1000)), None);
    assert_eq!(tiles.check_collision(&block(12000, 0, 1000, 1000)), None);
    assert_eq!(tiles.check_collision(&block(0, 10000, 1000, 1000)), None);
    // One that only touches the map from the left.
    assert_eq!(tiles.check_collision(&block(-9000, 0, 1000, 1000)), None);
}

#[test]
fn a_box_on_a_solid_tile_hits_that_tile() {
    let tiles = level();
    // Column 10, row 4 is solid.
    let hit = tiles.check_collision(&block(2200, -1000, 500, 500)).unwrap();
    assert_eq!(hit, block(2000, -1000, 1000, 1000));
    // Falling onto the floor: row 14.
    let hit = tiles.check_collision(&block(0, 8500, 1000, 1000)).unwrap();
    assert_eq!(hit, block(0, 9000, 1000, 1000));
    // The left wall: column 0.
    let hit = tiles.check_collision(&block(-7500, 0, 1000, 1000)).unwrap();
    assert_eq!(hit, block(-8000, 0, 1000, 1000));
}

#[test]
fn a_box_that_ends_at_a_tile_does_not_hit_it() {
    let tiles = level();
    // The box ends exactly where the solid tile of column 10, row 4 begins.
    assert_eq!(tiles.check_collision(&block(1000, -1000, 1000, 1000)), None);
    assert_eq!(
        tiles.check_collision(&block(1001, -1000, 1000, 1000)),
        Some(block(2000, -1000, 1000, 1000))
    );
}

#[test]
fn of_several_solid_tiles_the_first_column_wins_and_then_the_upper_row() {
    let tiles = level();
    // Columns 17 to 19 in rows 7 to 8: solid are (17, 8), (18, 8), (19, 7), (19, 8).
    let hit = tiles.check_collision(&block(9000, 2000, 3000, 2000)).unwrap();
    assert_eq!(hit, block(9000, 3000, 1000, 1000));
    // Columns 18 to 19 in rows 7 to 8: the first column holds (18, 8).
    let hit = tiles.check_collision(&block(10000, 2000, 2000, 2000)).unwrap();
    assert_eq!(hit, block(10000, 3000, 1000, 1000));
    // Column 19 alone in rows 7 to 8: the upper row wins.
    let hit = tiles.check_collision(&block(11000, 2000, 1000, 2000)).unwrap();
    assert_eq!(hit, block(11000, 2000, 1000, 1000));
}

#[test]
fn a_box_larger_than_the_map_hits_its_first_tile() {
    let tiles = level();
    let hit = tiles.check_collision(&block(-100000, -100000, 200000, 200000)).unwrap();
    assert_eq!(hit, block(-8000, -5000, 1000, 1000));
}

#[test]
fn the_solid_tiles_row_by_row() {
    let mut tiles = level();
    tiles.map = [[0; 20]; 15];
    assert_eq!(tiles.solid_tile_positions(), vec![]);
    tiles.map[0][3] = 1;
    tiles.map[0][1] = 7;
    tiles.map[2][0] = 1;
    tiles.map[14][19] = 2;
    assert_eq!(
        tiles.solid_tile_positions(),
        vec![
            UnitVec2 { x: -7000, y: -5000 },
            UnitVec2 { x: -5000, y: -5000 },
            UnitVec2 { x: -8000, y: -3000 },
            UnitVec2 { x: 11000, y: 9000 },
        ]
    );
    let whole = level().solid_tile_positions();
    assert_eq!(whole.len(), 74);
    assert_eq!(whole[0], UnitVec2 { x: -8000, y: -5000 });
    assert_eq!(whole[73], UnitVec2 { x: 11000, y: 9000 });
}
