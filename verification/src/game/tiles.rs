use crate::game::aabb::Aabb;
use crate::game::constants::{clamped, toward_zero, UnitVec2, UNITS_PER_TILE};
use crate::util::texture_atlas::LazySpriteId;
use vstd::prelude::*;

verus! {

/// The number of rows of the tile map.
pub const ROWS: i32 = 15;

/// The number of columns of the tile map.
pub const COLS: i32 = 20;

/// A map of square tiles, 20 wide and 15 high. A tile other than 0 is
/// solid.
pub struct Tiles {
    /// The top left corner of the map.
    pub position: UnitVec2,
    /// The tiles, row by row.
    pub map: [[u32; 20]; 15],
    pub sprite: LazySpriteId,
}

impl Tiles {
    /// Whether the far corner of the map can be told in units.
    pub open spec fn fits(&self) -> bool {
        &&& self.position.x + COLS * UNITS_PER_TILE <= i32::MAX
        &&& self.position.y + ROWS * UNITS_PER_TILE <= i32::MAX
    }

    /// Whether the far corner of the map can be told in units.
    pub fn is_in_range(&self) -> (fits: bool)
        ensures
            fits == self.fits(),
    {
        self.position.x <= i32::MAX - COLS * UNITS_PER_TILE && self.position.y <= i32::MAX - ROWS
            * UNITS_PER_TILE
    }

    /// The box that the map covers.
    pub open spec fn bounds(&self) -> Aabb {
        Aabb {
            top_left: self.position,
            dimensions: UnitVec2 {
                x: (COLS * UNITS_PER_TILE) as i32,
                y: (ROWS * UNITS_PER_TILE) as i32,
            },
        }
    }

    /// The column of the tile under the x coordinate `x`, as if the map
    /// went on for ever.
    pub open spec fn column_of(&self, x: int) -> int {
        toward_zero(x - self.position.x, UNITS_PER_TILE as int)
    }

    /// The row of the tile under the y coordinate `y`, as if the map went
    /// on for ever.
    pub open spec fn row_of(&self, y: int) -> int {
        toward_zero(y - self.position.y, UNITS_PER_TILE as int)
    }

    /// The box of the tile in the column `column` and the row `row`.
    pub open spec fn tile_box(&self, column: int, row: int) -> Aabb {
        Aabb {
            top_left: UnitVec2 {
                x: (self.position.x + column * UNITS_PER_TILE) as i32,
                y: (self.position.y + row * UNITS_PER_TILE) as i32,
            },
            dimensions: UnitVec2 { x: UNITS_PER_TILE, y: UNITS_PER_TILE },
        }
    }

    /// Whether the tile in the column `column` and the row `row` is solid.
    pub open spec fn solid(&self, column: int, row: int) -> bool {
        self.map[row][column] != 0
    }

    /// The first and the last column that a box reaches, within the map.
    pub open spec fn columns_of(&self, other: &Aabb) -> (int, int) {
        (
            clamped(self.column_of(other.top_left.x as int), 0, COLS - 1),
            clamped(
                self.column_of(other.top_left.x + other.dimensions.x - 1),
                0,
                COLS - 1,
            ),
        )
    }

    /// The first and the last row that a box reaches, within the map.
    pub open spec fn rows_of(&self, other: &Aabb) -> (int, int) {
        (
            clamped(self.row_of(other.top_left.y as int), 0, ROWS - 1),
            clamped(self.row_of(other.top_left.y + other.dimensions.y - 1), 0, ROWS - 1),
        )
    }

    /// Whether the tile at (`column`, `row`) is among the tiles that a box
    /// reaches.
    pub open spec fn reaches(&self, other: &Aabb, column: int, row: int) -> bool {
        &&& self.columns_of(other).0 <= column <= self.columns_of(other).1
        &&& self.rows_of(other).0 <= row <= self.rows_of(other).1
    }

    /// Whether the tile at (`column`, `row`) is the solid tile that a box
    /// hits first: the tiles are tried column by column, and from the top
    /// down in each column.
    pub open spec fn hits_first(&self, other: &Aabb, column: int, row: int) -> bool {
        &&& self.reaches(other, column, row)
        &&& self.solid(column, row)
        &&& forall|c: int, r: int|
            self.reaches(other, c, r) && (c < column || (c == column && r < row)) ==> !#[trigger] self.solid(
                c,
                r,
            )
    }

    /// The top left corners of the solid tiles among the first `count`
    /// tiles, counted row by row and from the left in each row.
    pub open spec fn solid_among(&self, count: nat) -> Seq<UnitVec2>
        decreases count,
    {
        if count == 0 {
            Seq::empty()
        } else {
            let place = (count - 1) as int;
            let earlier = self.solid_among((count - 1) as nat);
            if self.solid(place % (COLS as int), place / (COLS as int)) {
                earlier.push(self.tile_box(place % (COLS as int), place / (COLS as int)).top_left)
            } else {
                earlier
            }
        }
    }

    /// The top left corners of all solid tiles, row by row and from the
    /// left in each row: where the tiles are drawn.
    pub fn solid_tile_positions(&self) -> (positions: Vec<UnitVec2>)
        requires
            self.fits(),
        ensures
            positions@ == self.solid_among((ROWS * COLS) as nat),
    {
        let mut positions: Vec<UnitVec2> = Vec::new();
        let mut place: i32 = 0;
        while place < ROWS * COLS
            invariant
                self.fits(),
                0 <= place <= ROWS * COLS,
                positions@ == self.solid_among(place as nat),
            decreases ROWS * COLS - place,
        {
            let tile_x: i32 = place % COLS;
            let tile_y: i32 = place / COLS;
            if self.map[tile_y as usize][tile_x as usize] != 0 {
                positions.push(
                    UnitVec2 {
                        x: self.position.x + tile_x * UNITS_PER_TILE,
                        y: self.position.y + tile_y * UNITS_PER_TILE,
                    },
                );
            }
            place = place + 1;
        }
        positions
    }

    /// The first solid tile among the columns `columns` and the rows `rows`
    /// that comes at or after the tile (`column`, `row`): the tiles are
    /// tried column by column, and from the top down in each column.
    pub open spec fn first_solid_from(
        &self,
        columns: (int, int),
        rows: (int, int),
        column: int,
        row: int,
    ) -> Option<(int, int)>
        decreases columns.1 + 1 - column, rows.1 + 1 - row,
    {
        if column > columns.1 || row < rows.0 {
            None
        } else if row > rows.1 {
            self.first_solid_from(columns, rows, column + 1, rows.0)
        } else if self.solid(column, row) {
            Some((column, row))
        } else {
            self.first_solid_from(columns, rows, column, row + 1)
        }
    }

    /// The tile that a box collides with: none where the box does not
    /// overlap the map, and else the first solid tile among those that the
    /// box reaches.
    pub open spec fn collision(&self, other: &Aabb) -> Option<Aabb> {
        if !self.bounds().overlaps(other) {
            None
        } else {
            match self.first_solid_from(
                self.columns_of(other),
                self.rows_of(other),
                self.columns_of(other).0,
                self.rows_of(other).0,
            ) {
                Some((column, row)) => Some(self.tile_box(column, row)),
                None => None,
            }
        }
    }

    /// The tile under `position`, as if the map went on for ever.
    pub fn get_tile_coordinates(&self, position: UnitVec2) -> (tile: UnitVec2)
        ensures
            tile.x == self.column_of(position.x as int),
            tile.y == self.row_of(position.y as int),
    {
        let relative_x: i64 = position.x as i64 - self.position.x as i64;
        let relative_y: i64 = position.y as i64 - self.position.y as i64;
        UnitVec2 {
            x: (relative_x / (UNITS_PER_TILE as i64)) as i32,
            y: (relative_y / (UNITS_PER_TILE as i64)) as i32,
        }
    }

    /// Returns the box of the tile that was collided with if there was a
    /// collision, otherwise `None`.
    ///
    /// A box that does not overlap the map collides with nothing. One that
    /// does collides with the first solid tile among those it reaches.
    pub fn check_collision(&self, other: &Aabb) -> (hit: Option<Aabb>)
        requires
            self.fits(),
            other.fits(),
        ensures
            hit == self.collision(other),
    {
        // Do a prelimnary check to see if a collision with this tilemap should even occur.
        let aabb = Aabb {
            top_left: self.position,
            dimensions: UnitVec2 { x: COLS * UNITS_PER_TILE, y: ROWS * UNITS_PER_TILE },
        };
        if !aabb.collides_with(other) {
            return None;
        }
        // Do the tile collision check.
        let first = clamp_tile(self.get_tile_coordinates(other.top_left()));
        let corner = other.bottom_right();
        let last = clamp_tile(
            self.get_tile_coordinates(UnitVec2 { x: corner.x - 1, y: corner.y - 1 }),
        );
        let ghost columns = self.columns_of(other);
        let ghost rows = self.rows_of(other);
        let mut tile_x: i32 = first.x;
        while tile_x <= last.x
            invariant
                self.fits(),
                self.bounds().overlaps(other),
                columns == self.columns_of(other),
                rows == self.rows_of(other),
                0 <= first.x <= tile_x,
                0 <= last.x < COLS,
                0 <= first.y < ROWS,
                0 <= last.y < ROWS,
                columns == (first.x as int, last.x as int),
                rows == (first.y as int, last.y as int),
                self.first_solid_from(columns, rows, first.x as int, first.y as int)
                    == self.first_solid_from(columns, rows, tile_x as int, first.y as int),
            decreases last.x + 1 - tile_x,
        {
            let mut tile_y: i32 = first.y;
            while tile_y <= last.y
                invariant
                    self.fits(),
                    self.bounds().overlaps(other),
                    columns == self.columns_of(other),
                    rows == self.rows_of(other),
                    0 <= first.x <= tile_x <= last.x < COLS,
                    0 <= first.y <= tile_y,
                    0 <= last.y < ROWS,
                    columns == (first.x as int, last.x as int),
                    rows == (first.y as int, last.y as int),
                    self.first_solid_from(columns, rows, first.x as int, first.y as int)
                        == self.first_solid_from(columns, rows, tile_x as int, tile_y as int),
                decreases last.y + 1 - tile_y,
            {
                if self.map[tile_y as usize][tile_x as usize] != 0 {
                    let tile = Aabb {
                        top_left: UnitVec2 {
                            x: self.position.x + tile_x * UNITS_PER_TILE,
                            y: self.position.y + tile_y * UNITS_PER_TILE,
                        },
                        dimensions: UnitVec2 { x: UNITS_PER_TILE, y: UNITS_PER_TILE },
                    };
                    return Some(tile);
                }
                tile_y = tile_y + 1;
            }
            tile_x = tile_x + 1;
        }
        None
    }
}

/// What the first solid tile from a tile on is: a solid tile of the
/// columns and rows at or after that tile, with no solid tile between the
/// two; and where there is none, no tile at or after that tile is solid.
pub proof fn lemma_first_solid_from(
    tiles: &Tiles,
    columns: (int, int),
    rows: (int, int),
    column: int,
    row: int,
)
    requires
        rows.0 <= row,
    ensures
        match tiles.first_solid_from(columns, rows, column, row) {
            Some((x, y)) => {
                &&& column <= x <= columns.1
                &&& rows.0 <= y <= rows.1
                &&& x > column || y >= row
                &&& tiles.solid(x, y)
                &&& forall|c: int, r: int|
                    rows.0 <= r <= rows.1 && (c > column || (c == column && r >= row)) && (c < x
                        || (c == x && r < y)) ==> !#[trigger] tiles.solid(c, r)
            },
            None => forall|c: int, r: int|
                c <= columns.1 && rows.0 <= r <= rows.1 && (c > column || (c == column && r
                    >= row)) ==> !#[trigger] tiles.solid(c, r),
        },
    decreases columns.1 + 1 - column, rows.1 + 1 - row,
{
    if column > columns.1 {
    } else if row > rows.1 {
        lemma_first_solid_from(tiles, columns, rows, column + 1, rows.0);
    } else if tiles.solid(column, row) {
    } else {
        lemma_first_solid_from(tiles, columns, rows, column, row + 1);
    }
}

/// A box collides with the solid tile that it hits first, and with
/// nothing where it does not overlap the map or reaches no solid tile.
pub proof fn lemma_collision_hits_first(tiles: &Tiles, other: &Aabb)
    ensures
        match tiles.collision(other) {
            Some(tile) => exists|column: int, row: int|
                {
                    &&& tiles.bounds().overlaps(other)
                    &&& #[trigger] tiles.hits_first(other, column, row)
                    &&& tile == tiles.tile_box(column, row)
                },
            None => !tiles.bounds().overlaps(other) || forall|column: int, row: int|
                tiles.reaches(other, column, row) ==> !#[trigger] tiles.solid(column, row),
        },
{
    let columns = tiles.columns_of(other);
    let rows = tiles.rows_of(other);
    lemma_first_solid_from(tiles, columns, rows, columns.0, rows.0);
    if tiles.bounds().overlaps(other) {
        match tiles.first_solid_from(columns, rows, columns.0, rows.0) {
            Some((x, y)) => {
                assert(tiles.hits_first(other, x, y));
            },
            None => {},
        }
    }
}

/// The tile of the map that is nearest to `tile`.
fn clamp_tile(tile: UnitVec2) -> (inside: UnitVec2)
    ensures
        inside.x == clamped(tile.x as int, 0, COLS - 1),
        inside.y == clamped(tile.y as int, 0, ROWS - 1),
{
    UnitVec2 {
        x: if tile.x < 0 {
            0
        } else if tile.x > COLS - 1 {
            COLS - 1
        } else {
            tile.x
        },
        y: if tile.y < 0 {
            0
        } else if tile.y > ROWS - 1 {
            ROWS - 1
        } else {
            tile.y
        },
    }
}

} // verus!
