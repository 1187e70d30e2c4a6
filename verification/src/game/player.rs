use crate::game::aabb::Aabb;
use crate::game::constants::{Unit, UnitVec2};
use crate::game::tiles::Tiles;
use crate::input::input_state::InputState;
use crate::input::inputs::{input_index, Input, Keyboard};
use crate::util::texture_atlas::{LazySpriteId, LazySpriteIdState};
use vstd::prelude::*;

verus! {

/// The width and the height of the player.
pub const PLAYER_SIZE: Unit = 1000;

/// What falling adds to the downward speed with every update.
pub const GRAVITY: Unit = 30;

/// Why the player could not be moved.
#[derive(Clone, Copy, Debug, PartialEq, Eq, Structural)]
pub enum PlayerError {
    /// A speed or a position would leave the range of units.
    OutOfRange,
    /// The player is in a tile without having moved into it, so that there
    /// is no way to tell where to put it.
    Stuck,
}

pub struct Player {
    /// Maximum the speed the player can reach itself via running.
    pub max_run: Unit,
    /// How fast the player accelerates when running.
    pub run_accel: Unit,
    /// When the player stops running, how fast they deccelerate.
    pub run_deccel: Unit,
    /// How strong the players jump is
    pub jump_power: Unit,
    /// How long a jump input will be registered after is has been inputted,
    /// in nanoseconds.
    ///
    /// This is so if the player "jumps" right before they touch the ground, a
    /// jump is still triggered.
    pub jump_buffering: u128,
    /// How many frames the player as before gravity starts applying.
    ///
    /// This is calculated in frames rather then in real time because it impacts
    /// game physics. The `cayote_timer` variable is updated every time `update()` is called,
    /// and when a player becomes grounded the timer is set to this `cayote_time`.
    pub cayote_time: u32,
    pub position: UnitVec2,
    pub velocity: UnitVec2,
    /// Timer for "cayote time", where the player can still jump for a period of time after walking
    /// off a ledge.
    pub cayote_timer: u32,
    /// Sprite used for the player
    pub sprite: LazySpriteId,
}

/// Whether a number is a number of units.
pub open spec fn is_unit(value: int) -> bool {
    i32::MIN <= value <= i32::MAX
}

/// The smaller of two numbers.
pub open spec fn smaller(first: int, second: int) -> int {
    if first <= second {
        first
    } else {
        second
    }
}

/// The larger of two numbers.
pub open spec fn larger(first: int, second: int) -> int {
    if first >= second {
        first
    } else {
        second
    }
}

/// The box of a player at (`x`, `y`).
pub open spec fn player_box(x: int, y: int) -> Aabb {
    Aabb {
        top_left: UnitVec2 { x: x as i32, y: y as i32 },
        dimensions: UnitVec2 { x: PLAYER_SIZE, y: PLAYER_SIZE },
    }
}

/// Whether the box of a player at (`x`, `y`) can be told in units.
pub open spec fn box_fits(x: int, y: int) -> bool {
    is_unit(x) && is_unit(y) && is_unit(x + PLAYER_SIZE) && is_unit(y + PLAYER_SIZE)
}

impl Player {
    /// What running adds to the speed to the right: `input` is 1 for
    /// right, -1 for left and 0 for neither or both. Running speeds the
    /// player up, but not beyond the greatest speed; not running slows it
    /// down, but not beyond rest.
    pub open spec fn run_change(&self, input: int) -> int {
        let speed = self.velocity.x as int;
        if input == 0 {
            if speed > 0 {
                -smaller(self.run_deccel as int, speed)
            } else if speed < 0 {
                smaller(self.run_deccel as int, -speed)
            } else {
                0
            }
        } else if input > 0 {
            smaller(self.run_accel as int, self.max_run - speed)
        } else {
            larger(-self.run_accel, -self.max_run - speed)
        }
    }

    /// Whether the player jumps: it can for as long as the timer runs.
    pub open spec fn jumps(&self, jump: bool) -> bool {
        self.cayote_timer > 0 && jump
    }

    /// The downward speed after jumping or falling.
    pub open spec fn fall_speed(&self, jump: bool) -> int {
        if self.jumps(jump) {
            -self.jump_power
        } else {
            self.velocity.y + GRAVITY
        }
    }

    /// The player after an update in which it ran to the right, to the
    /// left, or jumped, as asked for. It moves down first and then to the
    /// right, and is put next to the tile that it hits on the way.
    pub open spec fn stepped(&self, tiles: &Tiles, right: bool, left: bool, jump: bool) -> Result<
        Player,
        PlayerError,
    > {
        let input = (if right { 1int } else { 0 }) - (if left { 1int } else { 0 });
        let speed_x = self.velocity.x + self.run_change(input);
        let speed_y = self.fall_speed(jump);
        let timer: u32 = if self.jumps(jump) { 0 } else { self.cayote_timer };
        let fallen = self.position.y + speed_y;
        if !tiles.fits() || !is_unit(speed_x) || !is_unit(speed_y) || !box_fits(
            self.position.x as int,
            fallen,
        ) {
            Err(PlayerError::OutOfRange)
        } else {
            let below = tiles.collision(&player_box(self.position.x as int, fallen));
            if below is Some && speed_y == 0 {
                Err(PlayerError::Stuck)
            } else {
                let landed_y = match below {
                    Some(tile) => if speed_y < 0 {
                        tile.top_left.y + tile.dimensions.y
                    } else {
                        tile.top_left.y - PLAYER_SIZE
                    },
                    None => fallen,
                };
                let landed_timer: u32 = match below {
                    Some(tile) => if speed_y < 0 {
                        timer
                    } else {
                        self.cayote_time
                    },
                    None => if timer > 0 {
                        (timer - 1) as u32
                    } else {
                        0
                    },
                };
                let landed_speed_y = if below is Some { 0 } else { speed_y };
                let moved = self.position.x + speed_x;
                if !box_fits(moved, landed_y) {
                    Err(PlayerError::OutOfRange)
                } else {
                    let beside = tiles.collision(&player_box(moved, landed_y));
                    if beside is Some && speed_x == 0 {
                        Err(PlayerError::Stuck)
                    } else {
                        let pushed_x = match beside {
                            Some(tile) => if speed_x < 0 {
                                tile.top_left.x + tile.dimensions.x
                            } else {
                                tile.top_left.x - PLAYER_SIZE
                            },
                            None => moved,
                        };
                        if !is_unit(pushed_x) {
                            Err(PlayerError::OutOfRange)
                        } else {
                            Ok(
                                Player {
                                    position: UnitVec2 { x: pushed_x as i32, y: landed_y as i32 },
                                    velocity: UnitVec2 {
                                        x: if beside is Some { 0 } else { speed_x as i32 },
                                        y: landed_speed_y as i32,
                                    },
                                    cayote_timer: landed_timer,
                                    ..*self
                                },
                            )
                        }
                    }
                }
            }
        }
    }

    /// Whether `outcome` and `after` are what an update of `self` gives:
    /// the moved player, or else the error and the player as it was.
    pub open spec fn steps_to(
        &self,
        after: &Player,
        outcome: Result<(), PlayerError>,
        tiles: &Tiles,
        right: bool,
        left: bool,
        jump: bool,
    ) -> bool {
        match self.stepped(tiles, right, left, jump) {
            Ok(next) => outcome is Ok && *after == next,
            Err(error) => outcome == Err::<(), PlayerError>(error) && *after == *self,
        }
    }

    /// Moves the player by one update: it runs as `right` and `left` ask,
    /// jumps if `jump` asks and it still can, falls otherwise, and stops
    /// at the tiles of `tiles`.
    ///
    /// Where the player cannot be moved it stays as it is.
    pub fn step(&mut self, tiles: &Tiles, right: bool, left: bool, jump: bool) -> (outcome: Result<
        (),
        PlayerError,
    >)
        ensures
            old(self).steps_to(final(self), outcome, tiles, right, left, jump),
    {
        // Modify Velocity
        // =======================================================================
        // horizontal movement
        let horizontal_input: i64 = (if right { 1i64 } else { 0 }) - (if left { 1i64 } else { 0 });
        let speed: i64 = self.velocity.x as i64;
        let change: i64 = if horizontal_input == 0 {
            let deccel: i64 = self.run_deccel as i64;
            if speed > 0 {
                -(if deccel <= speed { deccel } else { speed })
            } else if speed < 0 {
                if deccel <= -speed { deccel } else { -speed }
            } else {
                0
            }
        } else if horizontal_input > 0 {
            let accel: i64 = self.run_accel as i64;
            let room: i64 = self.max_run as i64 - speed;
            if accel <= room { accel } else { room }
        } else {
            let accel: i64 = -(self.run_accel as i64);
            let room: i64 = -(self.max_run as i64) - speed;
            if accel >= room { accel } else { room }
        };
        let speed_x: i64 = speed + change;

        // jump or gravity
        let jumps = self.cayote_timer > 0 && jump;
        let speed_y: i64 = if jumps {
            -(self.jump_power as i64)
        } else {
            self.velocity.y as i64 + GRAVITY as i64
        };
        let timer: u32 = if jumps { 0 } else { self.cayote_timer };

        // Apply Velocity and Fix
        // =======================================================================
        let fallen: i64 = self.position.y as i64 + speed_y;
        if !tiles.is_in_range() || !fits_unit(speed_x) || !fits_unit(speed_y) || !fits_box(
            self.position.x as i64,
            fallen,
        ) {
            return Err(PlayerError::OutOfRange);
        }
        // Fix for vertical collision
        let aabb = Aabb {
            top_left: UnitVec2 { x: self.position.x, y: fallen as i32 },
            dimensions: UnitVec2 { x: PLAYER_SIZE, y: PLAYER_SIZE },
        };
        let below = tiles.check_collision(&aabb);
        let (landed_y, landed_speed_y, landed_timer): (i64, i64, u32) = match below {
            Some(tile_aabb) => {
                if speed_y < 0 {
                    (tile_aabb.top_left.y as i64 + tile_aabb.dimensions.y as i64, 0, timer)
                } else if speed_y > 0 {
                    (tile_aabb.top_left.y as i64 - PLAYER_SIZE as i64, 0, self.cayote_time)
                } else {
                    return Err(PlayerError::Stuck);
                }
            },
            None => (fallen, speed_y, if timer > 0 { timer - 1 } else { 0 }),
        };

        // apply horizontal velocity
        let moved: i64 = self.position.x as i64 + speed_x;
        if !fits_box(moved, landed_y) {
            return Err(PlayerError::OutOfRange);
        }
        // fix for horizontal collision
        let aabb = Aabb {
            top_left: UnitVec2 { x: moved as i32, y: landed_y as i32 },
            dimensions: UnitVec2 { x: PLAYER_SIZE, y: PLAYER_SIZE },
        };
        let beside = tiles.check_collision(&aabb);
        let (pushed_x, pushed_speed_x): (i64, i64) = match beside {
            Some(tile_aabb) => {
                if speed_x < 0 {
                    (tile_aabb.top_left.x as i64 + tile_aabb.dimensions.x as i64, 0)
                } else if speed_x > 0 {
                    (tile_aabb.top_left.x as i64 - PLAYER_SIZE as i64, 0)
                } else {
                    return Err(PlayerError::Stuck);
                }
            },
            None => (moved, speed_x),
        };
        if !fits_unit(pushed_x) {
            return Err(PlayerError::OutOfRange);
        }
        self.position = UnitVec2 { x: pushed_x as i32, y: landed_y as i32 };
        self.velocity = UnitVec2 { x: pushed_speed_x as i32, y: landed_speed_y as i32 };
        self.cayote_timer = landed_timer;
        Ok(())
    }

    /// Applies input to the player, as well as handles collisions with
    /// tiles: `D` runs to the right, `A` to the left, and `Space` jumps if
    /// it was pressed no longer ago than the jump is buffered.
    ///
    /// Whether the press of `Space` is still fresh is for the clock to say;
    /// a `Space` that was never pressed does not jump.
    pub fn update(&mut self, tiles: &Tiles, input_state: &InputState) -> (outcome: Result<
        (),
        PlayerError,
    >)
        ensures
            exists|jump: bool|
                {
                    &&& #[trigger] old(self).steps_to(
                        final(self),
                        outcome,
                        tiles,
                        input_state@.pressed[input_index(Input::Keyboard(Keyboard::D))],
                        input_state@.pressed[input_index(Input::Keyboard(Keyboard::A))],
                        jump,
                    )
                    &&& input_state@.press_times[input_index(Input::Keyboard(Keyboard::Space))]
                        is None ==> !jump
                },
    {
        let right = input_state.is_down(Input::Keyboard(Keyboard::D));
        let left = input_state.is_down(Input::Keyboard(Keyboard::A));
        let now: u128 = input_state.clock();
        let jump = input_state.check_within_at(
            Input::Keyboard(Keyboard::Space),
            self.jump_buffering,
            true,
            now,
        );
        self.step(tiles, right, left, jump)
    }
}

impl Default for Player {
    fn default() -> (player: Self)
        ensures
            player.max_run == 256,
            player.run_accel == 32,
            player.run_deccel == 16,
            player.jump_power == 450,
            player.jump_buffering == 100_000_000,
            player.cayote_time == 8,
            player.position == (UnitVec2 { x: 0, y: 0 }),
            player.velocity == (UnitVec2 { x: 0, y: 0 }),
            player.cayote_timer == 0,
            player.sprite.0 == LazySpriteIdState::Uncached("dummy32x32.png", Some("White")),
    {
        Self {
            max_run: 256,
            run_accel: 32,
            run_deccel: 16,
            jump_power: 450,
            jump_buffering: 100_000_000,
            cayote_time: 8,
            position: UnitVec2 { x: 0, y: 0 },
            velocity: UnitVec2 { x: 0, y: 0 },
            cayote_timer: 0,
            sprite: LazySpriteId::new("dummy32x32.png", Some("White")),
        }
    }
}

/// Whether a number is a number of units.
fn fits_unit(value: i64) -> (fits: bool)
    ensures
        fits == is_unit(value as int),
{
    -2147483648 <= value && value <= 2147483647
}

/// Whether the box of a player at (`x`, `y`) can be told in units.
fn fits_box(x: i64, y: i64) -> (fits: bool)
    requires
        -0x4000_0000_0000_0000 < x < 0x4000_0000_0000_0000,
        -0x4000_0000_0000_0000 < y < 0x4000_0000_0000_0000,
    ensures
        fits == box_fits(x as int, y as int),
{
    fits_unit(x) && fits_unit(y) && fits_unit(x + PLAYER_SIZE as i64) && fits_unit(
        y + PLAYER_SIZE as i64,
    )
}

} // verus!
