/// Axis-aligned boxes and their collisions.
pub mod aabb;
/// The units in which the game measures.
pub mod constants;
/// The player and how it moves.
pub mod player;
/// The tile map and collisions with it.
pub mod tiles;

pub use aabb::Aabb;
pub use player::Player;
pub use tiles::Tiles;
