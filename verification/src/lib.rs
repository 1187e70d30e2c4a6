//! # clockwork
//!
//! The verified core of a small game engine: resource repositories with
//! generation tracking, the planning of a frame's draw commands, input state
//! and the tile rules of the sample game.

/// The rules of the sample game: boxes, tiles and their collisions.
pub mod game;
/// Rendering: meshes, textures and the commands of a frame.
pub mod graphics;
/// Keyboard input, mouse input, and etc.
pub mod input;
/// Repositories, sprite atlases and other helpers.
pub mod util;
