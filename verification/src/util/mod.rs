/// Slot stores that hand out stable identifiers.
pub mod repository;
/// Sprites by name: which part of which texture shows them.
pub mod texture_atlas;
