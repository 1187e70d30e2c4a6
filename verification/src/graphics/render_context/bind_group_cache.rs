use crate::graphics::texture::Texture;
use crate::util::repository::{slot_generation, slot_resource, stored, Repository, ResourceId};
use std::collections::HashMap;
use vstd::prelude::*;

verus! {

broadcast use vstd::std_specs::hash::group_hash_axioms;

/// The binding object that lets a draw call sample a group of textures.
///
/// It is known by the textures it binds and by the generations that their
/// slots had when it was built: a rebuilt one is never taken for its
/// forerunner.
#[derive(Clone, Copy, Debug, PartialEq, Eq)]
pub struct TexturesBindGroup {
    pub texture_ids: [ResourceId<Texture>; 1],
    pub generations: [usize; 1],
}

/// Whether the cache holds a bind group for the texture in slot `key` that
/// was built from what the slot holds now.
pub open spec fn entry_is_valid(
    cache: Map<usize, usize>,
    textures: Seq<(Option<Texture>, usize)>,
    key: usize,
) -> bool {
    cache.contains_key(key) && cache[key] == slot_generation(textures, key as int)
}

/// The cache after the bind group for the texture in slot `key` was made
/// valid: it holds the generation that the slot has now.
pub open spec fn revalidated(
    cache: Map<usize, usize>,
    textures: Seq<(Option<Texture>, usize)>,
    key: usize,
) -> Map<usize, usize> {
    cache.insert(key, slot_generation(textures, key as int) as usize)
}

/// Bind groups for the textures that draw calls use, built when first
/// asked for and again whenever a texture was replaced since.
///
/// For each texture slot with a bind group the cache keeps the generation
/// that the slot had when the bind group was built.
pub struct BindGroupCache {
    entries: HashMap<usize, usize>,
}

impl View for BindGroupCache {
    type V = Map<usize, usize>;

    closed spec fn view(&self) -> Map<usize, usize> {
        self.entries@
    }
}

impl BindGroupCache {
    /// A cache without bind groups.
    pub fn new() -> (cache: Self)
        ensures
            cache@ == Map::<usize, usize>::empty(),
    {
        BindGroupCache { entries: HashMap::new() }
    }

    /// Ensures the bind group for the group of textures is created and
    /// valid, and says whether it had to be built for that.
    ///
    /// A bind group is built from the texture, so where one has to be built
    /// the texture must exist.
    pub fn ensure_valid(
        &mut self,
        texture_ids: [ResourceId<Texture>; 1],
        textures: &Repository<Texture>,
    ) -> (rebuilt: bool)
        requires
            !entry_is_valid(old(self)@, textures@, texture_ids[0].index) ==> textures.resource(
                texture_ids[0],
            ) is Some,
        ensures
            rebuilt == !entry_is_valid(old(self)@, textures@, texture_ids[0].index),
            final(self)@ == revalidated(old(self)@, textures@, texture_ids[0].index),
    {
        let key: usize = texture_ids[0].index;
        let actual_generation: usize = textures.get_generation(texture_ids[0]);
        let valid = match self.entries.get(&key) {
            Some(generation) => *generation == actual_generation,
            None => false,
        };
        if !valid {
            self.entries.insert(key, actual_generation);
        }
        !valid
    }

    /// Gets the bind group for the group of textures, if one was built.
    pub fn get(&self, texture_ids: [ResourceId<Texture>; 1]) -> (group: Option<TexturesBindGroup>)
        ensures
            match group {
                Some(group) => {
                    &&& self@.contains_key(texture_ids[0].index)
                    &&& group.texture_ids == texture_ids
                    &&& group.generations[0] == self@[texture_ids[0].index]
                },
                None => !self@.contains_key(texture_ids[0].index),
            },
    {
        match self.entries.get(&texture_ids[0].index) {
            Some(generation) => Some(
                TexturesBindGroup { texture_ids, generations: [*generation] },
            ),
            None => None,
        }
    }
}

/// Once made valid, the bind group of a texture is valid.
pub proof fn lemma_revalidated_is_valid(
    cache: Map<usize, usize>,
    textures: Seq<(Option<Texture>, usize)>,
    key: usize,
)
    ensures
        entry_is_valid(revalidated(cache, textures, key), textures, key),
{
}

/// Making one texture's bind group valid leaves the bind groups of the
/// other textures as they were.
pub proof fn lemma_revalidated_keeps_others(
    cache: Map<usize, usize>,
    textures: Seq<(Option<Texture>, usize)>,
    key: usize,
    other: usize,
)
    requires
        other != key,
    ensures
        revalidated(cache, textures, key).contains_key(other) == cache.contains_key(other),
        cache.contains_key(other) ==> revalidated(cache, textures, key)[other] == cache[other],
        entry_is_valid(revalidated(cache, textures, key), textures, other) == entry_is_valid(
            cache,
            textures,
            other,
        ),
{
}

/// Storing another texture in a slot shows at once in what the slot holds,
/// and makes the bind group that the cache has for the slot stale: it has
/// to be built again, and the one built then is not the one from before.
pub proof fn lemma_replaced_texture_invalidates(
    cache: Map<usize, usize>,
    textures: Seq<(Option<Texture>, usize)>,
    texture: Texture,
    id: ResourceId<Texture>,
)
    requires
        entry_is_valid(cache, textures, id.index),
        slot_generation(textures, id.index as int) < usize::MAX,
    ensures
        slot_resource(stored(textures, texture, id.index as nat), id.index as int) == Some(
            texture,
        ),
        !entry_is_valid(cache, stored(textures, texture, id.index as nat), id.index),
        revalidated(cache, stored(textures, texture, id.index as nat), id.index)[id.index]
            != cache[id.index],
{
}

/// Storing another texture in a slot changes nothing for the bind groups of
/// the textures in other slots: those that were valid stay valid, and those
/// that were stale stay stale.
pub proof fn lemma_replaced_texture_spares_others(
    cache: Map<usize, usize>,
    textures: Seq<(Option<Texture>, usize)>,
    texture: Texture,
    id: ResourceId<Texture>,
    other: usize,
)
    requires
        other != id.index,
    ensures
        entry_is_valid(cache, stored(textures, texture, id.index as nat), other)
            == entry_is_valid(cache, textures, other),
{
}

} // verus!
