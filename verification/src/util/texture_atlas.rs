use crate::graphics::texture::TextureId;
use vstd::prelude::*;

verus! {

/// Id for accessing a sprite from a [`TextureAtlas`].
#[derive(Debug, Clone, Copy)]
pub struct SpriteId(pub usize);

/// What a [`LazySpriteId`] knows of its sprite: the name to look it up by,
/// or the id that the name was found to stand for.
#[derive(Debug, Clone, Copy)]
pub enum LazySpriteIdState {
    Uncached(&'static str, Option<&'static str>),
    Cached(SpriteId),
}

/// Id for accessing a sprite from a [`TextureAtlas`], however,
/// it's initialized with the sprite metadata rather than the raw Id.
///
/// This is typically the much easier construct to use. The name is looked
/// up once, by [`TextureAtlas::get_sprite_lazily`], and the id is kept
/// from then on.
#[derive(Debug)]
pub struct LazySpriteId(pub LazySpriteIdState);

/// Contains information on how to render a specific animation
/// from a larger texture with multiple animations bundled together.
///
/// The corner and the size of the first frame are given in texture
/// coordinates, as bits of single-precision numbers.
#[derive(Debug, Clone, Copy)]
pub struct Sprite {
    pub texture: TextureId,
    pub uv_topleft: [u32; 2],
    pub uv_dims: [u32; 2],
    pub frames: usize,
}

/// A sprite of an atlas with the name it goes by: the image it comes from
/// and, where the image holds several, its tag.
pub struct NamedSprite {
    pub sprite: Sprite,
    pub image: String,
    pub tag: Option<String>,
}

/// The name of a sprite as contracts see it.
pub type SpriteName = (Seq<char>, Option<Seq<char>>);

impl NamedSprite {
    /// The name that the sprite goes by.
    pub open spec fn name(&self) -> SpriteName {
        (
            self.image@,
            match self.tag {
                Some(tag) => Some(tag@),
                None => None,
            },
        )
    }
}

/// The name that an image and a tag make.
pub open spec fn sprite_name(image: &str, tag: Option<&str>) -> SpriteName {
    (
        image@,
        match tag {
            Some(tag) => Some(tag@),
            None => None,
        },
    )
}

/// Whether `index` is the place of the sprite that `name` stands for: the
/// last one that was added under that name.
pub open spec fn names_sprite(sprites: Seq<NamedSprite>, name: SpriteName, index: int) -> bool {
    &&& 0 <= index < sprites.len()
    &&& sprites[index].name() == name
    &&& forall|later: int| index < later < sprites.len() ==> (#[trigger] sprites[later]).name() != name
}

/// Whether no sprite goes by `name`.
pub open spec fn names_nothing(sprites: Seq<NamedSprite>, name: SpriteName) -> bool {
    forall|index: int| 0 <= index < sprites.len() ==> (#[trigger] sprites[index]).name() != name
}

/// Mapping from [`SpriteId`] to [`Sprite`].
pub struct TextureAtlas {
    sprites: Vec<NamedSprite>,
}

impl View for TextureAtlas {
    type V = Seq<NamedSprite>;

    closed spec fn view(&self) -> Seq<NamedSprite> {
        self.sprites@
    }
}

impl LazySpriteId {
    /// Constructs a new [`LazySpriteId`], which still has to be looked up.
    pub fn new(image: &'static str, tag: Option<&'static str>) -> (id: Self)
        ensures
            id.0 == LazySpriteIdState::Uncached(image, tag),
    {
        Self(LazySpriteIdState::Uncached(image, tag))
    }
}

/// Whether the text `text` is the tag `tag`, or both are missing.
fn same_tag(tag: &Option<String>, text: &Option<String>) -> (same: bool)
    ensures
        same == match (*tag, *text) {
            (Some(tag), Some(text)) => tag@ == text@,
            (None, None) => true,
            _ => false,
        },
{
    match (tag, text) {
        (Some(tag), Some(text)) => *tag == *text,
        (None, None) => true,
        _ => false,
    }
}

/// The text of a tag, if there is one.
fn owned_tag(tag: Option<&str>) -> (owned: Option<String>)
    ensures
        match (tag, owned) {
            (Some(tag), Some(owned)) => tag@ == owned@,
            (None, None) => true,
            _ => false,
        },
{
    match tag {
        Some(tag) => Some(tag.to_owned()),
        None => None,
    }
}

impl TextureAtlas {
    /// Creates a new empty [`TextureAtlas`].
    pub fn new() -> (atlas: Self)
        ensures
            atlas@.len() == 0,
    {
        Self { sprites: Vec::new() }
    }

    /// Gets a [`Sprite`] from this [`TextureAtlas`] given the [`SpriteId`],
    /// which must be one that the atlas gave out.
    pub fn get_sprite(&self, sprite_id: SpriteId) -> (sprite: &Sprite)
        requires
            sprite_id.0 < self@.len(),
        ensures
            *sprite == self@[sprite_id.0 as int].sprite,
    {
        &self.sprites[sprite_id.0].sprite
    }

    /// Gets a [`SpriteId`] given proper identification: the id of the
    /// sprite that was last added under that name.
    pub fn get_sprite_id(&self, image: &str, tag: Option<&str>) -> (found: Option<SpriteId>)
        ensures
            match found {
                Some(id) => names_sprite(self@, sprite_name(image, tag), id.0 as int),
                None => names_nothing(self@, sprite_name(image, tag)),
            },
    {
        let image_text = image.to_owned();
        let tag_text = owned_tag(tag);
        let mut index: usize = self.sprites.len();
        while index > 0
            invariant
                index <= self.sprites.len(),
                image_text@ == image@,
                match (tag, tag_text) {
                    (Some(tag), Some(owned)) => tag@ == owned@,
                    (None, None) => true,
                    _ => false,
                },
                forall|later: int|
                    index <= later < self@.len() ==> (#[trigger] self@[later]).name() != sprite_name(
                        image,
                        tag,
                    ),
            decreases index,
        {
            index = index - 1;
            let entry = &self.sprites[index];
            if entry.image == image_text && same_tag(&entry.tag, &tag_text) {
                return Some(SpriteId(index));
            }
        }
        None
    }

    /// Gets a [`Sprite`] from this [`TextureAtlas`] given a
    /// [`LazySpriteId`]. An id that still has to be looked up is looked
    /// up, and keeps what was found.
    ///
    /// The id must name a sprite of this atlas.
    pub fn get_sprite_lazily(&self, lazy_sprite_id: &mut LazySpriteId) -> (sprite: &Sprite)
        requires
            match old(lazy_sprite_id).0 {
                LazySpriteIdState::Uncached(image, tag) => !names_nothing(
                    self@,
                    sprite_name(image, tag),
                ),
                LazySpriteIdState::Cached(id) => id.0 < self@.len(),
            },
        ensures
            final(lazy_sprite_id).0 matches LazySpriteIdState::Cached(id) && id.0 < self@.len()
                && *sprite == self@[id.0 as int].sprite && match old(lazy_sprite_id).0 {
                LazySpriteIdState::Uncached(image, tag) => names_sprite(
                    self@,
                    sprite_name(image, tag),
                    id.0 as int,
                ),
                LazySpriteIdState::Cached(before) => id == before,
            },
    {
        let sprite_id = match lazy_sprite_id.0 {
            LazySpriteIdState::Uncached(image, tag) => {
                let sprite_id = match self.get_sprite_id(image, tag) {
                    Some(sprite_id) => sprite_id,
                    None => SpriteId(0),
                };
                lazy_sprite_id.0 = LazySpriteIdState::Cached(sprite_id);
                sprite_id
            },
            LazySpriteIdState::Cached(sprite_id) => sprite_id,
        };
        self.get_sprite(sprite_id)
    }

    /// Adds a [`Sprite`] to this [`TextureAtlas`], and returns its
    /// [`SpriteId`]. From now on the name stands for this sprite.
    pub fn add_sprite(&mut self, sprite: Sprite, image: &str, tag: Option<&str>) -> (id: SpriteId)
        ensures
            id.0 == old(self)@.len(),
            final(self)@.len() == old(self)@.len() + 1,
            final(self)@.drop_last() == old(self)@,
            final(self)@.last().sprite == sprite,
            final(self)@.last().name() == sprite_name(image, tag),
            names_sprite(final(self)@, sprite_name(image, tag), id.0 as int),
    {
        let index: usize = self.sprites.len();
        self.sprites.push(NamedSprite { sprite, image: image.to_owned(), tag: owned_tag(tag) });
        SpriteId(index)
    }
}

impl Sprite {
    /// The frame of the animation that is shown at the count `frame`: the
    /// frames follow each other and start over after the last.
    pub fn frame_in_cycle(&self, frame: usize) -> (shown: usize)
        requires
            self.frames > 0,
        ensures
            shown == frame % self.frames,
            shown < self.frames,
    {
        frame % self.frames
    }
}

/// Where a frame of an animation lies in the image of a sprite sheet, in
/// texels.
#[derive(Debug, Clone, Copy, PartialEq, Eq, Structural)]
pub struct Frame {
    pub x: usize,
    pub y: usize,
    pub w: usize,
    pub h: usize,
}

/// An animation of a sprite sheet: its name, if it has one, and the first
/// and the last of its frames.
#[derive(Debug)]
pub struct Tag {
    pub name: Option<String>,
    pub from: usize,
    pub to: usize,
}

/// What a sprite sheet says of one sprite: where its first frame lies, how
/// many frames it has, and the tag it goes by.
#[derive(Debug)]
pub struct SpriteCut {
    pub first_frame: Frame,
    pub frames: usize,
    pub tag: Option<String>,
}

/// Whether two tags read the same, or are both missing.
pub open spec fn same_text(first: Option<String>, second: Option<String>) -> bool {
    match (first, second) {
        (Some(first), Some(second)) => first@ == second@,
        (None, None) => true,
        _ => false,
    }
}

/// Whether a tag names frames that a sheet of `frames` frames has: its
/// first frame exists, and its last frame does not come before the frame
/// before its first.
pub open spec fn tag_fits(tag: Tag, frames: nat) -> bool {
    &&& tag.from < frames
    &&& tag.to < usize::MAX
    &&& tag.to + 1 >= tag.from
}

/// Whether every tag names frames that the sheet has; a sheet without tags
/// must have a frame.
pub open spec fn sheet_fits(frames: Seq<Frame>, tags: Seq<Tag>) -> bool {
    if tags.len() == 0 {
        frames.len() > 0
    } else {
        forall|i: int| 0 <= i < tags.len() ==> tag_fits(#[trigger] tags[i], frames.len())
    }
}

/// Whether `cut` is the sprite that `tag` cuts out of `frames`.
pub open spec fn cuts_out(cut: SpriteCut, frames: Seq<Frame>, tag: Tag) -> bool {
    &&& cut.first_frame == frames[tag.from as int]
    &&& cut.frames == tag.to + 1 - tag.from
    &&& same_text(cut.tag, tag.name)
}

/// A copy of a tag.
fn copy_tag(tag: &Option<String>) -> (copy: Option<String>)
    ensures
        same_text(copy, *tag),
{
    match tag {
        Some(text) => Some(text.clone()),
        None => None,
    }
}

/// The sprites of a sprite sheet whose animations are marked by tags and
/// lie in rows: one sprite for each tag, in the order of the tags. A sheet
/// without tags is one sprite without a name, made of all frames.
///
/// There are no sprites where the sheet has no frame to start from, or
/// where a tag names frames that the sheet does not have.
pub fn cut_sprites(frames: &[Frame], tags: &[Tag]) -> (cuts: Option<Vec<SpriteCut>>)
    ensures
        cuts is Some == sheet_fits(frames@, tags@),
        cuts matches Some(cuts) ==> if tags@.len() == 0 {
            &&& cuts@.len() == 1
            &&& cuts@[0].first_frame == frames@[0]
            &&& cuts@[0].frames == frames@.len()
            &&& cuts@[0].tag is None
        } else {
            &&& cuts@.len() == tags@.len()
            &&& forall|i: int|
                0 <= i < tags@.len() ==> cuts_out(#[trigger] cuts@[i], frames@, tags@[i])
        },
{
    let mut cuts: Vec<SpriteCut> = Vec::new();
    if tags.len() == 0 {
        if frames.len() == 0 {
            return None;
        }
        cuts.push(SpriteCut { first_frame: frames[0], frames: frames.len(), tag: None });
        return Some(cuts);
    }
    let mut done: usize = 0;
    while done < tags.len()
        invariant
            done <= tags.len(),
            tags@.len() > 0,
            cuts@.len() == done,
            forall|i: int| 0 <= i < done ==> tag_fits(#[trigger] tags@[i], frames@.len()),
            forall|i: int| 0 <= i < done ==> cuts_out(#[trigger] cuts@[i], frames@, tags@[i]),
        decreases tags.len() - done,
    {
        let tag = &tags[done];
        if tag.from >= frames.len() || tag.to == usize::MAX || tag.to + 1 < tag.from {
            return None;
        }
        let first_frame = frames[tag.from];
        let frames_in_tag: usize = tag.to + 1 - tag.from;
        cuts.push(SpriteCut { first_frame, frames: frames_in_tag, tag: copy_tag(&tag.name) });
        done = done + 1;
    }
    Some(cuts)
}

} // verus!
