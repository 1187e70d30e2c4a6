use clockwork::graphics::TextureId;
use clockwork::util::texture_atlas::{
    cut_sprites, Frame, LazySpriteId, LazySpriteIdState, Sprite, Tag, TextureAtlas,
};

fn sprite(texture: usize, frames: usize) -> Sprite {
    Sprite {
        texture: TextureId::new(texture),
        uv_topleft: [0.0f32.to_bits(), 0.5f32.to_bits()],
        uv_dims: [0.25f32.to_bits(), 0.5f32.to_bits()],
        frames,
    }
}

#[test]
fn sprites_are_found_by_image_and_tag() {
    let mut atlas = TextureAtlas::new();
    let walk = atlas.add_sprite(sprite(0, 4), "dummy32x32.png", Some("White"));
    let idle = atlas.add_sprite(sprite(0, 2), "dummy32x32.png", Some("Black"));
    let block = atlas.add_sprite(sprite(1, 1), "block.png", None);
    assert_eq!((walk.0, idle.0, block.0), (0, 1, 2));
    assert_eq!(atlas.get_sprite_id("dummy32x32.png", Some("White")).unwrap().0, 0);
    assert_eq!(atlas.get_sprite_id("dummy32x32.png", Some("Black")).unwrap().0, 1);
    assert_eq!(atlas.get_sprite_id("block.png", None).unwrap().0, 2);
    assert!(atlas.get_sprite_id("block.png", Some("White")).is_none());
    assert!(atlas.get_sprite_id("dummy32x32.png", None).is_none());
    assert!(atlas.get_sprite_id("other.png", None).is_none());
    assert_eq!(atlas.get_sprite(idle).frames, 2);
    assert_eq!(atlas.get_sprite(block).texture.index, 1);
}

#[test]
fn a_name_stands_for_the_sprite_that_was_added_last() {
    let mut atlas = TextureAtlas::new();
    atlas.add_sprite(sprite(0, 4), "block.png", None);
    atlas.add_sprite(sprite(0, 2), "tree.png", None);
    let newer = atlas.add_sprite(sprite(5, 9), "block.png", None);
    assert_eq!(atlas.get_sprite_id("block.png", None).unwrap().0, newer.0);
    assert_eq!(atlas.get_sprite(newer).frames, 9);
    assert_eq!(atlas.get_sprite_id("tree.png", None).unwrap().0, 1);
}

#[test]
fn a_lazy_id_is_looked_up_once() {
    let mut atlas = TextureAtlas::new();
    atlas.add_sprite(sprite(0, 4), "dummy32x32.png", Some("White"));
    atlas.add_sprite(sprite(3, 2), "block.png", None);
    let mut lazy = LazySpriteId::new("block.png", None);
    assert!(matches!(lazy.0, LazySpriteIdState::Uncached("block.png", None)));
    assert_eq!(atlas.get_sprite_lazily(&mut lazy).texture.index, 3);
    assert!(matches!(lazy.0, LazySpriteIdState::Cached(id) if id.0 == 1));
    // A sprite that takes the name later does not change what was found.
    atlas.add_sprite(sprite(8, 1), "block.png", None);
    assert_eq!(atlas.get_sprite_lazily(&mut lazy).texture.index, 3);
    let mut fresh = LazySpriteId::new("block.png", None);
    assert_eq!(atlas.get_sprite_lazily(&mut fresh).texture.index, 8);
}

#[test]
fn the_frames_of_an_animation_start_over() {
    let walk = sprite(0, 4);
    assert_eq!(walk.frame_in_cycle(0), 0);
    assert_eq!(walk.frame_in_cycle(3), 3);
    assert_eq!(walk.frame_in_cycle(4), 0);
    assert_eq!(walk.frame_in_cycle(10), 2);
    assert_eq!(sprite(0, 1).frame_in_cycle(77), 0);
}

fn frames() -> Vec<Frame> {
    (0..6).map(|place| Frame { x: 32 * place, y: 0, w: 32, h: 32 }).collect()
}

fn tag(name: Option<&str>, from: usize, to: usize) -> Tag {
    Tag { name: name.map(|name| name.to_string()), from, to }
}

#[test]
fn a_sheet_without_tags_is_one_sprite() {
    let cuts = cut_sprites(&frames(), &[]).unwrap();
    assert_eq!(cuts.len(), 1);
    assert_eq!(cuts[0].first_frame, Frame { x: 0, y: 0, w: 32, h: 32 });
    assert_eq!(cuts[0].frames, 6);
    assert_eq!(cuts[0].tag, None);
}

#[test]
fn every_tag_is_a_sprite() {
    let tags = [tag(Some("White"), 0, 3), tag(Some("Black"), 4, 5), tag(None, 2, 2)];
    let cuts = cut_sprites(&frames(), &tags).unwrap();
    assert_eq!(cuts.len(), 3);
    assert_eq!(cuts[0].first_frame, Frame { x: 0, y: 0, w: 32, h: 32 });
    assert_eq!(cuts[0].frames, 4);
    assert_eq!(cuts[0].tag.as_deref(), Some("White"));
    assert_eq!(cuts[1].first_frame, Frame { x: 128, y: 0, w: 32, h: 32 });
    assert_eq!(cuts[1].frames, 2);
    assert_eq!(cuts[1].tag.as_deref(), Some("Black"));
    assert_eq!(cuts[2].first_frame, Frame { x: 64, y: 0, w: 32, h: 32 });
    assert_eq!(cuts[2].frames, 1);
    assert_eq!(cuts[2].tag, None);
}

#[test]
fn a_sheet_that_does_not_fit_has_no_sprites() {
    assert!(cut_sprites(&[], &[]).is_none());
    assert!(cut_sprites(&frames(), &[tag(None, 6, 6)]).is_none());
    assert!(cut_sprites(&frames(), &[tag(None, 0, 1), tag(None, 4, 2)]).is_none());
    assert!(cut_sprites(&frames(), &[tag(None, 0, usize::MAX)]).is_none());
    // A tag may end right before it starts: a sprite without frames.
    let cuts = cut_sprites(&frames(), &[tag(None, 3, 2)]).unwrap();
    assert_eq!(cuts[0].frames, 0);
    // A tag may reach beyond the frames: only its first frame is read.
    assert_eq!(cut_sprites(&frames(), &[tag(None, 5, 9)]).unwrap()[0].frames, 5);
}
