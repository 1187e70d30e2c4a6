use clockwork::graphics::render_context::RenderContext;
use clockwork::graphics::texture::TextureFormat;
use clockwork::graphics::Texture;

/// A PNG of 2 by 2 texels: red, green, blue, and white that is half see-through.
const RGBA_PNG: [u8; 76] = [
    137, 80, 78, 71, 13, 10, 26, 10, 0, 0, 0, 13, 73, 72, 68, 82, 0, 0, 0, 2, 0, 0, 0, 2, 8, 6, 0,
    0, 0, 114, 182, 13, 36, 0, 0, 0, 19, 73, 68, 65, 84, 120, 218, 99, 248, 207, 192, 240, 31, 12,
    129, 52, 8, 52, 0, 0, 73, 73, 9, 120, 156, 81, 23, 146, 0, 0, 0, 0, 73, 69, 78, 68, 174, 66,
    96, 130,
];

/// A PNG of 3 by 1 texels in shades of gray: black, middle gray, white.
const GRAY_PNG: [u8; 69] = [
    137, 80, 78, 71, 13, 10, 26, 10, 0, 0, 0, 13, 73, 72, 68, 82, 0, 0, 0, 3, 0, 0, 0, 1, 8, 0, 0,
    0, 0, 62, 139, 75, 104, 0, 0, 0, 12, 73, 68, 65, 84, 120, 218, 99, 96, 104, 248, 15, 0, 2, 3,
    1, 128, 26, 156, 38, 59, 0, 0, 0, 0, 73, 69, 78, 68, 174, 66, 96, 130,
];

#[test]
fn a_png_is_decoded_into_rgba_texels() {
    let texture = Texture::load(&RGBA_PNG).unwrap();
    assert_eq!((texture.width, texture.height), (2, 2));
    assert_eq!(texture.format, TextureFormat::Rgba8UnormSrgb);
    assert!(texture.sampled);
    assert!(!texture.render_target);
    assert_eq!(
        texture.pixels,
        vec![255, 0, 0, 255, 0, 255, 0, 255, 0, 0, 255, 255, 255, 255, 255, 128]
    );
}

#[test]
fn gray_texels_become_rgba() {
    let texture = Texture::load(&GRAY_PNG).unwrap();
    assert_eq!((texture.width, texture.height), (3, 1));
    assert_eq!(texture.pixels, vec![0, 0, 0, 255, 128, 128, 128, 255, 255, 255, 255, 255]);
    assert_eq!(texture.pixels.len(), 4 * 3 * 1);
}

#[test]
fn bytes_that_are_no_image_give_a_decode_error() {
    let error = Texture::load(b"this is no image").unwrap_err();
    assert!(!error.message.is_empty());
    assert!(Texture::load(&[]).is_err());
}

#[test]
fn a_cut_off_png_gives_a_decode_error() {
    assert!(Texture::load(&RGBA_PNG[..40]).is_err());
}

#[test]
fn a_failed_load_registers_nothing() {
    let mut context = RenderContext::new(8, 8);
    let first = context.load_texture(&RGBA_PNG).unwrap();
    assert_eq!(first.index, 0);
    assert_eq!(context.textures().len(), 1);
    assert!(context.load_texture(b"garbage").is_err());
    assert_eq!(context.textures().len(), 1);
    assert_eq!(context.textures().get_generation(first), 1);
    let second = context.load_texture(&GRAY_PNG).unwrap();
    assert_eq!(second.index, 1);
    assert_eq!(context.textures().len(), 2);
    assert_eq!(context.textures()[second].width, 3);
    assert_eq!(context.textures()[first].pixels.len(), 16);
}

#[test]
fn a_depth_texture_has_no_texels_to_start_with() {
    let depth = Texture::create_depth_texture(800, 600);
    assert_eq!((depth.width, depth.height), (800, 600));
    assert_eq!(depth.format, TextureFormat::Depth32Float);
    assert!(depth.sampled);
    assert!(depth.render_target);
    assert!(depth.pixels.is_empty());
}

#[test]
fn a_texture_from_texels_keeps_them() {
    let texture = Texture::from_rgba8(1, 2, vec![1, 2, 3, 4, 5, 6, 7, 8]);
    assert_eq!((texture.width, texture.height), (1, 2));
    assert_eq!(texture.pixels, vec![1, 2, 3, 4, 5, 6, 7, 8]);
    assert_eq!(texture.format, TextureFormat::Rgba8UnormSrgb);
}
