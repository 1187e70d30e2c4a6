use crate::util::repository::ResourceId;
use vstd::prelude::*;

verus! {

/// How the texels of a texture are laid out.
#[derive(Clone, Copy, Debug, PartialEq, Eq, Hash, Structural)]
pub enum TextureFormat {
    /// Red, green, blue and alpha, 8 bits each, colors in sRGB.
    Rgba8UnormSrgb,
    /// One 32-bit depth value for each texel.
    Depth32Float,
}

/// An image on the graphics device, with a view to sample it through.
#[derive(Debug, Hash)]
pub struct Texture {
    pub width: u32,
    pub height: u32,
    pub format: TextureFormat,
    /// Whether shaders may sample the texture.
    pub sampled: bool,
    /// Whether a render pass may draw into the texture.
    pub render_target: bool,
    /// The texels that the texture starts with, row by row; none for a
    /// texture that starts empty.
    pub pixels: Vec<u8>,
}

/// Id for accessing a texture resource.
pub type TextureId = ResourceId<Texture>;

/// Why the bytes of an image could not be made into a texture.
#[derive(Debug)]
pub struct DecodeError {
    pub message: String,
}

/// The error of the `image` crate, `image::ImageError`. Nothing is read
/// of it but its text.
#[verifier::external_type_specification]
#[verifier::external_body]
pub struct ExImageError(image::ImageError);

/// What the `image` crate makes of an encoded image: its width, its height
/// and its texels as RGBA with 8 bits a channel; or nothing, where the bytes
/// are no image that it reads.
pub uninterp spec fn decoded_image(bytes: Seq<u8>) -> Option<(u32, u32, Seq<u8>)>;

/// Calls `image::load_from_memory`, and on the image that comes back `width`,
/// `height` and `to_rgba8`, whose buffer `into_raw` hands over. The contract
/// names the outcome [`decoded_image`] and claims that the buffer holds four
/// bytes for each texel.
#[verifier::external_body]
fn decode_rgba8(bytes: &[u8]) -> (decoded: Result<(u32, u32, Vec<u8>), image::ImageError>)
    ensures
        match decoded {
            Ok((width, height, pixels)) => {
                &&& decoded_image(bytes@) == Some((width, height, pixels@))
                &&& pixels@.len() == 4 * width * height
            },
            Err(_) => decoded_image(bytes@) is None,
        },
{
    let image = image::load_from_memory(bytes)?;
    Ok((image.width(), image.height(), image.to_rgba8().into_raw()))
}

/// Renders an `image::ImageError` as text, as its `Display` impl words it.
#[verifier::external_body]
fn describe(error: &image::ImageError) -> (message: String) {
    format!("{}", error)
}

impl Texture {
    /// A texture for drawing materials from: `width` by `height` texels
    /// given as RGBA bytes.
    pub open spec fn is_rgba8(&self, width: u32, height: u32, pixels: Seq<u8>) -> bool {
        &&& self.width == width
        &&& self.height == height
        &&& self.format == TextureFormat::Rgba8UnormSrgb
        &&& self.sampled
        &&& !self.render_target
        &&& self.pixels@ == pixels
    }

    /// A depth buffer of `width` by `height` texels.
    pub open spec fn is_depth(&self, width: u32, height: u32) -> bool {
        &&& self.width == width
        &&& self.height == height
        &&& self.format == TextureFormat::Depth32Float
        &&& self.sampled
        &&& self.render_target
        &&& self.pixels@.len() == 0
    }

    /// The texture that samples the RGBA texels `pixels`.
    pub fn from_rgba8(width: u32, height: u32, pixels: Vec<u8>) -> (texture: Texture)
        ensures
            texture.is_rgba8(width, height, pixels@),
    {
        Texture {
            width,
            height,
            format: TextureFormat::Rgba8UnormSrgb,
            sampled: true,
            render_target: false,
            pixels,
        }
    }

    /// Decodes an encoded image into a texture to draw materials from.
    ///
    /// Bytes that are no image give a [`DecodeError`].
    pub fn load(bytes: &[u8]) -> (loaded: Result<Texture, DecodeError>)
        ensures
            match decoded_image(bytes@) {
                Some((width, height, pixels)) => {
                    &&& loaded matches Ok(texture)
                    &&& texture.is_rgba8(width, height, pixels)
                    &&& pixels.len() == 4 * width * height
                },
                None => loaded is Err,
            },
    {
        match decode_rgba8(bytes) {
            Ok((width, height, pixels)) => Ok(Texture::from_rgba8(width, height, pixels)),
            Err(error) => Err(DecodeError { message: describe(&error) }),
        }
    }

    /// The depth buffer for a surface of `width` by `height` texels.
    pub fn create_depth_texture(width: u32, height: u32) -> (texture: Texture)
        ensures
            texture.is_depth(width, height),
    {
        Texture {
            width,
            height,
            format: TextureFormat::Depth32Float,
            sampled: true,
            render_target: true,
            pixels: Vec::new(),
        }
    }
}

} // verus!
