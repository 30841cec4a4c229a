//! Decoding of the tile set, a PNG image, into the RGBA bytes of a texture.
use vstd::prelude::*;

verus! {

/// Width and height, in pixels, of the tile set texture.
pub const TILESET_SIZE: u32 = 1024;

/// What the `image` crate makes of the bytes `png` read as a PNG file: its
/// width, height and RGBA pixels (four bytes each, the top row first and
/// each row from left to right), or `None`
/// where it cannot decode them.
pub uninterp spec fn png_rgba8(png: Seq<u8>) -> Option<(u32, u32, Seq<u8>)>;

/// An image decoded to 8-bit RGBA pixels.
pub struct DecodedImage {
    pub width: u32,
    pub height: u32,
    pub rgba: Vec<u8>,
}

/// Why the tile set could not be loaded.
#[derive(Clone, Copy, Debug, PartialEq, Eq)]
pub enum TextureError {
    /// The bytes are not a PNG image that the decoder can read.
    Undecodable,
}

/// Calls `image::load_from_memory_with_format(png, ImageFormat::PNG)`, then
/// `DynamicImage::to_rgba` and `ImageBuffer::into_raw` on the result.
/// Claimed: the result is the named decoding of `png`, `None` exactly where
/// the decoder returns an error; the pixel buffer holds width times height
/// times four bytes, which is how `ImageBuffer::new` sizes the buffer that
/// `to_rgba` fills.
#[verifier::external_body]
fn decode_png(png: &[u8]) -> (res: Option<DecodedImage>)
    ensures
        match res {
            None => png_rgba8(png@) is None,
            Some(d) => png_rgba8(png@) == Some((d.width, d.height, d.rgba@))
                && d.rgba@.len() == d.width * d.height * 4,
        },
{
    match image::load_from_memory_with_format(png, image::ImageFormat::PNG) {
        Ok(img) => {
            let rgba = img.to_rgba();
            let (width, height) = rgba.dimensions();
            Some(DecodedImage { width, height, rgba: rgba.into_raw() })
        },
        Err(_) => None,
    }
}

/// The pixel bytes of a decoded tile set, or the error of a failed decoding.
pub fn tileset_pixels(decoded: Option<DecodedImage>) -> (res: Result<Vec<u8>, TextureError>)
    ensures
        match decoded {
            None => res == Err::<Vec<u8>, TextureError>(TextureError::Undecodable),
            Some(d) => res matches Ok(v) && v@ == d.rgba@,
        },
{
    match decoded {
        None => Err(TextureError::Undecodable),
        Some(d) => Ok(d.rgba),
    }
}

/// Decodes the tile set from the bytes of a PNG file into its RGBA pixel bytes.
pub fn load_tileset(png: &[u8]) -> (res: Result<Vec<u8>, TextureError>)
    ensures
        match png_rgba8(png@) {
            None => res == Err::<Vec<u8>, TextureError>(TextureError::Undecodable),
            Some(d) => res matches Ok(v) && v@ == d.2 && v@.len() == d.0 * d.1 * 4,
        },
{
    let decoded = decode_png(png);
    tileset_pixels(decoded)
}

} // verus!
