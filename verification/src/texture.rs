//! Textures from PNG files: the file is decoded to RGBA pixels by the
//! `image` crate, and the pixels are accepted for upload only when they
//! fill the image exactly, row by row.
use vstd::prelude::*;

verus! {

/// What the `image` crate decodes a PNG file to: its width, its height and
/// its RGBA pixels (four bytes each) row by row, or `None` for bytes it
/// cannot decode as a PNG image.
pub uninterp spec fn png_rgba(bytes: Seq<u8>) -> Option<(u32, u32, Seq<u8>)>;

/// `image::load_from_memory_with_format` for a PNG file, converted to RGBA
/// with `DynamicImage::to_rgba8`; the contract names its result and says
/// nothing of it beyond that name.
#[verifier::external_body]
fn decode_png(bytes: &[u8]) -> (decoded: Option<(u32, u32, Vec<u8>)>)
    ensures
        match decoded {
            Some(d) => png_rgba(bytes@) == Some((d.0, d.1, d.2@)),
            None => png_rgba(bytes@) is None,
        },
{
    match image::load_from_memory_with_format(bytes, image::ImageFormat::Png) {
        Ok(image) => {
            let rgba = image.to_rgba8();
            let (width, height) = rgba.dimensions();
            Some((width, height, rgba.into_raw()))
        },
        Err(_) => None,
    }
}

/// An image ready to be written to a texture: `pixels` holds
/// `bytes_per_row` bytes for each of its `height` rows.
pub struct TextureImage {
    pub width: u32,
    pub height: u32,
    pub bytes_per_row: u32,
    pub pixels: Vec<u8>,
}

/// The upload that decoded pixels give: none for nothing decoded, for a
/// row too long to count in 32 bits, or for pixels that do not fill the
/// image exactly; otherwise width, height, four bytes per pixel of a row,
/// and the pixels.
pub open spec fn spec_texture_image(decoded: Option<(u32, u32, Seq<u8>)>) -> Option<
    (u32, u32, u32, Seq<u8>),
> {
    match decoded {
        Some((width, height, pixels)) => if 4 * width <= u32::MAX && pixels.len() == 4 * width
            * height {
            Some((width, height, (4 * width) as u32, pixels))
        } else {
            None
        },
        None => None,
    }
}

/// The upload that decoded pixels give.
pub fn texture_image(decoded: Option<(u32, u32, Vec<u8>)>) -> (image: Option<TextureImage>)
    ensures
        match image {
            Some(t) => spec_texture_image(
                match decoded {
                    Some(d) => Some((d.0, d.1, d.2@)),
                    None => None,
                },
            ) == Some((t.width, t.height, t.bytes_per_row, t.pixels@)),
            None => spec_texture_image(
                match decoded {
                    Some(d) => Some((d.0, d.1, d.2@)),
                    None => None,
                },
            ) is None,
        },
{
    match decoded {
        Some((width, height, pixels)) => {
            let row = 4 * (width as u64);
            if row > u32::MAX as u64 {
                return None;
            }
            let wide_row = row as u128;
            let wide_height = height as u128;
            assert(wide_row * wide_height <= 0x4_0000_0000u128 * 0x1_0000_0000u128)
                by (nonlinear_arith)
                requires
                    wide_row <= 0x4_0000_0000u128,
                    wide_height <= 0x1_0000_0000u128,
            ;
            let needed: u128 = wide_row * wide_height;
            if pixels.len() as u128 != needed {
                return None;
            }
            Some(TextureImage { width, height, bytes_per_row: row as u32, pixels })
        },
        None => None,
    }
}

/// The upload for the bytes of a PNG file: the file decoded, then checked
/// to fill its image.
pub fn load_texture(bytes: &[u8]) -> (image: Option<TextureImage>)
    ensures
        match image {
            Some(t) => spec_texture_image(png_rgba(bytes@)) == Some(
                (t.width, t.height, t.bytes_per_row, t.pixels@),
            ),
            None => spec_texture_image(png_rgba(bytes@)) is None,
        },
{
    texture_image(decode_png(bytes))
}

/// The stand-in for a texture that a look does not use: one opaque black
/// pixel.
pub fn blank_texture() -> (image: TextureImage)
    ensures
        image.width == 1,
        image.height == 1,
        image.bytes_per_row == 4,
        image.pixels@ == seq![0u8, 0u8, 0u8, 255u8],
{
    TextureImage { width: 1, height: 1, bytes_per_row: 4, pixels: vec![0, 0, 0, 255] }
}

} // verus!
