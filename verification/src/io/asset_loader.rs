//! Defines asset-loading: turning a loaded byte stream into a [`Bitmap`],
//! and the errors that may occur on the way.
//!
//! Reading bytes from a path is a front end's job; everything from the raw
//! bytes to the finished bitmap is handled here.

use vstd::prelude::*;

use crate::render::bitmap::colors_of_rgba;
use crate::render::bitmap::Bitmap;
use crate::render::bitmap::Rgb;

verus! {

/// A collection of possible errors that may occur during asset-loading.
#[derive(Debug)]
pub enum LoadError {
    /// Occurs when the requested resource cannot be found at the specified
    /// path.
    ResourceNotFound(String),
    /// Occurs when the error is specific to the implementation.
    OtherError(String),
}

/// This loader serves assets from local files: the surrounding front end
/// reads the file at a path and hands the bytes to
/// [`load_bitmap_from_bytes`].
pub struct LocalAssetLoader {}

impl LocalAssetLoader {
    /// Constructs a local asset loader.
    pub fn create() -> LocalAssetLoader {
        LocalAssetLoader {  }
    }
}

/// What decoding an in-memory byte stream as a PNG yields: the width, the
/// height, and the tightly packed RGBA pixel bytes, or no value when the
/// bytes do not decode. With the format fixed to PNG the decoder reads no
/// state besides the bytes, so the result depends on them alone.
pub uninterp spec fn decoded_rgba_of(bytes: Seq<u8>) -> Option<(u32, u32, Seq<u8>)>;

/// Relies on image::load_from_memory_with_format with the PNG format,
/// image::DynamicImage::into_rgba8, and image::ImageBuffer's dimensions and
/// into_raw: with a built-in format given outright, no format guessing and
/// no registered hook is ever consulted, so decoding a byte stream held
/// wholly in memory is deterministic, and the RGBA buffer a successful
/// decode yields is tightly packed, four bytes per pixel.
#[verifier::external_body]
fn decode_image(bytes: &Vec<u8>) -> (result: Result<(u32, u32, Vec<u8>), image::ImageError>)
    ensures
        match result {
            Ok((width, height, pixels)) => decoded_rgba_of(bytes@) == Some(
                (width, height, pixels@),
            ) && pixels@.len() == width * height * 4,
            Err(_) => decoded_rgba_of(bytes@) is None,
        },
{
    match image::load_from_memory_with_format(bytes, image::ImageFormat::Png) {
        Err(error) => Err(error),
        Ok(decoded) => {
            let rgba = decoded.into_rgba8();
            let (width, height) = rgba.dimensions();
            Ok((width, height, rgba.into_raw()))
        },
    }
}

#[verifier::external_type_specification]
#[verifier::external_body]
/// The error type of the image crate's decoders.
pub struct ExImageError(image::ImageError);

/// Relies on image::ImageError's Display implementation for a human-readable
/// message.
#[verifier::external_body]
fn image_error_text(error: &image::ImageError) -> String {
    error.to_string()
}

/// Decodes a PNG byte stream into a [`Bitmap`]: one color per pixel, in
/// row order, the alpha channel dropped. Returns [`LoadError::OtherError`]
/// exactly when the bytes do not decode.
pub fn load_bitmap_from_bytes(bytes: &Vec<u8>) -> (result: Result<Bitmap, LoadError>)
    ensures
        match decoded_rgba_of(bytes@) {
            Some(decoded) => {
                &&& result matches Ok(bitmap)
                &&& bitmap.spec_width() == decoded.0 as usize
                &&& bitmap.spec_height() == decoded.1 as usize
                &&& bitmap.spec_colors() == colors_of_rgba(decoded.2)
                &&& bitmap.wf()
            },
            None => result matches Err(error) && error is OtherError,
        },
{
    let decoded = match decode_image(bytes) {
        Err(error) => return Err(LoadError::OtherError(image_error_text(&error))),
        Ok(decoded) => decoded,
    };
    let (width, height, pixels) = decoded;

    let pixel_count: usize = pixels.len() / 4;
    let mut colors: Vec<Rgb> = Vec::new();
    let mut j: usize = 0;
    proof {
        assert(4 * (pixels@.len() / 4) <= pixels@.len()) by (nonlinear_arith);
    }
    while j < pixel_count
        invariant
            j <= pixel_count,
            pixel_count == pixels@.len() / 4,
            4 * pixel_count <= pixels@.len() <= usize::MAX,
            colors@.len() == j,
            forall|k: int| 0 <= k < j ==> colors@[k] == colors_of_rgba(pixels@)[k],
        decreases pixel_count - j,
    {
        let base: usize = 4 * j;
        let color = Rgb::new(pixels[base], pixels[base + 1], pixels[base + 2]);
        colors.push(color);
        j += 1;
    }
    proof {
        assert(colors@ =~= colors_of_rgba(pixels@));
        assert(pixels@.len() / 4 == width * height) by (nonlinear_arith)
            requires
                pixels@.len() == width * height * 4,
        ;
    }

    Ok(Bitmap::new(width as usize, height as usize, colors))
}

} // verus!
