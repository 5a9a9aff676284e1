//! The boundary to the image codec: decoding, encoding and resampling.

use vstd::prelude::*;
use crate::format::is_jpeg;
use crate::format::is_png;
use crate::format::is_webp;
use crate::grid::grid_fits;

verus! {

/// What an encoder returned, as plain values: the bytes, or the codec's
/// message.
pub open spec fn outcome_view(outcome: Result<Vec<u8>, String>) -> Result<Seq<u8>, Seq<char>> {
    match outcome {
        Ok(bytes) => Ok(bytes@),
        Err(message) => Err(message@),
    }
}

/// What the codec returned for a decoded buffer, as plain values: width,
/// height, whether the image has an alpha channel, and the interleaved RGBA
/// samples; or the codec's message.
pub open spec fn decoded_view(decoded: Result<(u32, u32, bool, Vec<u8>), String>) -> Result<
    (u32, u32, bool, Seq<u8>),
    Seq<char>,
> {
    match decoded {
        Ok((width, height, alpha, samples)) => Ok((width, height, alpha, samples@)),
        Err(message) => Err(message@),
    }
}

/// What the WebP decoder makes of a buffer: width, height, whether the
/// image has an alpha channel, and its pixels as interleaved RGBA samples;
/// or the decoder's message.
pub uninterp spec fn webp_decoding(bytes: Seq<u8>) -> Result<(u32, u32, bool, Seq<u8>), Seq<char>>;

/// What the JPEG encoder makes of an image of interleaved RGBA samples at a
/// quality: the bytes of the file, or the encoder's message.
pub uninterp spec fn jpeg_encoding(
    width: u32,
    height: u32,
    samples: Seq<u8>,
    quality: u8,
) -> Result<Seq<u8>, Seq<char>>;

/// What the PNG encoder makes of an image of interleaved samples: RGBA
/// samples where `alpha` is set, RGB samples where it is not.
pub uninterp spec fn png_encoding(
    width: u32,
    height: u32,
    alpha: bool,
    samples: Seq<u8>,
) -> Result<Seq<u8>, Seq<char>>;

/// What the lossless WebP encoder makes of an image of interleaved RGBA
/// samples.
pub uninterp spec fn webp_encoding(
    width: u32,
    height: u32,
    samples: Seq<u8>,
) -> Result<Seq<u8>, Seq<char>>;

/// The interleaved RGBA samples of an image resized to a new width and
/// height with the triangle filter.
pub uninterp spec fn triangle_resample(
    width: u32,
    height: u32,
    samples: Seq<u8>,
    new_width: u32,
    new_height: u32,
) -> Seq<u8>;

/// Largest width or height that is resampled. The filter computes the
/// position of each pixel in single-precision floats and gives no side up to
/// which that is safe. Up to this side the rounding error of a position
/// stays below a hundredth of a pixel, so that every pixel of the result has
/// a source pixel of positive weight. On sides of many millions the error
/// exceeds a pixel, and weights that all round to zero, on whose sum the
/// filter panics, are no longer excluded.
pub const MAX_RESAMPLE_DIM: u32 = 65_535;

/// Largest width or height of a JPEG image.
pub const JPEG_MAX_SIDE: u32 = 65_535;

/// Largest width or height of a lossless WebP image.
pub const WEBP_MAX_SIDE: u32 = 16_384;

/// Whether JPEG holds an image of this size: each side from 1 to 65 535.
pub open spec fn jpeg_holds(width: nat, height: nat) -> bool {
    1 <= width <= JPEG_MAX_SIDE && 1 <= height <= JPEG_MAX_SIDE
}

/// Whether PNG holds an image of this size: no side is 0.
pub open spec fn png_holds(width: nat, height: nat) -> bool {
    width >= 1 && height >= 1
}

/// Whether lossless WebP holds an image of this size: each side from 1 to
/// 16 384.
pub open spec fn webp_holds(width: nat, height: nat) -> bool {
    1 <= width <= WEBP_MAX_SIDE && 1 <= height <= WEBP_MAX_SIDE
}

/// Whether an image can be resampled to a new size: no side is longer than
/// 65 535 pixels, which keeps the filter's arithmetic on positions within a
/// hundredth of a pixel; the new size is not empty; and the intermediate
/// image of sixteen bytes per pixel and the result fit in an allocation.
pub open spec fn resample_fits(width: nat, height: nat, new_width: nat, new_height: nat) -> bool {
    &&& width <= MAX_RESAMPLE_DIM && height <= MAX_RESAMPLE_DIM
    &&& 1 <= new_width <= MAX_RESAMPLE_DIM && 1 <= new_height <= MAX_RESAMPLE_DIM
    &&& 16 * (width * new_height) <= usize::MAX / 2
    &&& 16 * (new_width * new_height) <= usize::MAX / 2
}

/// Decodes a buffer with `image::load_from_memory`, which guesses the
/// format, and converts the image to RGBA8: width, height, whether the
/// decoded image has an alpha channel, and the interleaved samples; or the
/// codec's message. Nothing is claimed of the outcome: the codec also
/// consults the format hooks registered in the process.
#[verifier::external_body]
pub(crate) fn decode_rgba(buffer: &[u8]) -> (decoded: Result<(u32, u32, bool, Vec<u8>), String>) {
    match image::load_from_memory(buffer) {
        Ok(img) => {
            let alpha = img.color().has_alpha();
            let rgba = img.to_rgba8();
            Ok((rgba.width(), rgba.height(), alpha, rgba.into_raw()))
        },
        Err(e) => Err(e.to_string()),
    }
}

/// Decodes a buffer as WebP with `image::load_from_memory_with_format` and
/// converts the image to RGBA8, as above. With the format given the codec
/// consults no hook, and the outcome depends on the bytes alone.
#[verifier::external_body]
pub(crate) fn decode_webp_rgba(buffer: &[u8]) -> (decoded: Result<(u32, u32, bool, Vec<u8>), String>)
    ensures
        decoded_view(decoded) == webp_decoding(buffer@),
{
    match image::load_from_memory_with_format(buffer, image::ImageFormat::WebP) {
        Ok(img) => {
            let alpha = img.color().has_alpha();
            let rgba = img.to_rgba8();
            Ok((rgba.width(), rgba.height(), alpha, rgba.into_raw()))
        },
        Err(e) => Err(e.to_string()),
    }
}

/// Encodes RGBA samples with `image::codecs::jpeg::JpegEncoder::encode_image`
/// at the given quality, into a vector. The sample count must match the
/// size and the size must be one that can be held, or the call would panic:
/// the image view is refused where the length of a row overflows, even for
/// an image without rows. The outcome is the encoder's, which
/// depends on the arguments alone. The encoder refuses a side of 0 or above
/// 65 535 and fails on nothing else but its writer, and a vector takes every
/// write. A successful outcome starts with the markers `FF D8` and `FF E0`
/// and a JFIF segment of sixteen bytes.
#[verifier::external_body]
pub(crate) fn encode_jpeg(
    width: u32,
    height: u32,
    samples: &Vec<u8>,
    quality: u8,
) -> (encoded: Result<Vec<u8>, String>)
    requires
        samples@.len() == width * height * 4,
        grid_fits(width as nat, height as nat),
    ensures
        outcome_view(encoded) == jpeg_encoding(width, height, samples@, quality),
        encoded is Ok <==> jpeg_holds(width as nat, height as nat),
        encoded matches Ok(bytes) ==> bytes@.len() >= 12 && is_jpeg(bytes@),
{
    let pixels = samples.as_slice();
    let img = image::ImageBuffer::<image::Rgba<u8>, &[u8]>::from_raw(width, height, pixels).unwrap();
    let mut out: Vec<u8> = Vec::new();
    let done = image::codecs::jpeg::JpegEncoder::new_with_quality(&mut out, quality).encode_image(&img);
    match done {
        Ok(()) => Ok(out),
        Err(e) => Err(e.to_string()),
    }
}

/// Encodes RGB samples with `image::codecs::png::PngEncoder::write_image`,
/// into a vector. The sample count must match the size and the size must
/// be one that can be held, or the call could panic on the length of a row.
/// The outcome depends on the arguments alone. The encoder refuses a side
/// of 0 and fails on nothing else but its writer, and a vector takes every
/// write. A successful outcome starts with the eight bytes of the PNG
/// signature and a header chunk.
#[verifier::external_body]
pub(crate) fn encode_png_rgb(
    width: u32,
    height: u32,
    samples: &Vec<u8>,
) -> (encoded: Result<Vec<u8>, String>)
    requires
        samples@.len() == width * height * 3,
        grid_fits(width as nat, height as nat),
    ensures
        outcome_view(encoded) == png_encoding(width, height, false, samples@),
        encoded is Ok <==> png_holds(width as nat, height as nat),
        encoded matches Ok(bytes) ==> bytes@.len() >= 12 && is_png(bytes@),
{
    let mut out: Vec<u8> = Vec::new();
    let encoder = image::codecs::png::PngEncoder::new(&mut out);
    let color = image::ExtendedColorType::Rgb8;
    match image::ImageEncoder::write_image(encoder, samples.as_slice(), width, height, color) {
        Ok(()) => Ok(out),
        Err(e) => Err(e.to_string()),
    }
}

/// Encodes RGBA samples with `image::codecs::png::PngEncoder::write_image`,
/// into a vector. The sample count must match the size and the size must
/// be one that can be held, or the call could panic on the length of a row.
/// The outcome depends on the arguments alone. The encoder refuses a side
/// of 0 and fails on nothing else but its writer, and a vector takes every
/// write. A successful outcome starts with the eight bytes of the PNG
/// signature and a header chunk.
#[verifier::external_body]
pub(crate) fn encode_png_rgba(
    width: u32,
    height: u32,
    samples: &Vec<u8>,
) -> (encoded: Result<Vec<u8>, String>)
    requires
        samples@.len() == width * height * 4,
        grid_fits(width as nat, height as nat),
    ensures
        outcome_view(encoded) == png_encoding(width, height, true, samples@),
        encoded is Ok <==> png_holds(width as nat, height as nat),
        encoded matches Ok(bytes) ==> bytes@.len() >= 12 && is_png(bytes@),
{
    let mut out: Vec<u8> = Vec::new();
    let encoder = image::codecs::png::PngEncoder::new(&mut out);
    let color = image::ExtendedColorType::Rgba8;
    match image::ImageEncoder::write_image(encoder, samples.as_slice(), width, height, color) {
        Ok(()) => Ok(out),
        Err(e) => Err(e.to_string()),
    }
}

/// Encodes RGBA samples with `image::codecs::webp::WebPEncoder::encode`,
/// lossless, into a vector. The sample count must match the size, or the
/// call would panic; the size is one that can be held, as that of every
/// grid is. The outcome depends on the arguments alone. The encoder refuses
/// a side of 0 or above 16 384 and fails on nothing else but its writer,
/// and a vector takes every write. A successful outcome starts with `RIFF`,
/// four length bytes and `WEBP`.
#[verifier::external_body]
pub(crate) fn encode_webp(
    width: u32,
    height: u32,
    samples: &Vec<u8>,
) -> (encoded: Result<Vec<u8>, String>)
    requires
        samples@.len() == width * height * 4,
        grid_fits(width as nat, height as nat),
    ensures
        outcome_view(encoded) == webp_encoding(width, height, samples@),
        encoded is Ok <==> webp_holds(width as nat, height as nat),
        encoded matches Ok(bytes) ==> is_webp(bytes@),
{
    let mut out: Vec<u8> = Vec::new();
    let encoder = image::codecs::webp::WebPEncoder::new_lossless(&mut out);
    match encoder.encode(samples.as_slice(), width, height, image::ExtendedColorType::Rgba8) {
        Ok(()) => Ok(out),
        Err(e) => Err(e.to_string()),
    }
}

/// Resizes RGBA samples with `image::imageops::resize` and the triangle
/// filter. The sizes must fit, or the call could panic: on an allocation
/// that is too large, or on weights that round to zero on very long sides.
/// The result depends on the arguments alone and holds four samples for
/// each pixel of the new size.
#[verifier::external_body]
pub(crate) fn resample(
    width: u32,
    height: u32,
    samples: &Vec<u8>,
    new_width: u32,
    new_height: u32,
) -> (resized: Vec<u8>)
    requires
        samples@.len() == width * height * 4,
        resample_fits(width as nat, height as nat, new_width as nat, new_height as nat),
    ensures
        resized@ == triangle_resample(width, height, samples@, new_width, new_height),
        resized@.len() == new_width * new_height * 4,
{
    let pixels = samples.as_slice();
    let img = image::ImageBuffer::<image::Rgba<u8>, &[u8]>::from_raw(width, height, pixels).unwrap();
    let filter = image::imageops::FilterType::Triangle;
    image::imageops::resize(&img, new_width, new_height, filter).into_raw()
}

} // verus!
