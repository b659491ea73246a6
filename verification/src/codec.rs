//! The codecs of the `image` and `webp` crates, as the engine sees them.
//!
//! Nothing in this file is proved. Each function calls an outside encoder or
//! resampler, and its contract is what the rest of the library takes on
//! trust. What an encoder writes is far too long to state, so it gets a
//! name: an uninterpreted function of the call's arguments.

use vstd::prelude::*;
use crate::bitmap::{PixelLayout, channel_count, MAX_PIXELS};
use image::codecs::jpeg::JpegEncoder;
use image::codecs::png::{CompressionType, FilterType, PngEncoder};
use image::imageops::FilterType as Resampling;
use image::{DynamicImage, ExtendedColorType, ImageEncoder, RgbImage, RgbaImage};

verus! {

/// The error type of the `image` crate, carried through unread.
#[verifier::external_type_specification]
#[verifier::external_body]
pub struct ExImageError(image::ImageError);

/// The resampling filters of `image::imageops::FilterType`.
#[derive(Clone, Copy, Debug, PartialEq, Eq, Structural)]
pub enum ResizeFilter {
    Nearest,
    Triangle,
    CatmullRom,
    Gaussian,
    Lanczos3,
}

/// The number that stands for a filter in `resample`.
pub open spec fn filter_code(filter: ResizeFilter) -> int {
    match filter {
        ResizeFilter::Nearest => 0,
        ResizeFilter::Triangle => 1,
        ResizeFilter::CatmullRom => 2,
        ResizeFilter::Gaussian => 3,
        ResizeFilter::Lanczos3 => 4,
    }
}

/// The largest width and height that a JPEG can have.
pub const JPEG_MAX_DIMENSION: u32 = 65_535;

/// The largest width and height that a WebP image can have.
pub const WEBP_MAX_DIMENSION: u32 = 16_383;

/// Whether a JPEG of these dimensions can be written.
pub open spec fn jpeg_dimensions_ok(width: int, height: int) -> bool {
    1 <= width <= JPEG_MAX_DIMENSION && 1 <= height <= JPEG_MAX_DIMENSION
}

/// Whether a WebP image of these dimensions can be written.
pub open spec fn webp_dimensions_ok(width: int, height: int) -> bool {
    1 <= width <= WEBP_MAX_DIMENSION && 1 <= height <= WEBP_MAX_DIMENSION
}

/// The bytes that `image`'s JPEG encoder writes for RGB pixels at a quality.
pub uninterp spec fn jpeg_encoding(pixels: Seq<u8>, width: int, height: int, quality: int) -> Seq<u8>;

/// What `image`'s PNG encoder makes of pixels at its fastest setting with no
/// row filter: the bytes of the file, or nothing where it fails.
pub uninterp spec fn png_encoding(pixels: Seq<u8>, width: int, height: int, channels: int) -> Option<Seq<u8>>;

/// The pixels that `image` resamples a buffer to, for new dimensions and a
/// filter.
pub uninterp spec fn resample(
    pixels: Seq<u8>,
    width: int,
    height: int,
    channels: int,
    new_width: int,
    new_height: int,
    filter: int,
) -> Seq<u8>;

/// The bytes that libwebp writes for RGBA pixels without loss.
pub uninterp spec fn webp_lossless_encoding(pixels: Seq<u8>, width: int, height: int) -> Seq<u8>;

/// Calls `image::codecs::jpeg::JpegEncoder::new_with_quality` and `encode`
/// on RGB pixels, writing into a fresh vector.
///
/// Trusted: the encoder fails exactly on a width or height of zero or above
/// 65535 (its other errors are write errors, which a vector never gives),
/// and what it writes depends on the pixels, the dimensions and the quality
/// alone. It panics on a buffer of the wrong length, which `requires` rules
/// out.
#[verifier::external_body]
pub(crate) fn jpeg_encode_rgb8(pixels: &Vec<u8>, width: u32, height: u32, quality: u8) -> (r: Result<
    Vec<u8>,
    image::ImageError,
>)
    requires
        pixels@.len() == 3 * (width as nat * height as nat),
    ensures
        r is Ok <==> jpeg_dimensions_ok(width as int, height as int),
        r matches Ok(bytes) ==> bytes@ == jpeg_encoding(
            pixels@,
            width as int,
            height as int,
            quality as int,
        ),
{
    let mut out: Vec<u8> = Vec::new();
    let encoded = JpegEncoder::new_with_quality(&mut out, quality).encode(
        pixels,
        width,
        height,
        ExtendedColorType::Rgb8,
    );
    match encoded {
        Ok(()) => Ok(out),
        Err(e) => Err(e),
    }
}

/// Calls `image::codecs::png::PngEncoder::new_with_quality` with
/// `CompressionType::Fast` and `FilterType::NoFilter`, then `write_image`,
/// writing into a fresh vector.
///
/// Trusted: whether the encoder succeeds and what it writes depend on the
/// pixels, the dimensions and the layout alone, and it fails on a width or
/// height of zero. It panics on a buffer of the wrong length, which
/// `requires` rules out.
#[verifier::external_body]
pub(crate) fn png_encode(pixels: &Vec<u8>, width: u32, height: u32, layout: PixelLayout) -> (r: Result<
    Vec<u8>,
    image::ImageError,
>)
    requires
        pixels@.len() == width as nat * height as nat * channel_count(layout),
    ensures
        r is Ok <==> png_encoding(
            pixels@,
            width as int,
            height as int,
            channel_count(layout) as int,
        ) is Some,
        r matches Ok(bytes) ==> Some(bytes@) == png_encoding(
            pixels@,
            width as int,
            height as int,
            channel_count(layout) as int,
        ),
        width == 0 || height == 0 ==> r is Err,
{
    let color = match layout {
        PixelLayout::Rgb8 => ExtendedColorType::Rgb8,
        PixelLayout::Rgba8 => ExtendedColorType::Rgba8,
    };
    let mut out: Vec<u8> = Vec::new();
    let encoder = PngEncoder::new_with_quality(&mut out, CompressionType::Fast, FilterType::NoFilter);
    match encoder.write_image(pixels, width, height, color) {
        Ok(()) => Ok(out),
        Err(e) => Err(e),
    }
}

/// Calls `image::DynamicImage::resize_exact` on the pixels.
///
/// Trusted: the result has the new dimensions in the same layout, and
/// depends on the pixels, both pairs of dimensions and the filter alone.
/// `requires` rules out what makes the outside code panic: a source buffer
/// of the wrong length and a result too large to allocate.
#[verifier::external_body]
pub(crate) fn resize_pixels(
    pixels: &Vec<u8>,
    width: u32,
    height: u32,
    layout: PixelLayout,
    new_width: u32,
    new_height: u32,
    filter: ResizeFilter,
) -> (out: Vec<u8>)
    requires
        pixels@.len() == width as nat * height as nat * channel_count(layout),
        1 <= new_width,
        1 <= new_height,
        new_width as nat * new_height as nat <= MAX_PIXELS,
    ensures
        out@.len() == new_width as nat * new_height as nat * channel_count(layout),
        out@ == resample(
            pixels@,
            width as int,
            height as int,
            channel_count(layout) as int,
            new_width as int,
            new_height as int,
            filter_code(filter),
        ),
{
    let source = match layout {
        PixelLayout::Rgb8 => DynamicImage::from(RgbImage::from_raw(width, height, pixels.clone()).unwrap()),
        PixelLayout::Rgba8 => DynamicImage::from(RgbaImage::from_raw(width, height, pixels.clone()).unwrap()),
    };
    let kind = match filter {
        ResizeFilter::Nearest => Resampling::Nearest,
        ResizeFilter::Triangle => Resampling::Triangle,
        ResizeFilter::CatmullRom => Resampling::CatmullRom,
        ResizeFilter::Gaussian => Resampling::Gaussian,
        ResizeFilter::Lanczos3 => Resampling::Lanczos3,
    };
    source.resize_exact(new_width, new_height, kind).into_bytes()
}

/// Calls `webp::Encoder::from_rgba` and `encode_lossless`, and copies the
/// result out of libwebp's memory.
///
/// Trusted: what libwebp writes depends on the pixels and the dimensions
/// alone. The outside function panics where libwebp refuses the picture,
/// which it does for a width or height of zero or above 16383, and on a
/// buffer that is too short: `requires` rules both out.
#[verifier::external_body]
pub(crate) fn webp_encode_lossless(pixels: &Vec<u8>, width: u32, height: u32) -> (out: Vec<u8>)
    requires
        pixels@.len() == 4 * (width as nat * height as nat),
        webp_dimensions_ok(width as int, height as int),
    ensures
        out@ == webp_lossless_encoding(pixels@, width as int, height as int),
{
    webp::Encoder::from_rgba(pixels, width, height).encode_lossless().to_vec()
}

/// Calls `Vec::capacity`.
///
/// Trusted: a vector's capacity is at least its length. What else it is
/// depends on the allocator, so nothing more is said.
#[verifier::external_body]
pub(crate) fn buffer_capacity(buffer: &Vec<u8>) -> (capacity: usize)
    ensures
        capacity >= buffer@.len(),
{
    buffer.capacity()
}

} // verus!
