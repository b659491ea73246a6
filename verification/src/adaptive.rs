//! The engine's entry point: one call that encodes a bitmap in any output
//! format within a byte budget.

use vstd::prelude::*;
use crate::bitmap::{Bitmap, BitmapView};
use crate::config::OutputFormat;
use crate::encoder::{
    bytes_view,
    encode_webp_lossless,
    jpeg_result,
    png_compressed_result,
    png_result,
    turbo_encode_jpeg_adaptive,
    turbo_encode_png_compressed,
    turbo_encode_png_fast,
    webp_lossless_result,
};
use crate::error::ConvertError;
use crate::quality::jpeg_initial_quality;
use crate::webp::{
    codec_is_deterministic,
    encode_webp_smart,
    lemma_smart_is_deterministic,
    lossy_codec_ready,
    smart_post,
};

verus! {

/// The number of bytes in a kilobyte of budget.
pub const BYTES_PER_KB: usize = 1024;

/// The budget in bytes for a budget in kilobytes: 1024 bytes each, or the
/// largest count of bytes there is where that is less.
pub open spec fn budget_bytes(target_kb: nat) -> nat {
    if target_kb * (BYTES_PER_KB as nat) <= usize::MAX {
        target_kb * (BYTES_PER_KB as nat)
    } else {
        usize::MAX as nat
    }
}

/// Turns a budget in kilobytes into bytes.
pub fn target_bytes_for(target_kb: u32) -> (bytes: usize)
    ensures
        bytes == budget_bytes(target_kb as nat),
{
    let wide: u64 = (target_kb as u64) * (BYTES_PER_KB as u64);
    if wide <= usize::MAX as u64 {
        wide as usize
    } else {
        usize::MAX
    }
}

/// What `encode` promises of its result, format by format. For JPEG, PNG
/// and lossless WebP the result is a function of the bitmap and the budget.
/// For lossy WebP it is what the smart mode promises, with size preferred
/// over quality.
pub open spec fn encode_post<F: Fn(&Vec<u8>, u32, u32, u64, u64) -> Vec<u8>>(
    codec: &F,
    b: BitmapView,
    target: usize,
    format: OutputFormat,
    r: Result<Vec<u8>, ConvertError>,
) -> bool {
    match format {
        OutputFormat::Jpeg => bytes_view(r) == jpeg_result(
            b,
            jpeg_initial_quality(target as nat) as u8,
            Some(target),
        ),
        OutputFormat::PngCompressed => bytes_view(r) == png_compressed_result(b, target as nat),
        OutputFormat::PngOriginal => bytes_view(r) == png_result(b),
        OutputFormat::WebPLossless => bytes_view(r) == webp_lossless_result(b),
        OutputFormat::WebPLossy => smart_post(codec, b, target, false, r),
    }
}

/// Encodes a bitmap in the given format, within the budget where the
/// format has one: JPEG and lossy WebP lower their quality, size-targeted
/// PNG lowers its resolution, and original PNG and lossless WebP ignore the
/// budget. `codec` is the lossy WebP codec; no other format calls it.
pub fn encode<F: Fn(&Vec<u8>, u32, u32, u64, u64) -> Vec<u8>>(
    image: &Bitmap,
    target_bytes: usize,
    format: OutputFormat,
    codec: &F,
) -> (r: Result<Vec<u8>, ConvertError>)
    requires
        lossy_codec_ready(codec),
    ensures
        encode_post(codec, image@, target_bytes, format, r),
{
    match format {
        OutputFormat::Jpeg => turbo_encode_jpeg_adaptive(image, target_bytes),
        OutputFormat::PngCompressed => turbo_encode_png_compressed(image, target_bytes),
        OutputFormat::PngOriginal => turbo_encode_png_fast(image),
        OutputFormat::WebPLossy => encode_webp_smart(image, target_bytes, false, codec),
        OutputFormat::WebPLossless => encode_webp_lossless(image),
    }
}

/// Encoding is deterministic: any two results for the same bitmap, budget
/// and format are the same bytes or the same error. For lossy WebP this
/// holds where the caller's codec is itself deterministic.
pub proof fn lemma_encode_is_deterministic<F: Fn(&Vec<u8>, u32, u32, u64, u64) -> Vec<u8>>(
    codec: &F,
    b: BitmapView,
    target: usize,
    format: OutputFormat,
    first: Result<Vec<u8>, ConvertError>,
    second: Result<Vec<u8>, ConvertError>,
)
    requires
        format == OutputFormat::WebPLossy ==> codec_is_deterministic(codec),
        encode_post(codec, b, target, format, first),
        encode_post(codec, b, target, format, second),
    ensures
        bytes_view(first) == bytes_view(second),
{
    if format == OutputFormat::WebPLossy {
        lemma_smart_is_deterministic(codec, b, target, false, first, second);
    }
}

} // verus!
