//! The adaptive encoders: each turns a bitmap into the bytes of a file and
//! tries to keep them within a byte budget.
//!
//! JPEG lowers its quality until the bytes fit or the quality reaches the
//! floor. PNG has no quality to lower: when the estimate exceeds the budget
//! it gives up resolution instead. WebP without loss is a single encode.

use vstd::prelude::*;
use crate::arith::{nearest_scaled, scale_below_one, scale_length};
use crate::bitmap::{Bitmap, BitmapView, channel_count, rgb_pixels, rgba_pixels};
use crate::codec::{
    JPEG_MAX_DIMENSION,
    ResizeFilter,
    WEBP_MAX_DIMENSION,
    jpeg_dimensions_ok,
    jpeg_encode_rgb8,
    jpeg_encoding,
    png_encode,
    png_encoding,
    webp_dimensions_ok,
    webp_encode_lossless,
    webp_lossless_encoding,
};
use crate::error::ConvertError;
use crate::estimate::{
    estimate_png_size,
    estimated_png_size,
    floored,
    lemma_estimate_within_cap,
};
use crate::quality::{
    QUALITY_FLOOR,
    SearchStep,
    decayed,
    initial_jpeg_quality,
    jpeg_initial_quality,
    jpeg_step,
    lemma_decay_reaches_floor,
    next_jpeg_step,
    over_budget,
    quality_after,
};
use crate::resize::{resizable_to, resize_bitmap, resized};

verus! {

/// The bytes of a result, or its error.
pub open spec fn bytes_view(r: Result<Vec<u8>, ConvertError>) -> Result<Seq<u8>, ConvertError> {
    match r {
        Ok(bytes) => Ok(bytes@),
        Err(e) => Err(e),
    }
}

/// The bytes that the JPEG search settles on: those of the first attempt,
/// from `quality` downwards, that fits the budget or is at the floor.
pub open spec fn jpeg_search(
    pixels: Seq<u8>,
    width: int,
    height: int,
    quality: u8,
    target: Option<usize>,
) -> Seq<u8>
    decreases quality,
{
    let bytes = jpeg_encoding(pixels, width, height, quality as int);
    match jpeg_step(quality, bytes.len(), target) {
        SearchStep::Retry(next) => jpeg_search(pixels, width, height, next, target),
        _ => bytes,
    }
}

/// The number of times the JPEG search lowers the quality.
pub open spec fn jpeg_retries(
    pixels: Seq<u8>,
    width: int,
    height: int,
    quality: u8,
    target: Option<usize>,
) -> nat
    decreases quality,
{
    let bytes = jpeg_encoding(pixels, width, height, quality as int);
    match jpeg_step(quality, bytes.len(), target) {
        SearchStep::Retry(next) => 1 + jpeg_retries(pixels, width, height, next, target),
        _ => 0,
    }
}

/// What the JPEG encoder returns for a bitmap: the bytes of the search, or
/// an error for dimensions that JPEG cannot hold.
pub open spec fn jpeg_result(b: BitmapView, quality: u8, target: Option<usize>) -> Result<
    Seq<u8>,
    ConvertError,
> {
    if jpeg_dimensions_ok(b.width as int, b.height as int) {
        Ok(jpeg_search(rgb_pixels(b), b.width as int, b.height as int, quality, target))
    } else {
        Err(ConvertError::Encode)
    }
}

/// Encodes a bitmap as JPEG, from `quality` downwards: while the bytes
/// exceed the budget and the quality is above the floor, the quality drops
/// to four fifths. The last attempt is returned even where it is over
/// budget. Without a budget the first attempt is returned.
pub fn turbo_encode_jpeg(image: &Bitmap, quality: u8, target_size_bytes: Option<usize>) -> (r: Result<
    Vec<u8>,
    ConvertError,
>)
    ensures
        bytes_view(r) == jpeg_result(image@, quality, target_size_bytes),
{
    let width = image.width();
    let height = image.height();
    if width == 0 || height == 0 || width > JPEG_MAX_DIMENSION || height > JPEG_MAX_DIMENSION {
        return Err(ConvertError::Encode);
    }
    let pixels = image.to_rgb8();
    let mut current: u8 = quality;
    loop
        invariant
            jpeg_dimensions_ok(width as int, height as int),
            pixels@.len() == 3 * (width as nat * height as nat),
            jpeg_search(pixels@, width as int, height as int, current, target_size_bytes)
                == jpeg_search(pixels@, width as int, height as int, quality, target_size_bytes),
            pixels@ == rgb_pixels(image@),
            width == image@.width,
            height == image@.height,
        decreases current,
    {
        match jpeg_encode_rgb8(&pixels, width, height, current) {
            Ok(bytes) => {
                match next_jpeg_step(current, bytes.len(), target_size_bytes) {
                    SearchStep::Retry(next) => {
                        current = next;
                    },
                    _ => {
                        return Ok(bytes);
                    },
                }
            },
            Err(_) => {
                return Err(ConvertError::Encode);
            },
        }
    }
}

/// Encodes a bitmap as JPEG within a budget, starting at the quality of the
/// budget's tier.
pub fn turbo_encode_jpeg_adaptive(image: &Bitmap, target_bytes: usize) -> (r: Result<
    Vec<u8>,
    ConvertError,
>)
    ensures
        bytes_view(r) == jpeg_result(
            image@,
            jpeg_initial_quality(target_bytes as nat) as u8,
            Some(target_bytes),
        ),
{
    let quality = initial_jpeg_quality(target_bytes);
    turbo_encode_jpeg(image, quality, Some(target_bytes))
}

/// Where the first attempt fits the budget, the search keeps it: the
/// quality is the one it started with, no decay takes place, and the bytes
/// are within the budget.
pub proof fn lemma_jpeg_first_fit_is_kept(
    pixels: Seq<u8>,
    width: int,
    height: int,
    quality: u8,
    target: usize,
)
    requires
        jpeg_encoding(pixels, width, height, quality as int).len() <= target,
    ensures
        jpeg_search(pixels, width, height, quality, Some(target)) == jpeg_encoding(
            pixels,
            width,
            height,
            quality as int,
        ),
        jpeg_retries(pixels, width, height, quality, Some(target)) == 0,
        jpeg_search(pixels, width, height, quality, Some(target)).len() <= target,
{
}

/// The search walks down the decay sequence: it returns the attempt at
/// the quality after `jpeg_retries` decays, every attempt before that one
/// was over budget at a quality above the floor, and the attempt returned
/// fits the budget or is at the floor. There are at most fifteen decays,
/// and at most ten from a quality of 100 or less.
pub proof fn lemma_jpeg_search_follows_decay(
    pixels: Seq<u8>,
    width: int,
    height: int,
    quality: u8,
    target: Option<usize>,
)
    ensures
        ({
            let retries = jpeg_retries(pixels, width, height, quality, target);
            let last = quality_after(quality as int, retries);
            &&& jpeg_search(pixels, width, height, quality, target) == jpeg_encoding(
                pixels,
                width,
                height,
                last,
            )
            &&& 0 <= last <= quality
            &&& !over_budget(jpeg_encoding(pixels, width, height, last).len(), target) || last
                <= QUALITY_FLOOR
            &&& forall|k: nat|
                k < retries ==> quality_after(quality as int, k) > QUALITY_FLOOR && over_budget(
                    jpeg_encoding(
                        pixels,
                        width,
                        height,
                        #[trigger] quality_after(quality as int, k),
                    ).len(),
                    target,
                )
            &&& retries <= 15
            &&& quality <= 100 ==> retries <= 10
        }),
    decreases quality,
{
    let bytes = jpeg_encoding(pixels, width, height, quality as int);
    let retries = jpeg_retries(pixels, width, height, quality, target);
    match jpeg_step(quality, bytes.len(), target) {
        SearchStep::Retry(next) => {
            lemma_jpeg_search_follows_decay(pixels, width, height, next, target);
            let rest = jpeg_retries(pixels, width, height, next, target);
            assert(retries == rest + 1);
            lemma_quality_after_shift(quality as int, rest);
            assert forall|k: nat| k < retries implies quality_after(quality as int, k)
                > QUALITY_FLOOR && over_budget(
                jpeg_encoding(
                    pixels,
                    width,
                    height,
                    #[trigger] quality_after(quality as int, k),
                ).len(),
                target,
            ) by {
                if k > 0 {
                    lemma_quality_after_shift(quality as int, (k - 1) as nat);
                    assert(quality_after(quality as int, k) == quality_after(
                        next as int,
                        (k - 1) as nat,
                    ));
                    assert(k - 1 < rest);
                }
            }
            // The bound on the number of decays: were there more than
            // fifteen, the fifteenth quality would still be above the floor.
            lemma_decay_reaches_floor(quality as int);
            if retries > 15 {
                assert(quality_after(quality as int, 15) > QUALITY_FLOOR);
            }
            if quality <= 100 && retries > 10 {
                assert(quality_after(quality as int, 10) > QUALITY_FLOOR);
            }
        },
        _ => {},
    }
}

/// Decaying once and then `retries` times is decaying `retries + 1` times.
proof fn lemma_quality_after_shift(quality: int, retries: nat)
    ensures
        quality_after(decayed(quality), retries) == quality_after(quality, retries + 1),
    decreases retries,
{
    reveal_with_fuel(quality_after, 2);
    if retries > 0 {
        lemma_quality_after_shift(quality, (retries - 1) as nat);
        assert(quality_after(quality, retries + 1) == decayed(quality_after(quality, retries)));
        assert(quality_after(decayed(quality), retries) == decayed(
            quality_after(decayed(quality), (retries - 1) as nat),
        ));
    }
}

/// What the fast PNG encoder returns for pixels: the bytes of the file, or
/// an error where the codec fails.
pub open spec fn png_result(b: BitmapView) -> Result<Seq<u8>, ConvertError> {
    match png_encoding(b.pixels, b.width as int, b.height as int, channel_count(b.layout) as int) {
        Some(bytes) => Ok(bytes),
        None => Err(ConvertError::Encode),
    }
}

/// Encodes a bitmap as PNG at full resolution, with the fastest
/// compression and no row filter.
pub fn turbo_encode_png_fast(image: &Bitmap) -> (r: Result<Vec<u8>, ConvertError>)
    ensures
        bytes_view(r) == png_result(image@),
{
    let width = image.width();
    let height = image.height();
    let layout = image.layout();
    match png_encode(image.as_bytes(), width, height, layout) {
        Ok(bytes) => Ok(bytes),
        Err(_) => Err(ConvertError::Encode),
    }
}

/// The smallest width or height that the PNG encoder scales down to.
pub const MIN_SCALED_DIMENSION: u32 = 32;

/// How a PNG is brought within a budget.
#[derive(Clone, Copy, Debug, PartialEq, Eq, Structural)]
pub enum PngPlan {
    /// The estimate fits the budget: encode at full resolution.
    Direct,
    /// The budget is out of reach even at a tenth of the linear size.
    TooSmall,
    /// Resize to these dimensions with this filter, then encode.
    Resize { width: u32, height: u32, filter: ResizeFilter },
}

/// Whether the linear scale `0.95 * sqrt(target / estimate)` is above four
/// fifths: both sides squared, `361 / 400 * target / estimate > 16 / 25`.
pub open spec fn png_scale_above_four_fifths(target: nat, estimate: nat) -> bool {
    361 * target > 256 * estimate
}

/// Whether the linear scale `0.95 * sqrt(target / estimate)` is above a
/// half: both sides squared, `361 / 400 * target / estimate > 1 / 4`.
pub open spec fn png_scale_above_half(target: nat, estimate: nat) -> bool {
    361 * target > 100 * estimate
}

/// Whether the linear scale `0.95 * sqrt(target / estimate)` is below a
/// tenth: both sides squared, `361 / 400 * target / estimate < 1 / 100`.
pub open spec fn png_scale_too_small(target: nat, estimate: nat) -> bool {
    361 * target < 4 * estimate
}

/// One side of the resized image: the side times the linear scale, rounded
/// to the nearest integer, and at least 32.
pub open spec fn png_scaled_side(side: nat, target: nat, estimate: nat) -> int {
    floored(
        nearest_scaled(side as int, 19, target as int, estimate as int),
        MIN_SCALED_DIMENSION as int,
    )
}

/// The filter for a linear scale: Lanczos above 0.8, Catmull-Rom above 0.5,
/// a triangle below.
pub open spec fn png_filter(target: nat, estimate: nat) -> ResizeFilter {
    if png_scale_above_four_fifths(target, estimate) {
        ResizeFilter::Lanczos3
    } else if png_scale_above_half(target, estimate) {
        ResizeFilter::CatmullRom
    } else {
        ResizeFilter::Triangle
    }
}

/// The plan for a bitmap of the given dimensions and a budget.
pub open spec fn png_plan(width: nat, height: nat, target: nat) -> PngPlan {
    let estimate = estimated_png_size(width, height);
    if estimate <= target {
        PngPlan::Direct
    } else if png_scale_too_small(target, estimate) {
        PngPlan::TooSmall
    } else {
        PngPlan::Resize {
            width: png_scaled_side(width, target, estimate) as u32,
            height: png_scaled_side(height, target, estimate) as u32,
            filter: png_filter(target, estimate),
        }
    }
}

fn scaled_side(side: u32, target: u64, estimate: u64) -> (scaled: u32)
    requires
        target < estimate,
    ensures
        scaled == png_scaled_side(side as nat, target as nat, estimate as nat),
        MIN_SCALED_DIMENSION <= scaled,
        scaled <= side || scaled == MIN_SCALED_DIMENSION,
{
    assert(19int * 19int * (target as int) == 361 * (target as int));
    assert(scale_below_one(19, target as int, estimate as int));
    let nearest = scale_length(side, 19, target, estimate);
    if nearest < MIN_SCALED_DIMENSION {
        MIN_SCALED_DIMENSION
    } else {
        nearest
    }
}

/// Plans how a PNG of the given dimensions is brought within a budget.
pub fn plan_png(width: u32, height: u32, target_bytes: usize) -> (plan: PngPlan)
    requires
        estimated_png_size(width as nat, height as nat) <= usize::MAX,
    ensures
        plan == png_plan(width as nat, height as nat, target_bytes as nat),
{
    let estimate: u64 = estimate_png_size(width, height) as u64;
    let target: u64 = target_bytes as u64;
    if estimate <= target {
        return PngPlan::Direct;
    }
    if 361 * (target as u128) < 4 * (estimate as u128) {
        return PngPlan::TooSmall;
    }
    let filter = if 361 * (target as u128) > 256 * (estimate as u128) {
        ResizeFilter::Lanczos3
    } else if 361 * (target as u128) > 100 * (estimate as u128) {
        ResizeFilter::CatmullRom
    } else {
        ResizeFilter::Triangle
    };
    PngPlan::Resize {
        width: scaled_side(width, target, estimate),
        height: scaled_side(height, target, estimate),
        filter,
    }
}

/// What the size-targeted PNG encoder returns for a bitmap and a budget.
pub open spec fn png_compressed_result(b: BitmapView, target: nat) -> Result<Seq<u8>, ConvertError> {
    match png_plan(b.width, b.height, target) {
        PngPlan::Direct => png_result(b),
        PngPlan::TooSmall => Err(ConvertError::TargetTooSmall),
        PngPlan::Resize { width, height, filter } => {
            if resizable_to(width as nat, height as nat) {
                png_result(resized(b, width as nat, height as nat, filter))
            } else {
                Err(ConvertError::Encode)
            }
        },
    }
}

/// Encodes a bitmap as PNG within a budget. Where the estimated size fits
/// the budget the bitmap is encoded as it is. Otherwise it is resized by
/// the linear scale `0.95 * sqrt(target / estimate)`, each side kept at 32
/// pixels or more, and then encoded; a scale below a tenth is refused.
pub fn turbo_encode_png_compressed(image: &Bitmap, target_bytes: usize) -> (r: Result<
    Vec<u8>,
    ConvertError,
>)
    ensures
        bytes_view(r) == png_compressed_result(image@, target_bytes as nat),
{
    let width = image.width();
    let height = image.height();
    proof {
        lemma_estimate_within_cap(width as nat, height as nat);
    }
    match plan_png(width, height, target_bytes) {
        PngPlan::Direct => turbo_encode_png_fast(image),
        PngPlan::TooSmall => Err(ConvertError::TargetTooSmall),
        PngPlan::Resize { width: new_width, height: new_height, filter } => {
            match resize_bitmap(image, new_width, new_height, filter) {
                Ok(smaller) => turbo_encode_png_fast(&smaller),
                Err(_) => Err(ConvertError::Encode),
            }
        },
    }
}

/// Where the estimate fits the budget, the bitmap is encoded at its own
/// dimensions: no resize takes place.
pub proof fn lemma_png_within_estimate_keeps_dimensions(b: BitmapView, target: nat)
    requires
        estimated_png_size(b.width, b.height) <= target,
    ensures
        png_plan(b.width, b.height, target) == PngPlan::Direct,
        png_compressed_result(b, target) == png_result(b),
{
}

/// A budget that would take a linear scale below a tenth is refused with
/// `TargetTooSmall`: nothing is encoded.
pub proof fn lemma_png_unreachable_target_is_refused(b: BitmapView, target: nat)
    requires
        estimated_png_size(b.width, b.height) > target,
        png_scale_too_small(target, estimated_png_size(b.width, b.height)),
    ensures
        png_compressed_result(b, target) == Err::<Seq<u8>, ConvertError>(
            ConvertError::TargetTooSmall,
        ),
{
}

/// What the lossless WebP encoder returns for a bitmap.
pub open spec fn webp_lossless_result(b: BitmapView) -> Result<Seq<u8>, ConvertError> {
    if webp_dimensions_ok(b.width as int, b.height as int) {
        Ok(webp_lossless_encoding(rgba_pixels(b), b.width as int, b.height as int))
    } else {
        Err(ConvertError::Encode)
    }
}

/// Encodes a bitmap as WebP without loss. Fails for dimensions that WebP
/// cannot hold.
pub fn encode_webp_lossless(image: &Bitmap) -> (r: Result<Vec<u8>, ConvertError>)
    ensures
        bytes_view(r) == webp_lossless_result(image@),
{
    let width = image.width();
    let height = image.height();
    if width == 0 || height == 0 || width > WEBP_MAX_DIMENSION || height > WEBP_MAX_DIMENSION {
        return Err(ConvertError::Encode);
    }
    let pixels = image.to_rgba8();
    Ok(webp_encode_lossless(&pixels, width, height))
}

} // verus!
