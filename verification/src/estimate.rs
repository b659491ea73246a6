//! Cheap predictions from pixel dimensions: the size of a PNG, and the
//! dimensions at which a file would shrink to a target size.

use vstd::prelude::*;
use crate::arith::{scale_below_one, scale_length, scaled_length};
use crate::bitmap::MAX_PIXELS;

verus! {

/// The bytes that every estimate allows for headers.
pub const PNG_HEADER_OVERHEAD: usize = 1024;

/// The smallest width or height that `estimate_optimal_dimensions` proposes.
pub const MIN_OPTIMAL_DIMENSION: u32 = 64;

/// The predicted size of a PNG: seven tenths of three bytes per pixel, and
/// the header overhead.
pub open spec fn estimated_png_size(width: nat, height: nat) -> nat {
    21 * (width * height) / 10 + PNG_HEADER_OVERHEAD as nat
}

/// The estimate grows linearly with the number of pixels: it is the header
/// overhead and 2.1 bytes per pixel, rounded down.
pub proof fn lemma_estimate_is_linear(width: nat, height: nat)
    ensures
        10 * (estimated_png_size(width, height) - PNG_HEADER_OVERHEAD) <= 21 * (width * height),
        21 * (width * height) < 10 * (estimated_png_size(width, height) - PNG_HEADER_OVERHEAD)
            + 10,
{
}

/// Images with more pixels never get a smaller estimate.
pub proof fn lemma_estimate_is_monotonic(w1: nat, h1: nat, w2: nat, h2: nat)
    requires
        w1 * h1 <= w2 * h2,
    ensures
        estimated_png_size(w1, h1) <= estimated_png_size(w2, h2),
{
}

/// Predicts the encoded size of a PNG of the given dimensions, where the
/// prediction is no more than a `usize` holds.
pub fn estimate_png_size(width: u32, height: u32) -> (size: usize)
    requires
        estimated_png_size(width as nat, height as nat) <= usize::MAX,
    ensures
        size == estimated_png_size(width as nat, height as nat),
{
    assert(width as nat * height as nat <= 0xFFFF_FFFF * 0xFFFF_FFFF) by (nonlinear_arith)
        requires
            width <= 0xFFFF_FFFF,
            height <= 0xFFFF_FFFF,
    ;
    let pixels: u128 = (width as u128) * (height as u128);
    let size: u128 = pixels * 21 / 10 + PNG_HEADER_OVERHEAD as u128;
    size as usize
}

/// The estimate of every bitmap within the pixel cap fits in 32 bits.
pub proof fn lemma_estimate_within_cap(width: nat, height: nat)
    requires
        width * height <= MAX_PIXELS,
    ensures
        estimated_png_size(width, height) <= u32::MAX,
{
}

/// The larger of a floor and a scaled length.
pub open spec fn floored(length: int, floor: int) -> int {
    if length < floor {
        floor
    } else {
        length
    }
}

/// The dimension that `estimate_optimal_dimensions` proposes for one side:
/// the side times the square root of the ratio of the sizes, the factor
/// capped at one, rounded, and at least 64.
pub open spec fn optimal_dimension(original: nat, current_size: nat, target_size: nat) -> int {
    floored(
        scaled_length(original as int, 20, target_size as int, current_size as int),
        MIN_OPTIMAL_DIMENSION as int,
    )
}

fn optimal_side(original: u32, current_size: u64, target_size: u64) -> (side: u32)
    ensures
        side == optimal_dimension(original as nat, current_size as nat, target_size as nat),
{
    let scaled: u32 = if current_size > 0 && target_size < current_size {
        assert(scale_below_one(20, target_size as int, current_size as int));
        scale_length(original, 20, target_size, current_size)
    } else {
        assert(20int * 20int * (target_size as int) == 400 * (target_size as int));
        original
    };
    if scaled < MIN_OPTIMAL_DIMENSION {
        MIN_OPTIMAL_DIMENSION
    } else {
        scaled
    }
}

/// Proposes the dimensions at which a file of `current_file_size` bytes
/// would come to about `target_file_size` bytes, on the assumption that the
/// size grows with the number of pixels. Neither side grows, and neither
/// drops below 64.
pub fn estimate_optimal_dimensions(
    original_width: u32,
    original_height: u32,
    current_file_size: usize,
    target_file_size: usize,
) -> (dimensions: (u32, u32))
    ensures
        dimensions.0 == optimal_dimension(
            original_width as nat,
            current_file_size as nat,
            target_file_size as nat,
        ),
        dimensions.1 == optimal_dimension(
            original_height as nat,
            current_file_size as nat,
            target_file_size as nat,
        ),
{
    let current: u64 = current_file_size as u64;
    let target: u64 = target_file_size as u64;
    (optimal_side(original_width, current, target), optimal_side(original_height, current, target))
}

} // verus!
