//! Resampling a bitmap to new dimensions, with the filter chosen by how far
//! the image is scaled.

use vstd::prelude::*;
use crate::bitmap::{Bitmap, BitmapView, MAX_PIXELS, channel_count};
use crate::codec::{ResizeFilter, filter_code, resample, resize_pixels};
use crate::error::ConvertError;

verus! {

/// The sum of the two scale factors `target_width / width` and
/// `target_height / height`, multiplied by `width * height`.
pub open spec fn scale_cross(width: nat, height: nat, target_width: nat, target_height: nat) -> nat {
    target_width * height + target_height * width
}

/// The filter for a resize, by the mean `m` of the two scale factors: a
/// triangle for `m > 2`, Lanczos for `m > 0.8`, Catmull-Rom for `m > 0.5`,
/// a Gaussian for `m > 0.25`, and the nearest pixel below that. With `c`
/// for `scale_cross` and `a` for the source's area, `m > x` is
/// `c > 2 x a`; so a source without pixels has a mean above nothing.
pub open spec fn filter_for_resize(
    width: nat,
    height: nat,
    target_width: nat,
    target_height: nat,
) -> ResizeFilter {
    let cross = scale_cross(width, height, target_width, target_height);
    let area = width * height;
    if 10 * cross > 40 * area {
        ResizeFilter::Triangle
    } else if 10 * cross > 16 * area {
        ResizeFilter::Lanczos3
    } else if 10 * cross > 10 * area {
        ResizeFilter::CatmullRom
    } else if 4 * cross > 2 * area {
        ResizeFilter::Gaussian
    } else {
        ResizeFilter::Nearest
    }
}

proof fn lemma_product_u32(a: nat, b: nat)
    requires
        a <= u32::MAX,
        b <= u32::MAX,
    ensures
        a * b <= 0xFFFF_FFFE_0000_0001,
{
    assert(a * b <= 0xFFFF_FFFF * 0xFFFF_FFFF) by (nonlinear_arith)
        requires
            a <= 0xFFFF_FFFF,
            b <= 0xFFFF_FFFF,
    ;
}

/// Chooses the filter for resizing from one pair of dimensions to another.
pub fn choose_resize_filter(width: u32, height: u32, target_width: u32, target_height: u32) -> (filter:
    ResizeFilter)
    ensures
        filter == filter_for_resize(
            width as nat,
            height as nat,
            target_width as nat,
            target_height as nat,
        ),
{
    proof {
        lemma_product_u32(target_width as nat, height as nat);
        lemma_product_u32(target_height as nat, width as nat);
        lemma_product_u32(width as nat, height as nat);
    }
    let cross: u128 = (target_width as u128) * (height as u128) + (target_height as u128) * (
    width as u128);
    let area: u128 = (width as u128) * (height as u128);
    assert(area <= 0xFFFF_FFFE_0000_0001);
    assert(cross <= 2 * 0xFFFF_FFFE_0000_0001);
    let weighted: u128 = 10 * cross;
    let quadruple: u128 = 4 * cross;
    let double_area: u128 = 2 * area;
    if weighted > 20 * double_area {
        ResizeFilter::Triangle
    } else if weighted > 8 * double_area {
        ResizeFilter::Lanczos3
    } else if weighted > 5 * double_area {
        ResizeFilter::CatmullRom
    } else if quadruple > double_area {
        ResizeFilter::Gaussian
    } else {
        ResizeFilter::Nearest
    }
}

/// Whether a bitmap can be resampled to these dimensions: both are
/// positive and the result is within the pixel cap.
pub open spec fn resizable_to(new_width: nat, new_height: nat) -> bool {
    new_width >= 1 && new_height >= 1 && new_width * new_height <= MAX_PIXELS
}

/// The bitmap that resampling gives.
pub open spec fn resized(b: BitmapView, new_width: nat, new_height: nat, filter: ResizeFilter) -> BitmapView {
    BitmapView {
        width: new_width,
        height: new_height,
        layout: b.layout,
        pixels: resample(
            b.pixels,
            b.width as int,
            b.height as int,
            channel_count(b.layout) as int,
            new_width as int,
            new_height as int,
            filter_code(filter),
        ),
    }
}

/// Resamples a bitmap to exactly the given dimensions. Fails where the new
/// dimensions are not positive or exceed the pixel cap.
pub fn resize_bitmap(image: &Bitmap, new_width: u32, new_height: u32, filter: ResizeFilter) -> (r:
    Result<Bitmap, ConvertError>)
    ensures
        r is Ok <==> resizable_to(new_width as nat, new_height as nat),
        r matches Ok(out) ==> out@ == resized(image@, new_width as nat, new_height as nat, filter),
        r matches Err(e) ==> e == ConvertError::Encode,
{
    proof {
        lemma_product_u32(new_width as nat, new_height as nat);
    }
    if new_width == 0 || new_height == 0 {
        return Err(ConvertError::Encode);
    }
    if (new_width as u64) * (new_height as u64) > MAX_PIXELS as u64 {
        return Err(ConvertError::Encode);
    }
    let width = image.width();
    let height = image.height();
    let layout = image.layout();
    let pixels = resize_pixels(image.as_bytes(), width, height, layout, new_width, new_height, filter);
    match Bitmap::from_raw(new_width, new_height, layout, pixels) {
        Ok(out) => Ok(out),
        Err(_) => Err(ConvertError::Encode),
    }
}

/// Resizes a bitmap to the given dimensions with the filter that suits the
/// scale.
pub fn simd_resize_image(image: &Bitmap, target_width: u32, target_height: u32) -> (r: Result<
    Bitmap,
    ConvertError,
>)
    ensures
        r is Ok <==> resizable_to(target_width as nat, target_height as nat),
        r matches Ok(out) ==> out@ == resized(
            image@,
            target_width as nat,
            target_height as nat,
            filter_for_resize(
                image@.width,
                image@.height,
                target_width as nat,
                target_height as nat,
            ),
        ),
        r matches Err(e) ==> e == ConvertError::Encode,
{
    let filter = choose_resize_filter(image.width(), image.height(), target_width, target_height);
    resize_bitmap(image, target_width, target_height, filter)
}

} // verus!
