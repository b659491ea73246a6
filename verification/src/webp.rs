//! WebP with loss: the quality search on the fine scale, and the smart mode
//! that weighs a lossless encode against the lossy one.
//!
//! The lossy codec takes its quality as a real number, so the call is the
//! caller's: it is handed in as a function from RGB pixels, dimensions and
//! a quality, given as a fraction, to the bytes of a file. The search is
//! verified for every such function.

use vstd::prelude::*;
use crate::bitmap::{Bitmap, BitmapView, rgb_pixels};
use crate::codec::{WEBP_MAX_DIMENSION, webp_dimensions_ok};
use crate::encoder::{bytes_view, encode_webp_lossless, webp_lossless_result};
use crate::error::ConvertError;
use crate::quality::{
    MAX_WEBP_RETRIES,
    SearchStep,
    WebpQuality,
    WebpQualityView,
    lemma_webp_decay_reaches_floor,
    next_webp_step,
    webp_initial_quality,
    webp_step,
};

verus! {

/// Images with fewer pixels than this are always weighed against their
/// lossless encoding.
pub const SMALL_IMAGE_PIXELS: u32 = 500_000;

/// Images with more pixels than this are taken to compress a little
/// better.
pub const LARGE_IMAGE_PIXELS: u64 = 1_000_000;

/// The share of its raw size that a WebP file is estimated to take, in
/// parts of ten thousand: from five hundredths at the lowest qualities to
/// a quarter at the highest, a tenth less for a large image and a tenth
/// more for any other.
pub open spec fn webp_ratio(pixel_count: nat, quality: nat) -> nat {
    let base: nat = if quality <= 20 {
        500
    } else if quality <= 40 {
        800
    } else if quality <= 60 {
        1200
    } else if quality <= 80 {
        1800
    } else {
        2500
    };
    if pixel_count > LARGE_IMAGE_PIXELS {
        base * 9 / 10
    } else {
        base * 11 / 10
    }
}

/// Estimates the share of its raw size that a WebP file takes at a
/// quality, in parts of ten thousand.
pub fn estimate_webp_compression_ratio(width: u32, height: u32, quality: u8) -> (ratio: u32)
    ensures
        ratio == webp_ratio(width as nat * height as nat, quality as nat),
        0 < ratio < 10_000,
{
    assert(width as nat * height as nat <= 0xFFFF_FFFF * 0xFFFF_FFFF) by (nonlinear_arith)
        requires
            width <= 0xFFFF_FFFF,
            height <= 0xFFFF_FFFF,
    ;
    let pixels: u64 = (width as u64) * (height as u64);
    let base: u32 = if quality <= 20 {
        500
    } else if quality <= 40 {
        800
    } else if quality <= 60 {
        1200
    } else if quality <= 80 {
        1800
    } else {
        2500
    };
    if pixels > LARGE_IMAGE_PIXELS {
        base * 9 / 10
    } else {
        base * 11 / 10
    }
}

/// Whether a lossy codec accepts every call that the search makes: RGB
/// pixels of matching length, dimensions that WebP can hold, and a quality
/// with a positive denominator.
pub open spec fn lossy_codec_ready<F: Fn(&Vec<u8>, u32, u32, u64, u64) -> Vec<u8>>(codec: &F) -> bool {
    forall|pixels: &Vec<u8>, width: u32, height: u32, numerator: u64, denominator: u64|
        pixels@.len() == 3 * (width as nat * height as nat) && webp_dimensions_ok(
            width as int,
            height as int,
        ) && denominator >= 1 ==> #[trigger] codec.requires(
            (pixels, width, height, numerator, denominator),
        )
}

/// The quality of the attempt with the given index in a search that
/// started at `start`.
pub open spec fn attempt_quality(start: WebpQualityView, index: int) -> WebpQualityView {
    WebpQualityView { initial: start.initial, retries: (start.retries + index) as nat }
}

/// Whether `attempts` is a run of the lossy search from `start`: each
/// attempt is what the codec gave at the quality of its index, each but
/// the last was over budget at a quality above the floor, and the last
/// fits the budget or is at the floor.
pub open spec fn lossy_search_run<F: Fn(&Vec<u8>, u32, u32, u64, u64) -> Vec<u8>>(
    codec: &F,
    pixels: &Vec<u8>,
    width: u32,
    height: u32,
    start: WebpQualityView,
    target: Option<usize>,
    attempts: Seq<Vec<u8>>,
) -> bool {
    &&& attempts.len() >= 1
    &&& forall|i: int|
        0 <= i < attempts.len() ==> {
            let quality = attempt_quality(start, i);
            &&& codec.ensures(
                (
                    pixels,
                    width,
                    height,
                    quality.numerator() as u64,
                    quality.denominator() as u64,
                ),
                #[trigger] attempts[i],
            )
            &&& (webp_step(quality, attempts[i]@.len(), target) is Retry) == (i < attempts.len()
                - 1)
        }
}

/// What the lossy encoder promises of its result: an error exactly for
/// dimensions that WebP cannot hold, and otherwise the last attempt of a
/// run of the search on the bitmap's RGB pixels.
pub open spec fn lossy_post<F: Fn(&Vec<u8>, u32, u32, u64, u64) -> Vec<u8>>(
    codec: &F,
    b: BitmapView,
    start: WebpQualityView,
    target: Option<usize>,
    r: Result<Vec<u8>, ConvertError>,
) -> bool {
    &&& r is Ok <==> webp_dimensions_ok(b.width as int, b.height as int)
    &&& r matches Err(e) ==> e == ConvertError::Encode
    &&& r matches Ok(bytes) ==> exists|pixels: &Vec<u8>, attempts: Seq<Vec<u8>>|
        pixels@ == rgb_pixels(b) && #[trigger] lossy_search_run(
            codec,
            pixels,
            b.width as u32,
            b.height as u32,
            start,
            target,
            attempts,
        ) && attempts.last() == bytes
}

/// Encodes a bitmap as WebP with loss, from `quality` downwards: while the
/// bytes exceed the budget and the quality is above the floor, the quality
/// drops to four fifths and the codec is called again. Fails for
/// dimensions that WebP cannot hold, without calling the codec.
pub fn encode_webp_lossy<F: Fn(&Vec<u8>, u32, u32, u64, u64) -> Vec<u8>>(
    image: &Bitmap,
    quality: WebpQuality,
    target_size_bytes: Option<usize>,
    codec: &F,
) -> (r: Result<Vec<u8>, ConvertError>)
    requires
        lossy_codec_ready(codec),
    ensures
        lossy_post(codec, image@, quality@, target_size_bytes, r),
{
    let width = image.width();
    let height = image.height();
    if width == 0 || height == 0 || width > WEBP_MAX_DIMENSION || height > WEBP_MAX_DIMENSION {
        return Err(ConvertError::Encode);
    }
    let pixels = image.to_rgb8();
    let mut current = quality;
    let ghost mut attempts: Seq<Vec<u8>> = Seq::empty();
    loop
        invariant
            lossy_codec_ready(codec),
            webp_dimensions_ok(width as int, height as int),
            pixels@.len() == 3 * (width as nat * height as nat),
            pixels@ == rgb_pixels(image@),
            width == image@.width,
            height == image@.height,
            current@ == attempt_quality(quality@, attempts.len() as int),
            forall|i: int|
                0 <= i < attempts.len() ==> {
                    let q = attempt_quality(quality@, i);
                    &&& codec.ensures(
                        (&pixels, width, height, q.numerator() as u64, q.denominator() as u64),
                        #[trigger] attempts[i],
                    )
                    &&& webp_step(q, attempts[i]@.len(), target_size_bytes) is Retry
                },
        decreases 15 - current@.retries,
    {
        let numerator = current.numerator();
        let denominator = current.denominator();
        let retries = current.retries();
        let bytes = codec(&pixels, width, height, numerator, denominator);
        let ghost before = attempts;
        proof {
            attempts = attempts.push(bytes);
        }
        match next_webp_step(current, bytes.len(), target_size_bytes) {
            SearchStep::Retry(next) => {
                current = next;
            },
            _ => {
                proof {
                    assert forall|i: int| 0 <= i < attempts.len() implies {
                        let q = attempt_quality(quality@, i);
                        &&& codec.ensures(
                            (&pixels, width, height, q.numerator() as u64, q.denominator() as u64),
                            #[trigger] attempts[i],
                        )
                        &&& (webp_step(q, attempts[i]@.len(), target_size_bytes) is Retry) == (i
                            < attempts.len() - 1)
                    } by {
                        if i < before.len() {
                            assert(attempts[i] == before[i]);
                        }
                    }
                    assert(image@.width as u32 == width && image@.height as u32 == height);
                    assert(attempts.last() == bytes);
                    assert(lossy_search_run(
                        codec,
                        &pixels,
                        image@.width as u32,
                        image@.height as u32,
                        quality@,
                        target_size_bytes,
                        attempts,
                    ));
                }
                return Ok(bytes);
            },
        }
    }
}

/// Whether the smart mode weighs a lossless encode against the lossy one:
/// where the caller prefers quality, and for every small image.
pub open spec fn wants_lossless(prefer_quality: bool, pixel_count: nat) -> bool {
    prefer_quality || pixel_count < SMALL_IMAGE_PIXELS
}

/// Whether a lossless encode is close enough to the budget to be
/// preferred: no more than a fifth above it.
pub open spec fn lossless_acceptable(len: nat, target: nat) -> bool {
    10 * len <= 12 * target
}

/// The bytes that the smart mode settles on, given the lossy bytes and the
/// lossless encode, where one was made and succeeded.
pub open spec fn smart_choice(lossy: Seq<u8>, lossless: Option<Seq<u8>>, target: nat) -> Seq<u8> {
    match lossless {
        Some(bytes) => if lossless_acceptable(bytes.len(), target) {
            bytes
        } else {
            lossy
        },
        None => lossy,
    }
}

/// The lossless encode that the smart mode weighs for a bitmap, if any.
pub open spec fn smart_candidate(b: BitmapView, prefer_quality: bool) -> Option<Seq<u8>> {
    if wants_lossless(prefer_quality, b.pixel_count()) {
        match webp_lossless_result(b) {
            Ok(bytes) => Some(bytes),
            Err(_) => None,
        }
    } else {
        None
    }
}

/// Decides whether the smart mode makes a lossless encode as well.
pub fn should_try_lossless(prefer_quality: bool, pixel_count: u32) -> (wanted: bool)
    ensures
        wanted == wants_lossless(prefer_quality, pixel_count as nat),
{
    prefer_quality || pixel_count < SMALL_IMAGE_PIXELS
}

/// Chooses between the lossy bytes and a lossless encode: the lossless one
/// where it is no more than a fifth above the budget.
pub fn choose_webp_output(lossy: Vec<u8>, lossless: Option<Vec<u8>>, target_size_bytes: usize) -> (out:
    Vec<u8>)
    ensures
        out@ == smart_choice(
            lossy@,
            match lossless {
                Some(bytes) => Some(bytes@),
                None => None,
            },
            target_size_bytes as nat,
        ),
{
    match lossless {
        Some(bytes) => {
            if 10 * (bytes.len() as u128) <= 12 * (target_size_bytes as u128) {
                bytes
            } else {
                lossy
            }
        },
        None => lossy,
    }
}

/// What the smart mode promises of its result: an error exactly for
/// dimensions that WebP cannot hold, and otherwise the choice between the
/// last attempt of a run of the lossy search, from the quality of the
/// budget's tier, and the lossless encode that is weighed against it.
pub open spec fn smart_post<F: Fn(&Vec<u8>, u32, u32, u64, u64) -> Vec<u8>>(
    codec: &F,
    b: BitmapView,
    target: usize,
    prefer_quality: bool,
    r: Result<Vec<u8>, ConvertError>,
) -> bool {
    &&& r is Ok <==> webp_dimensions_ok(b.width as int, b.height as int)
    &&& r matches Err(e) ==> e == ConvertError::Encode
    &&& r matches Ok(bytes) ==> exists|pixels: &Vec<u8>, attempts: Seq<Vec<u8>>|
        pixels@ == rgb_pixels(b) && #[trigger] lossy_search_run(
            codec,
            pixels,
            b.width as u32,
            b.height as u32,
            WebpQualityView { initial: webp_initial_quality(target as nat), retries: 0 },
            Some(target),
            attempts,
        ) && bytes@ == smart_choice(
            attempts.last()@,
            smart_candidate(b, prefer_quality),
            target as nat,
        )
}

/// Encodes a bitmap as WebP within a budget. The lossy search runs first,
/// from the quality of the budget's tier. Where quality is preferred, or
/// the image is small, a lossless encode is made as well and preferred if
/// it is no more than a fifth above the budget.
pub fn encode_webp_smart<F: Fn(&Vec<u8>, u32, u32, u64, u64) -> Vec<u8>>(
    image: &Bitmap,
    target_size_bytes: usize,
    prefer_quality: bool,
    codec: &F,
) -> (r: Result<Vec<u8>, ConvertError>)
    requires
        lossy_codec_ready(codec),
    ensures
        smart_post(codec, image@, target_size_bytes, prefer_quality, r),
{
    let start = WebpQuality::for_target(target_size_bytes);
    let lossy = match encode_webp_lossy(image, start, Some(target_size_bytes), codec) {
        Ok(bytes) => bytes,
        Err(e) => {
            return Err(e);
        },
    };
    let lossless = if should_try_lossless(prefer_quality, image.pixel_count()) {
        match encode_webp_lossless(image) {
            Ok(bytes) => Some(bytes),
            Err(_) => None,
        }
    } else {
        None
    };
    Ok(choose_webp_output(lossy, lossless, target_size_bytes))
}

/// Where the first lossy attempt fits the budget, the search is done: the
/// quality is the one it started with and no decay takes place.
pub proof fn lemma_webp_first_fit_is_kept(quality: WebpQualityView, len: nat, target: usize)
    requires
        len <= target,
    ensures
        webp_step(quality, len, Some(target)) == SearchStep::<WebpQualityView>::Done,
{
}

/// A run of the lossy search is as long as the first attempt that fits or
/// is at the floor: where the first attempt fits the budget, it is the
/// only one, and it is within the budget.
pub proof fn lemma_webp_run_stops_at_first_fit<F: Fn(&Vec<u8>, u32, u32, u64, u64) -> Vec<u8>>(
    codec: &F,
    pixels: &Vec<u8>,
    width: u32,
    height: u32,
    start: WebpQualityView,
    target: usize,
    attempts: Seq<Vec<u8>>,
)
    requires
        lossy_search_run(codec, pixels, width, height, start, Some(target), attempts),
        attempts[0]@.len() <= target,
    ensures
        attempts.len() == 1,
        attempts.last()@.len() <= target,
{
    assert(attempt_quality(start, 0) == start);
    assert(!(webp_step(start, attempts[0]@.len(), Some(target)) is Retry));
}

/// A run of the lossy search is bounded: from a fresh quality of any
/// percentage it makes at most sixteen attempts.
pub proof fn lemma_webp_run_is_bounded<F: Fn(&Vec<u8>, u32, u32, u64, u64) -> Vec<u8>>(
    codec: &F,
    pixels: &Vec<u8>,
    width: u32,
    height: u32,
    start: WebpQualityView,
    target: Option<usize>,
    attempts: Seq<Vec<u8>>,
)
    requires
        start.initial <= 255,
        start.retries == 0,
        lossy_search_run(codec, pixels, width, height, start, target, attempts),
    ensures
        attempts.len() <= MAX_WEBP_RETRIES + 1,
{
    if attempts.len() > 16 {
        let quality = attempt_quality(start, 15);
        assert(webp_step(quality, attempts[15]@.len(), target) is Retry);
        lemma_webp_decay_reaches_floor(quality);
    }
}

/// Whether a lossy codec is a function of what it is given: equal pixels,
/// dimensions and quality give equal bytes.
pub open spec fn codec_is_deterministic<F: Fn(&Vec<u8>, u32, u32, u64, u64) -> Vec<u8>>(
    codec: &F,
) -> bool {
    forall|
        left: &Vec<u8>,
        right: &Vec<u8>,
        width: u32,
        height: u32,
        numerator: u64,
        denominator: u64,
        left_out: Vec<u8>,
        right_out: Vec<u8>,
    |
        left@ == right@ && #[trigger] codec.ensures((left, width, height, numerator, denominator), left_out)
            && #[trigger] codec.ensures((right, width, height, numerator, denominator), right_out) ==> left_out@
            == right_out@
}

/// With a deterministic codec, two runs of the lossy search on equal
/// pixels make the same number of attempts and end on the same bytes.
pub proof fn lemma_lossy_runs_agree<F: Fn(&Vec<u8>, u32, u32, u64, u64) -> Vec<u8>>(
    codec: &F,
    left: &Vec<u8>,
    right: &Vec<u8>,
    width: u32,
    height: u32,
    start: WebpQualityView,
    target: Option<usize>,
    left_run: Seq<Vec<u8>>,
    right_run: Seq<Vec<u8>>,
)
    requires
        codec_is_deterministic(codec),
        left@ == right@,
        lossy_search_run(codec, left, width, height, start, target, left_run),
        lossy_search_run(codec, right, width, height, start, target, right_run),
    ensures
        left_run.len() == right_run.len(),
        left_run.last()@ == right_run.last()@,
{
    assert forall|i: int| 0 <= i < left_run.len() && i < right_run.len() implies (#[trigger] left_run[i])@ == (
    #[trigger] right_run[i])@ by {
        let q = attempt_quality(start, i);
        assert(codec.ensures(
            (left, width, height, q.numerator() as u64, q.denominator() as u64),
            left_run[i],
        ));
        assert(codec.ensures(
            (right, width, height, q.numerator() as u64, q.denominator() as u64),
            right_run[i],
        ));
    }
    if left_run.len() < right_run.len() {
        let i = left_run.len() - 1;
        assert(left_run[i]@ == right_run[i]@);
    }
    if right_run.len() < left_run.len() {
        let i = right_run.len() - 1;
        assert(left_run[i]@ == right_run[i]@);
    }
    let last = left_run.len() - 1;
    assert(left_run[last]@ == right_run[last]@);
}

/// With a deterministic codec the smart mode is deterministic: any two
/// results for the same bitmap, budget and preference are the same bytes
/// or the same error.
pub proof fn lemma_smart_is_deterministic<F: Fn(&Vec<u8>, u32, u32, u64, u64) -> Vec<u8>>(
    codec: &F,
    b: BitmapView,
    target: usize,
    prefer_quality: bool,
    first: Result<Vec<u8>, ConvertError>,
    second: Result<Vec<u8>, ConvertError>,
)
    requires
        codec_is_deterministic(codec),
        smart_post(codec, b, target, prefer_quality, first),
        smart_post(codec, b, target, prefer_quality, second),
    ensures
        bytes_view(first) == bytes_view(second),
{
    if first is Ok {
        let start = WebpQualityView { initial: webp_initial_quality(target as nat), retries: 0 };
        let (left, left_run) = choose|pixels: &Vec<u8>, attempts: Seq<Vec<u8>>|
            pixels@ == rgb_pixels(b) && #[trigger] lossy_search_run(
                codec,
                pixels,
                b.width as u32,
                b.height as u32,
                start,
                Some(target),
                attempts,
            ) && first->Ok_0@ == smart_choice(
                attempts.last()@,
                smart_candidate(b, prefer_quality),
                target as nat,
            );
        let (right, right_run) = choose|pixels: &Vec<u8>, attempts: Seq<Vec<u8>>|
            pixels@ == rgb_pixels(b) && #[trigger] lossy_search_run(
                codec,
                pixels,
                b.width as u32,
                b.height as u32,
                start,
                Some(target),
                attempts,
            ) && second->Ok_0@ == smart_choice(
                attempts.last()@,
                smart_candidate(b, prefer_quality),
                target as nat,
            );
        lemma_lossy_runs_agree(
            codec,
            left,
            right,
            b.width as u32,
            b.height as u32,
            start,
            Some(target),
            left_run,
            right_run,
        );
    }
}

} // verus!
