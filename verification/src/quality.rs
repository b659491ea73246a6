//! The quality search of the lossy encoders: where it starts, how quality
//! decays from one attempt to the next, and when it stops.
//!
//! An attempt at some quality yields a byte count. The search is done when
//! the bytes fit the budget, decays the quality by a factor of four fifths
//! while it is still above the floor, and otherwise settles for the last
//! attempt as the best effort.

use vstd::prelude::*;

verus! {

/// The quality at or below which no further attempt is made.
pub const QUALITY_FLOOR: u8 = 10;

/// Targets below this many bytes start at the lowest tier of quality.
pub const SMALL_TARGET: usize = 50_000;

/// Targets below this many bytes, and not small, start at the middle tier.
pub const MEDIUM_TARGET: usize = 200_000;

/// What follows an attempt of the search.
#[derive(Debug, PartialEq, Eq)]
pub enum SearchStep<Q> {
    /// The attempt met the budget, or there is no budget.
    Done,
    /// The attempt is over budget, but the quality has reached the floor:
    /// the attempt stands as the best effort.
    DoneBestEffort,
    /// The attempt is over budget: try again at this quality.
    Retry(Q),
}

/// Whether a byte count exceeds a budget. Without a budget nothing does.
pub open spec fn over_budget(len: nat, target: Option<usize>) -> bool {
    target matches Some(t) && len > t
}

/// The quality at which the JPEG search starts for a budget.
pub open spec fn jpeg_initial_quality(target: nat) -> nat {
    if target < SMALL_TARGET {
        40
    } else if target < MEDIUM_TARGET {
        60
    } else {
        80
    }
}

/// The whole-number quality that follows `quality`: four fifths of it,
/// rounded down.
pub open spec fn decayed(quality: int) -> int {
    quality * 4 / 5
}

/// The quality after a number of decays.
pub open spec fn quality_after(quality: int, retries: nat) -> int
    decreases retries,
{
    if retries == 0 {
        quality
    } else {
        decayed(quality_after(quality, (retries - 1) as nat))
    }
}

/// What follows a JPEG attempt at `quality` that gave `len` bytes.
pub open spec fn jpeg_step(quality: u8, len: nat, target: Option<usize>) -> SearchStep<u8> {
    if !over_budget(len, target) {
        SearchStep::Done
    } else if quality > QUALITY_FLOOR {
        SearchStep::Retry(decayed(quality as int) as u8)
    } else {
        SearchStep::DoneBestEffort
    }
}

/// The quality at which the JPEG search starts for a budget.
pub fn initial_jpeg_quality(target_bytes: usize) -> (quality: u8)
    ensures
        quality == jpeg_initial_quality(target_bytes as nat),
{
    if target_bytes < SMALL_TARGET {
        40
    } else if target_bytes < MEDIUM_TARGET {
        60
    } else {
        80
    }
}

/// Four fifths of a quality, rounded down.
pub fn decay_quality(quality: u8) -> (next: u8)
    ensures
        next == decayed(quality as int),
        quality > 0 ==> next < quality,
{
    let wide: u16 = quality as u16 * 4 / 5;
    wide as u8
}

/// Decides what follows a JPEG attempt at `quality` that gave `encoded_len`
/// bytes.
pub fn next_jpeg_step(quality: u8, encoded_len: usize, target: Option<usize>) -> (step: SearchStep<
    u8,
>)
    ensures
        step == jpeg_step(quality, encoded_len as nat, target),
{
    match target {
        Some(t) => {
            if encoded_len <= t {
                SearchStep::Done
            } else if quality > QUALITY_FLOOR {
                SearchStep::Retry(decay_quality(quality))
            } else {
                SearchStep::DoneBestEffort
            }
        },
        None => SearchStep::Done,
    }
}

/// Each decay multiplies the quality by four fifths and rounds down, so it
/// strictly lowers any positive quality.
pub proof fn lemma_decay_is_four_fifths(quality: int)
    requires
        quality >= 0,
    ensures
        5 * decayed(quality) <= 4 * quality < 5 * decayed(quality) + 5,
        decayed(quality) >= 0,
        quality > 0 ==> decayed(quality) < quality,
{
}

/// A lower quality never decays to a higher one.
pub proof fn lemma_quality_after_monotonic(low: int, high: int, retries: nat)
    requires
        0 <= low <= high,
    ensures
        0 <= quality_after(low, retries) <= quality_after(high, retries),
    decreases retries,
{
    if retries > 0 {
        lemma_quality_after_monotonic(low, high, (retries - 1) as nat);
    }
}

/// The search is bounded: from a quality of at most 100 the floor is
/// reached after ten decays, and from any quality that fits a byte after
/// fifteen.
pub proof fn lemma_decay_reaches_floor(quality: int)
    requires
        0 <= quality <= 255,
    ensures
        quality_after(quality, 15) <= QUALITY_FLOOR,
        quality <= 100 ==> quality_after(quality, 10) <= QUALITY_FLOOR,
{
    lemma_quality_after_monotonic(quality, 255, 15);
    assert(quality_after(255, 15) <= 10) by {
        reveal_with_fuel(quality_after, 16);
    }
    if quality <= 100 {
        lemma_quality_after_monotonic(quality, 100, 10);
        assert(quality_after(100, 10) <= 10) by {
            reveal_with_fuel(quality_after, 11);
        }
    }
}

/// `base` to the power `exp`.
pub open spec fn power(base: nat, exp: nat) -> nat
    decreases exp,
{
    if exp == 0 {
        1
    } else {
        base * power(base, (exp - 1) as nat)
    }
}

/// The most decays a WebP quality can have gone through.
pub const MAX_WEBP_RETRIES: u8 = 15;

/// What a WebP quality is: a starting percentage and the number of decays
/// since. Its value is the fraction `initial * 4^retries / 5^retries`.
pub struct WebpQualityView {
    pub initial: nat,
    pub retries: nat,
}

impl WebpQualityView {
    /// The numerator of the quality as a fraction.
    pub open spec fn numerator(self) -> nat {
        self.initial * power(4, self.retries)
    }

    /// The denominator of the quality as a fraction.
    pub open spec fn denominator(self) -> nat {
        power(5, self.retries)
    }

    /// Whether the quality is above the floor.
    pub open spec fn above_floor(self) -> bool {
        self.numerator() > QUALITY_FLOOR * self.denominator()
    }

    /// The quality after one more decay: exactly four fifths of this one.
    pub open spec fn decayed(self) -> WebpQualityView {
        WebpQualityView { initial: self.initial, retries: self.retries + 1 }
    }
}

/// The quality at which the WebP search starts for a budget, in percent.
pub open spec fn webp_initial_quality(target: nat) -> nat {
    if target < SMALL_TARGET {
        50
    } else if target < MEDIUM_TARGET {
        75
    } else {
        85
    }
}

/// What follows a WebP attempt at `quality` that gave `len` bytes.
pub open spec fn webp_step(quality: WebpQualityView, len: nat, target: Option<usize>) -> SearchStep<
    WebpQualityView,
> {
    if !over_budget(len, target) {
        SearchStep::Done
    } else if quality.above_floor() {
        SearchStep::Retry(quality.decayed())
    } else {
        SearchStep::DoneBestEffort
    }
}

/// The view of a step of the WebP search.
pub open spec fn webp_step_view(step: SearchStep<WebpQuality>) -> SearchStep<WebpQualityView> {
    match step {
        SearchStep::Done => SearchStep::Done,
        SearchStep::DoneBestEffort => SearchStep::DoneBestEffort,
        SearchStep::Retry(q) => SearchStep::Retry(q@),
    }
}

proof fn lemma_powers(exp: nat)
    requires
        exp <= 15,
    ensures
        1 <= power(4, exp) <= 1_073_741_824,
        1 <= power(5, exp) <= 30_517_578_125,
        power(4, 15) == 1_073_741_824,
        power(5, 15) == 30_517_578_125,
        exp < 15 ==> 4 * power(4, exp) <= 1_073_741_824 && 5 * power(5, exp) <= 30_517_578_125,
{
    reveal_with_fuel(power, 2);
    assert(power(4, 0) == 1 && power(5, 0) == 1);
    assert(power(4, 1) == 4 && power(5, 1) == 5);
    assert(power(4, 2) == 16 && power(5, 2) == 25);
    assert(power(4, 3) == 64 && power(5, 3) == 125);
    assert(power(4, 4) == 256 && power(5, 4) == 625);
    assert(power(4, 5) == 1_024 && power(5, 5) == 3_125);
    assert(power(4, 6) == 4_096 && power(5, 6) == 15_625);
    assert(power(4, 7) == 16_384 && power(5, 7) == 78_125);
    assert(power(4, 8) == 65_536 && power(5, 8) == 390_625);
    assert(power(4, 9) == 262_144 && power(5, 9) == 1_953_125);
    assert(power(4, 10) == 1_048_576 && power(5, 10) == 9_765_625);
    assert(power(4, 11) == 4_194_304 && power(5, 11) == 48_828_125);
    assert(power(4, 12) == 16_777_216 && power(5, 12) == 244_140_625);
    assert(power(4, 13) == 67_108_864 && power(5, 13) == 1_220_703_125);
    assert(power(4, 14) == 268_435_456 && power(5, 14) == 6_103_515_625);
    assert(power(4, 15) == 1_073_741_824 && power(5, 15) == 30_517_578_125);
}

/// A WebP quality on the fine scale: a percentage that has decayed by four
/// fifths some number of times, held exactly as a fraction.
#[derive(Clone, Copy, Debug)]
pub struct WebpQuality {
    initial: u8,
    retries: u8,
}

impl View for WebpQuality {
    type V = WebpQualityView;

    closed spec fn view(&self) -> WebpQualityView {
        WebpQualityView { initial: self.initial as nat, retries: self.retries as nat }
    }
}

impl WebpQuality {
    #[verifier::type_invariant]
    spec fn inv(self) -> bool {
        self.retries <= MAX_WEBP_RETRIES
    }

    /// A quality of `percent`, not yet decayed.
    pub fn new(percent: u8) -> (quality: WebpQuality)
        ensures
            quality@ == (WebpQualityView { initial: percent as nat, retries: 0 }),
    {
        WebpQuality { initial: percent, retries: 0 }
    }

    /// The quality at which the search starts for a budget.
    pub fn for_target(target_bytes: usize) -> (quality: WebpQuality)
        ensures
            quality@ == (WebpQualityView {
                initial: webp_initial_quality(target_bytes as nat),
                retries: 0,
            }),
    {
        if target_bytes < SMALL_TARGET {
            WebpQuality::new(50)
        } else if target_bytes < MEDIUM_TARGET {
            WebpQuality::new(75)
        } else {
            WebpQuality::new(85)
        }
    }

    /// The percentage that the quality started from.
    pub fn initial(&self) -> (percent: u8)
        ensures
            percent == self@.initial,
    {
        self.initial
    }

    /// The number of decays since the start.
    pub fn retries(&self) -> (count: u8)
        ensures
            count == self@.retries,
            count <= MAX_WEBP_RETRIES,
    {
        proof {
            use_type_invariant(self);
        }
        self.retries
    }

    /// The numerator of the quality as a fraction of the denominator.
    pub fn numerator(&self) -> (n: u64)
        ensures
            n == self@.numerator(),
    {
        proof {
            use_type_invariant(self);
        }
        let mut n: u64 = self.initial as u64;
        let mut i: u8 = 0;
        proof {
            assert(power(4, 0) == 1);
            assert(self.initial as nat * power(4, 0) == self.initial as nat) by (nonlinear_arith)
                requires
                    power(4, 0) == 1,
            ;
        }
        while i < self.retries
            invariant
                i <= self.retries <= 15,
                n == self.initial as nat * power(4, i as nat),
            decreases self.retries - i,
        {
            proof {
                lemma_powers(i as nat);
                assert(self.initial as nat * power(4, i as nat) <= 255 * 1_073_741_824)
                    by (nonlinear_arith)
                    requires
                        self.initial <= 255,
                        power(4, i as nat) <= 1_073_741_824,
                ;
                assert(self.initial as nat * power(4, (i + 1) as nat) == 4 * (self.initial as nat
                    * power(4, i as nat))) by (nonlinear_arith)
                    requires
                        power(4, (i + 1) as nat) == 4 * power(4, i as nat),
                ;
            }
            n = n * 4;
            i = i + 1;
        }
        n
    }

    /// The denominator of the quality as a fraction.
    pub fn denominator(&self) -> (d: u64)
        ensures
            d == self@.denominator(),
            d >= 1,
    {
        proof {
            use_type_invariant(self);
        }
        let mut d: u64 = 1;
        let mut i: u8 = 0;
        proof {
            assert(power(5, 0) == 1);
        }
        while i < self.retries
            invariant
                i <= self.retries <= 15,
                d == power(5, i as nat),
                d >= 1,
            decreases self.retries - i,
        {
            proof {
                lemma_powers(i as nat);
            }
            d = d * 5;
            i = i + 1;
        }
        d
    }

    /// Whether the quality is above the floor.
    pub fn above_floor(&self) -> (above: bool)
        ensures
            above == self@.above_floor(),
            above ==> self@.retries < MAX_WEBP_RETRIES,
    {
        proof {
            use_type_invariant(self);
            lemma_powers(self.retries as nat);
            assert(self.initial as nat * power(4, self.retries as nat) <= 255 * power(
                4,
                self.retries as nat,
            )) by (nonlinear_arith)
                requires
                    self.initial <= 255,
            ;
        }
        let n = self.numerator();
        let d = self.denominator();
        n > 10 * d
    }
}

/// Decides what follows a WebP attempt at `quality` that gave `encoded_len`
/// bytes.
pub fn next_webp_step(quality: WebpQuality, encoded_len: usize, target: Option<usize>) -> (step:
    SearchStep<WebpQuality>)
    ensures
        webp_step_view(step) == webp_step(quality@, encoded_len as nat, target),
        step matches SearchStep::Retry(next) ==> next@.retries <= MAX_WEBP_RETRIES,
{
    match target {
        Some(t) => {
            if encoded_len <= t {
                SearchStep::Done
            } else if quality.above_floor() {
                SearchStep::Retry(WebpQuality { initial: quality.initial, retries: quality.retries + 1 })
            } else {
                SearchStep::DoneBestEffort
            }
        },
        None => SearchStep::Done,
    }
}

/// A decayed WebP quality is exactly four fifths of the one before.
pub proof fn lemma_webp_decay_is_four_fifths(quality: WebpQualityView)
    ensures
        5 * quality.decayed().numerator() * quality.denominator() == 4 * quality.numerator()
            * quality.decayed().denominator(),
{
    reveal_with_fuel(power, 2);
    let n = quality.numerator();
    let d = quality.denominator();
    let fours = power(4, quality.retries);
    let fives = power(5, quality.retries);
    assert(quality.decayed().numerator() == quality.initial * (4 * fours));
    assert(quality.decayed().denominator() == 5 * fives);
    assert(5 * (quality.initial * (4 * fours)) * fives == 4 * (quality.initial * fours) * (5 * fives))
        by (nonlinear_arith);
}

/// No WebP quality that started from a percentage within a byte is above the
/// floor after fifteen decays, so a search makes at most sixteen attempts.
pub proof fn lemma_webp_decay_reaches_floor(quality: WebpQualityView)
    requires
        quality.initial <= 255,
        quality.retries == MAX_WEBP_RETRIES,
    ensures
        !quality.above_floor(),
{
    lemma_powers(15);
    assert(quality.initial * power(4, 15) <= 255 * 1_073_741_824) by (nonlinear_arith)
        requires
            quality.initial <= 255,
            power(4, 15) == 1_073_741_824,
    ;
}

} // verus!
