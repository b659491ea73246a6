//! Overflow-free integer arithmetic used by the size planners: a full
//! 128 x 128 -> 256 bit product, comparison of two such products, and the
//! rounded scaling of a length by a square-root ratio.

use vstd::prelude::*;

verus! {

/// Two to the power sixty-four, the limb base of the wide product.
pub open spec fn limb_base() -> int {
    0x1_0000_0000_0000_0000
}

/// Two to the power one hundred and twenty-eight.
pub open spec fn wide_base() -> int {
    limb_base() * limb_base()
}

/// The mathematical value of a 256-bit number held as a high and a low half.
pub open spec fn wide_value(hi: u128, lo: u128) -> int {
    hi as int * wide_base() + lo as int
}

proof fn lemma_limb_product(a1: int, a0: int, b1: int, b0: int, base: int)
    ensures
        (a1 * base + a0) * (b1 * base + b0) == (a1 * b1) * (base * base) + (a1 * b0 + a0 * b1)
            * base + a0 * b0,
{
    let x = a1 * base;
    let y = b1 * base;
    assert((x + a0) * (y + b0) == x * y + x * b0 + a0 * y + a0 * b0) by (nonlinear_arith);
    assert(x * y == (a1 * b1) * (base * base)) by (nonlinear_arith)
        requires
            x == a1 * base,
            y == b1 * base,
    ;
    assert(x * b0 == (a1 * b0) * base) by (nonlinear_arith)
        requires
            x == a1 * base,
    ;
    assert(a0 * y == (a0 * b1) * base) by (nonlinear_arith)
        requires
            y == b1 * base,
    ;
    assert((a1 * b0 + a0 * b1) * base == (a1 * b0) * base + (a0 * b1) * base)
        by (nonlinear_arith);
}

proof fn lemma_product_bound(x: int, y: int, bound: int)
    requires
        0 <= x < bound,
        0 <= y < bound,
    ensures
        0 <= x * y <= (bound - 1) * (bound - 1),
{
    assert(0 <= x * y <= (bound - 1) * (bound - 1)) by (nonlinear_arith)
        requires
            0 <= x < bound,
            0 <= y < bound,
    ;
}

/// The full product of two 128-bit numbers as a (high, low) pair.
pub fn mul_wide(a: u128, b: u128) -> (r: (u128, u128))
    ensures
        wide_value(r.0, r.1) == a as int * b as int,
{
    let base: u128 = 0x1_0000_0000_0000_0000;
    let a0: u128 = a % base;
    let a1: u128 = a / base;
    let b0: u128 = b % base;
    let b1: u128 = b / base;
    proof {
        lemma_product_bound(a0 as int, b0 as int, limb_base());
        lemma_product_bound(a0 as int, b1 as int, limb_base());
        lemma_product_bound(a1 as int, b0 as int, limb_base());
        lemma_product_bound(a1 as int, b1 as int, limb_base());
    }
    let low_low: u128 = a0 * b0;
    let low_high: u128 = a0 * b1;
    let high_low: u128 = a1 * b0;
    let high_high: u128 = a1 * b1;
    let s1: u128 = low_low / base + low_high % base + high_low % base;
    let s2: u128 = s1 / base + low_high / base + high_low / base + high_high % base;
    let s3: u128 = s2 / base + high_high / base;
    let lo: u128 = (s1 % base) * base + low_low % base;
    proof {
        lemma_limb_product(a1 as int, a0 as int, b1 as int, b0 as int, limb_base());
        assert(a as int == a1 as int * limb_base() + a0 as int);
        assert(b as int == b1 as int * limb_base() + b0 as int);
        let bb = limb_base();
        assert(high_high as int <= (bb - 1) * (bb - 1));
        assert(s3 as int <= (high_high as int) / bb + 3);
        assert((bb - 1) * (bb - 1) == 0xFFFF_FFFF_FFFF_FFFE_0000_0000_0000_0001) by (nonlinear_arith)
            requires
                bb == 0x1_0000_0000_0000_0000,
        ;
        assert(s3 < bb);
    }
    let hi: u128 = s3 * base + s2 % base;
    proof {
        let bb = limb_base();
        let total = (high_high as int) * (bb * bb) + (high_low as int + low_high as int) * bb + low_low as int;
        assert(total == a as int * b as int) by {
            assert(a1 as int * b0 as int + a0 as int * b1 as int == high_low as int + low_high as int);
        }
        assert(hi as int * (bb * bb) + lo as int == total) by (nonlinear_arith)
            requires
                bb == 0x1_0000_0000_0000_0000,
                hi as int == s3 as int * bb + (s2 as int) % bb,
                lo as int == ((s1 as int) % bb) * bb + (low_low as int) % bb,
                s1 as int == (low_low as int) / bb + (low_high as int) % bb + (high_low as int) % bb,
                s2 as int == (s1 as int) / bb + (low_high as int) / bb + (high_low as int) / bb + (
                high_high as int) % bb,
                s3 as int == (s2 as int) / bb + (high_high as int) / bb,
                total == (high_high as int) * (bb * bb) + (high_low as int + low_high as int) * bb + low_low as int,
        ;
    }
    (hi, lo)
}

/// Whether `a * b <= c * d`, decided without overflow.
pub fn product_le(a: u128, b: u128, c: u128, d: u128) -> (r: bool)
    ensures
        r == (a as int * b as int <= c as int * d as int),
{
    let (h1, l1) = mul_wide(a, b);
    let (h2, l2) = mul_wide(c, d);
    proof {
        assert(wide_base() == u128::MAX + 1) by (nonlinear_arith)
            requires
                wide_base() == 0x1_0000_0000_0000_0000 * 0x1_0000_0000_0000_0000,
        ;
        if h1 < h2 {
            assert(h1 as int * wide_base() + wide_base() <= h2 as int * wide_base())
                by (nonlinear_arith)
                requires
                    h1 as int + 1 <= h2 as int,
                    wide_base() > 0,
            ;
        }
        if h2 < h1 {
            assert(h2 as int * wide_base() + wide_base() <= h1 as int * wide_base())
                by (nonlinear_arith)
                requires
                    h2 as int + 1 <= h1 as int,
                    wide_base() > 0,
            ;
        }
    }
    h1 < h2 || (h1 == h2 && l1 <= l2)
}

/// `n` is the integer nearest to `len * (k / 20) * sqrt(num / den)`, halves
/// rounded up. With `x` for that real number, `4 x^2 = len^2 k^2 num / (100 den)`,
/// and `n` is nearest to `x` exactly when `2n - 1 <= 2x < 2n + 1`.
pub open spec fn is_nearest_scaled(n: int, len: int, k: int, num: int, den: int) -> bool {
    &&& n >= 0
    &&& n == 0 || (2 * n - 1) * (2 * n - 1) * (100 * den) <= len * len * (k * k) * num
    &&& len * len * (k * k) * num < (2 * n + 1) * (2 * n + 1) * (100 * den)
}

/// The integer nearest to `len * (k / 20) * sqrt(num / den)`.
pub open spec fn nearest_scaled(len: int, k: int, num: int, den: int) -> int {
    choose|n: int| is_nearest_scaled(n, len, k, num, den)
}

/// Whether the factor `(k / 20) * sqrt(num / den)` is below one.
pub open spec fn scale_below_one(k: int, num: int, den: int) -> bool {
    den > 0 && k * k * num < 400 * den
}

/// A length scaled by `(k / 20) * sqrt(num / den)`, the factor capped at one:
/// a zero denominator and any factor of one or more leave the length as it is.
pub open spec fn scaled_length(len: int, k: int, num: int, den: int) -> int {
    if scale_below_one(k, num, den) {
        nearest_scaled(len, k, num, den)
    } else {
        len
    }
}

/// At most one integer is nearest to the scaled length.
pub proof fn lemma_nearest_scaled_unique(n1: int, n2: int, len: int, k: int, num: int, den: int)
    requires
        den > 0,
        is_nearest_scaled(n1, len, k, num, den),
        is_nearest_scaled(n2, len, k, num, den),
    ensures
        n1 == n2,
{
    let l = len * len * (k * k) * num;
    let d = 100 * den;
    if n1 < n2 {
        assert((2 * n2 - 1) * (2 * n2 - 1) * d <= l < (2 * n1 + 1) * (2 * n1 + 1) * d);
        assert(false) by (nonlinear_arith)
            requires
                (2 * n2 - 1) * (2 * n2 - 1) * d < (2 * n1 + 1) * (2 * n1 + 1) * d,
                d > 0,
                0 <= n1 < n2,
        ;
    }
    if n2 < n1 {
        assert((2 * n1 - 1) * (2 * n1 - 1) * d <= l < (2 * n2 + 1) * (2 * n2 + 1) * d);
        assert(false) by (nonlinear_arith)
            requires
                (2 * n1 - 1) * (2 * n1 - 1) * d < (2 * n2 + 1) * (2 * n2 + 1) * d,
                d > 0,
                0 <= n2 < n1,
        ;
    }
}

/// Any integer that is nearest to the scaled length is the value of
/// `nearest_scaled`.
pub proof fn lemma_nearest_scaled_is(n: int, len: int, k: int, num: int, den: int)
    requires
        den > 0,
        is_nearest_scaled(n, len, k, num, den),
    ensures
        nearest_scaled(len, k, num, den) == n,
{
    lemma_nearest_scaled_unique(n, nearest_scaled(len, k, num, den), len, k, num, den);
}

proof fn lemma_square_monotonic(a: int, b: int, d: int)
    requires
        0 <= a <= b,
        d >= 0,
    ensures
        a * a * d <= b * b * d,
{
    assert(a * a <= b * b) by (nonlinear_arith)
        requires
            0 <= a <= b,
    ;
    assert(a * a * d <= b * b * d) by (nonlinear_arith)
        requires
            a * a <= b * b,
            d >= 0,
    ;
}

/// Scales `len` by `(k / 20) * sqrt(num / den)` and rounds to the nearest
/// integer, for a factor below one.
pub fn scale_length(len: u32, k: u8, num: u64, den: u64) -> (n: u32)
    requires
        scale_below_one(k as int, num as int, den as int),
    ensures
        is_nearest_scaled(n as int, len as int, k as int, num as int, den as int),
        n == nearest_scaled(len as int, k as int, num as int, den as int),
        n <= len,
{
    let len_w: u128 = len as u128;
    let k_w: u128 = k as u128;
    assert(len_w * len_w <= 0xFFFF_FFFF * 0xFFFF_FFFF) by (nonlinear_arith)
        requires
            len_w <= 0xFFFF_FFFF,
    ;
    assert(k_w * k_w <= 255 * 255) by (nonlinear_arith)
        requires
            k_w <= 255,
    ;
    let len_sq: u128 = len_w * len_w;
    let k_sq: u128 = k_w * k_w;
    assert(len_sq * k_sq <= 0xFFFF_FFFF * 0xFFFF_FFFF * (255 * 255)) by (nonlinear_arith)
        requires
            len_sq <= 0xFFFF_FFFF * 0xFFFF_FFFF,
            k_sq <= 255 * 255,
    ;
    let weight: u128 = len_sq * k_sq;
    let d: u128 = 100 * (den as u128);
    let num_w: u128 = num as u128;
    let ghost l: int = len as int * len as int * (k as int * k as int) * num as int;
    assert(l == weight as int * num_w as int);
    let mut lo: u64 = 0;
    let mut hi: u64 = 2 * (len as u64);
    proof {
        let li = len as int;
        let ki = k as int;
        let ni = num as int;
        let di = d as int;
        let dn = den as int;
        assert(l >= 0) by (nonlinear_arith)
            requires
                l == li * li * (ki * ki) * ni,
                ni >= 0,
        ;
        if len == 0 {
            assert(l == 0) by (nonlinear_arith)
                requires
                    l == li * li * (ki * ki) * ni,
                    li == 0,
            ;
            assert((hi as int + 1) * (hi as int + 1) * di == di) by (nonlinear_arith)
                requires
                    hi == 0,
            ;
        } else {
            // The factor is below one, so l < (2 len)^2 d.
            assert(l < (2 * li) * (2 * li) * di) by (nonlinear_arith)
                requires
                    l == li * li * (ki * ki) * ni,
                    ki * ki * ni < 400 * dn,
                    di == 100 * dn,
                    li > 0,
            ;
            lemma_square_monotonic(2 * li, 2 * li + 1, di);
        }
        assert(0 * 0 * di == 0);
    }
    while lo < hi
        invariant
            lo <= hi <= 2 * len as int,
            d as int == 100 * den as int,
            d > 0,
            l == weight as int * num_w as int,
            lo as int * lo as int * d as int <= l,
            l < (hi as int + 1) * (hi as int + 1) * d as int,
        decreases hi - lo,
    {
        let mid: u64 = lo + (hi - lo + 1) / 2;
        assert(mid as int * mid as int <= 0x2_0000_0000 * 0x2_0000_0000) by (nonlinear_arith)
            requires
                0 <= mid <= 0x2_0000_0000,
        ;
        let mid_sq: u128 = (mid as u128) * (mid as u128);
        if product_le(mid_sq, d, weight, num_w) {
            lo = mid;
        } else {
            hi = mid - 1;
        }
    }
    let y: u64 = lo;
    let n: u64 = (y + 1) / 2;
    proof {
        let dd = d as int;
        let yy = y as int;
        let nn = n as int;
        assert(yy * yy * dd <= l < (yy + 1) * (yy + 1) * dd);
        if yy % 2 == 0 {
            assert(2 * nn == yy);
            if nn >= 1 {
                lemma_square_monotonic(2 * nn - 1, yy, dd);
            }
            assert((2 * nn + 1) == yy + 1);
        } else {
            assert(2 * nn - 1 == yy);
            lemma_square_monotonic(yy + 1, 2 * nn + 1, dd);
        }
        assert(is_nearest_scaled(nn, len as int, k as int, num as int, den as int));
        lemma_nearest_scaled_is(nn, len as int, k as int, num as int, den as int);
    }
    n as u32
}

} // verus!
