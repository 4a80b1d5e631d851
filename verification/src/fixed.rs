//! Fixed-point scalar arithmetic: every quantity in the crate is an `i64`
//! counting millionths of a unit.

use vstd::prelude::*;

verus! {

/// Number of fixed-point steps that make up `1.0`.
pub const SCALE: i64 = 1_000_000;

/// Truncating division by a positive divisor: rounds toward zero, exactly as
/// Rust's `/` does on `i64`.
pub open spec fn tdiv(n: int, d: int) -> int
    recommends
        d > 0,
{
    if n >= 0 {
        n / d
    } else {
        -((-n) / d)
    }
}

/// The product of two fixed-point scalars, scaled back down.
pub open spec fn fmul(a: int, b: int) -> int {
    tdiv(a * b, SCALE as int)
}

/// The quotient of two fixed-point scalars, scaled back up.
pub open spec fn fdiv(a: int, b: int) -> int
    recommends
        b > 0,
{
    tdiv(a * SCALE, b)
}

/// `v` forced into the closed interval `[lo, hi]`.
pub open spec fn clamped(v: int, lo: int, hi: int) -> int
    recommends
        lo <= hi,
{
    if v < lo {
        lo
    } else if v > hi {
        hi
    } else {
        v
    }
}

/// Truncating division of an `i64` by a positive divisor.
pub fn div_trunc(n: i64, d: i64) -> (r: i64)
    requires
        d > 0,
        n > i64::MIN,
    ensures
        r == tdiv(n as int, d as int),
{
    if n >= 0 {
        let q: u64 = (n as u64) / (d as u64);
        q as i64
    } else {
        let q: u64 = ((-n) as u64) / (d as u64);
        -(q as i64)
    }
}

/// Fixed-point multiplication, truncated toward zero.
pub fn mul_fp(a: i64, b: i64) -> (r: i64)
    requires
        -0x7fff_ffff_ffff_ffff <= a * b <= 0x7fff_ffff_ffff_ffff,
    ensures
        r == fmul(a as int, b as int),
{
    let p: i64 = a * b;
    div_trunc(p, SCALE)
}

/// Fixed-point division by a positive scalar, truncated toward zero.
pub fn div_fp(a: i64, b: i64) -> (r: i64)
    requires
        b > 0,
        -0x7fff_ffff_ffff_ffff <= a * SCALE <= 0x7fff_ffff_ffff_ffff,
    ensures
        r == fdiv(a as int, b as int),
{
    let p: i64 = a * SCALE;
    div_trunc(p, b)
}

/// Truncating division of a wide intermediate by a positive divisor; the
/// quotient must fit a machine word again.
pub fn div_trunc_wide(n: i128, d: i64) -> (r: i64)
    requires
        d > 0,
        -0x7fff_ffff_ffff_ffff * (d as int) <= n <= 0x7fff_ffff_ffff_ffff * (d as int),
    ensures
        r == tdiv(n as int, d as int),
{
    proof {
        let dd = d as int;
        let cap = 0x7fff_ffff_ffff_ffff as int;
        if n >= 0 {
            vstd::arithmetic::div_mod::lemma_div_is_ordered(n as int, cap * dd, dd);
            vstd::arithmetic::div_mod::lemma_div_multiples_vanish(cap, dd);
            vstd::arithmetic::div_mod::lemma_div_pos_is_pos(n as int, dd);
        } else {
            vstd::arithmetic::div_mod::lemma_div_is_ordered(-(n as int), cap * dd, dd);
            vstd::arithmetic::div_mod::lemma_div_multiples_vanish(cap, dd);
            vstd::arithmetic::div_mod::lemma_div_pos_is_pos(-(n as int), dd);
        }
    }
    if n >= 0 {
        let q: u128 = (n as u128) / (d as u128);
        q as i64
    } else {
        let q: u128 = ((-n) as u128) / (d as u128);
        -(q as i64)
    }
}

/// Truncating division shrinks by the divisor: a numerator within `b * d`
/// gives a quotient within `b`.
pub proof fn lemma_tdiv_quotient_bound(n: int, d: int, b: int)
    requires
        d >= 1,
        b >= 0,
        -(b * d) <= n <= b * d,
    ensures
        -b <= tdiv(n, d) <= b,
{
    assert(b * d == d * b) by (nonlinear_arith);
    if n >= 0 {
        vstd::arithmetic::div_mod::lemma_div_is_ordered(n, d * b, d);
        vstd::arithmetic::div_mod::lemma_div_multiples_vanish(b, d);
        vstd::arithmetic::div_mod::lemma_div_pos_is_pos(n, d);
    } else {
        vstd::arithmetic::div_mod::lemma_div_is_ordered(-n, d * b, d);
        vstd::arithmetic::div_mod::lemma_div_multiples_vanish(b, d);
        vstd::arithmetic::div_mod::lemma_div_pos_is_pos(-n, d);
    }
}

/// Truncating division by `d >= 1` never grows a magnitude.
pub proof fn lemma_tdiv_bound(n: int, d: int, b: int)
    requires
        d >= 1,
        b >= 0,
        -b <= n <= b,
    ensures
        -b <= tdiv(n, d) <= b,
{
    if n >= 0 {
        vstd::arithmetic::div_mod::lemma_div_pos_is_pos(n, d);
        vstd::arithmetic::div_mod::lemma_div_nonincreasing(n, d);
    } else {
        vstd::arithmetic::div_mod::lemma_div_pos_is_pos(-n, d);
        vstd::arithmetic::div_mod::lemma_div_nonincreasing(-n, d);
    }
}

/// A square is never negative.
pub proof fn lemma_square_nonneg(a: int)
    ensures
        a * a >= 0,
{
    assert(a * a >= 0) by (nonlinear_arith);
}

/// Truncating division loses less than one divisor's worth.
pub proof fn lemma_tdiv_close(n: int, d: int)
    requires
        d >= 1,
    ensures
        n - d < tdiv(n, d) * d <= n + d,
        n >= 0 ==> tdiv(n, d) * d <= n,
        n < 0 ==> tdiv(n, d) * d >= n,
{
    if n >= 0 {
        vstd::arithmetic::div_mod::lemma_fundamental_div_mod(n, d);
        vstd::arithmetic::div_mod::lemma_mod_bound(n, d);
        assert((n / d) * d == d * (n / d)) by (nonlinear_arith);
    } else {
        vstd::arithmetic::div_mod::lemma_fundamental_div_mod(-n, d);
        vstd::arithmetic::div_mod::lemma_mod_bound(-n, d);
        assert(((-n) / d) * d == d * ((-n) / d)) by (nonlinear_arith);
        assert(tdiv(n, d) * d == -(((-n) / d) * d)) by (nonlinear_arith)
            requires
                tdiv(n, d) == -((-n) / d),
        ;
    }
}

/// Magnitude bound for a product of bounded factors.
pub proof fn lemma_abs_mul_bound(a: int, b: int, ba: int, bb: int)
    requires
        ba >= 0,
        bb >= 0,
        -ba <= a <= ba,
        -bb <= b <= bb,
    ensures
        -(ba * bb) <= a * b <= ba * bb,
{
    assert(-(ba * bb) <= a * b <= ba * bb) by (nonlinear_arith)
        requires
            ba >= 0,
            bb >= 0,
            -ba <= a <= ba,
            -bb <= b <= bb,
    ;
}

/// The integer square root: the largest integer whose square does not
/// exceed `n`.
pub open spec fn sqrt_of(n: int) -> int
    recommends
        n >= 0,
    decreases n,
{
    if n <= 0 {
        0
    } else {
        let r = sqrt_of(n - 1);
        if (r + 1) * (r + 1) <= n {
            r + 1
        } else {
            r
        }
    }
}

/// `sqrt_of` is exactly characterized by the two-sided square bound.
pub proof fn lemma_sqrt_char(n: int)
    requires
        n >= 0,
    ensures
        sqrt_of(n) >= 0,
        sqrt_of(n) * sqrt_of(n) <= n,
        n < (sqrt_of(n) + 1) * (sqrt_of(n) + 1),
    decreases n,
{
    if n == 0 {
    } else {
        lemma_sqrt_char(n - 1);
        let r = sqrt_of(n - 1);
        if (r + 1) * (r + 1) <= n {
            assert(n < (r + 2) * (r + 2)) by (nonlinear_arith)
                requires
                    r >= 0,
                    n - 1 < (r + 1) * (r + 1),
            ;
        }
    }
}

/// Any integer trapped between the same two squares is the square root.
pub proof fn lemma_sqrt_unique(n: int, r: int)
    requires
        n >= 0,
        r >= 0,
        r * r <= n,
        n < (r + 1) * (r + 1),
    ensures
        r == sqrt_of(n),
{
    lemma_sqrt_char(n);
    let s = sqrt_of(n);
    if r < s {
        assert((r + 1) * (r + 1) <= s * s) by (nonlinear_arith)
            requires
                0 <= r,
                r + 1 <= s,
        ;
    }
    if s < r {
        assert((s + 1) * (s + 1) <= r * r) by (nonlinear_arith)
            requires
                0 <= s,
                s + 1 <= r,
        ;
    }
}

/// Square roots respect order.
pub proof fn lemma_sqrt_monotonic(a: int, b: int)
    requires
        0 <= a <= b,
    ensures
        sqrt_of(a) <= sqrt_of(b),
{
    lemma_sqrt_char(a);
    lemma_sqrt_char(b);
    let ra = sqrt_of(a);
    let rb = sqrt_of(b);
    if rb < ra {
        assert((rb + 1) * (rb + 1) <= ra * ra) by (nonlinear_arith)
            requires
                0 <= rb,
                rb + 1 <= ra,
        ;
    }
}

/// The integer square root of a number no larger than `2^84`.
pub fn isqrt(n: u128) -> (r: u64)
    requires
        n < 0x1000000000000000000000,
    ensures
        r == sqrt_of(n as int),
{
    let mut lo: u128 = 0;
    let mut hi: u128 = 0x40000000000;
    assert(hi * hi > n) by (nonlinear_arith)
        requires
            n < 0x1000000000000000000000,
            hi == 0x40000000000,
    ;
    while lo + 1 < hi
        invariant
            0 <= lo < hi <= 0x40000000000,
            lo * lo <= n,
            n < hi * hi,
        decreases hi - lo,
    {
        let mid = lo + (hi - lo) / 2;
        assert(lo < mid < hi);
        assert(mid * mid < 0x1000000000000000000000) by (nonlinear_arith)
            requires
                0 < mid < 0x40000000000,
        ;
        if mid * mid <= n {
            lo = mid;
        } else {
            hi = mid;
        }
    }
    proof {
        lemma_sqrt_unique(n as int, lo as int);
    }
    lo as u64
}


/// A component whose square is at most `n2` scales into `[-SCALE, SCALE]`
/// when divided by the root of `n2`.
pub proof fn lemma_unit_scale(c: int, n2: int)
    requires
        c * c <= n2,
        n2 > 0,
    ensures
        -(SCALE as int) <= tdiv(c * SCALE, sqrt_of(n2)) <= SCALE as int,
{
    let m = sqrt_of(n2);
    lemma_sqrt_char(n2);
    assert(m >= 1);
    let a = if c >= 0 {
        c
    } else {
        -c
    };
    assert(a * a == c * c) by (nonlinear_arith)
        requires
            a == c || a == -c,
    ;
    assert(a <= m) by {
        if a > m {
            assert(a * a >= (m + 1) * (m + 1)) by (nonlinear_arith)
                requires
                    a >= m + 1,
                    m >= 0,
            ;
        }
    };
    assert(a * SCALE <= m * SCALE) by (nonlinear_arith)
        requires
            a <= m,
            SCALE > 0,
    ;
    assert(a * SCALE >= 0) by (nonlinear_arith)
        requires
            a >= 0,
            SCALE > 0,
    ;
    vstd::arithmetic::div_mod::lemma_div_is_ordered(a * SCALE, m * SCALE, m);
    vstd::arithmetic::div_mod::lemma_div_multiples_vanish(SCALE as int, m);
    vstd::arithmetic::div_mod::lemma_div_pos_is_pos(a * SCALE, m);
    assert(0 <= (a * SCALE) / m <= SCALE);
    if c >= 0 {
        assert(tdiv(c * SCALE, m) == (a * SCALE) / m);
    } else {
        assert(c * SCALE == -(a * SCALE)) by (nonlinear_arith)
            requires
                a == -c,
        ;
        assert(tdiv(c * SCALE, m) == -((a * SCALE) / m));
    }
}

/// `v` forced into `[lo, hi]`.
pub fn clamp_fp(v: i64, lo: i64, hi: i64) -> (r: i64)
    requires
        lo <= hi,
    ensures
        r == clamped(v as int, lo as int, hi as int),
{
    if v < lo {
        lo
    } else if v > hi {
        hi
    } else {
        v
    }
}

} // verus!
