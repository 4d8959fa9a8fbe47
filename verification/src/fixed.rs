//! Signed 48.16 fixed-point scalars.
//!
//! Every coordinate, color channel, angle and parameter in this crate is an
//! `i64` holding `value * 65536`.  All operations are exact integer
//! arithmetic: multiplication and division truncate toward zero, exactly as
//! the contracts state, so every higher-level formula in the crate is pinned
//! down to the bit.

use vstd::prelude::*;

verus! {

/// The fixed-point representation of 1.
pub const FX_ONE: i64 = 65536;

/// The fixed-point representation of pi, rounded to the nearest unit.
pub const FX_PI: i64 = 205887;

/// Half of `FX_PI`, rounded up.
pub const FX_HALF_PI: i64 = 102944;

/// The fixed-point representation of 2*pi (`FX_TAU == 2 * FX_PI + 1`,
/// because each of the two halves was rounded down by about half a unit).
pub const FX_TAU: i64 = 411775;

/// Largest magnitude an in-range scalar may have: 2^30, i.e. 16384.0.
pub const FX_MAX: i64 = 1073741824;

/// `v` is an in-range scalar.  All public geometry takes in-range scalars;
/// intermediate results may grow beyond this but stay within `i64`.
pub open spec fn fx_ok(v: int) -> bool {
    -FX_MAX <= v <= FX_MAX
}

/// Truncating (toward zero) division of `a * b` by `FX_ONE`: the exact value
/// of fixed-point multiplication.
pub open spec fn fx_mul_spec(a: int, b: int) -> int {
    if a * b >= 0 {
        (a * b) / (FX_ONE as int)
    } else {
        -((-(a * b)) / (FX_ONE as int))
    }
}

/// Truncating (toward zero) division of `a * FX_ONE` by `b`: the exact value
/// of fixed-point division.
pub open spec fn fx_div_spec(a: int, b: int) -> int {
    if (a >= 0) == (b >= 0) {
        (vstd::math::abs(a) * FX_ONE) as int / (vstd::math::abs(b) as int)
    } else {
        -((vstd::math::abs(a) * FX_ONE) as int / (vstd::math::abs(b) as int))
    }
}

/// Fixed-point multiplication.  The product may leave the `fx_ok` range; it
/// always fits an `i64` under the stated bound on `a * b`.
pub fn fx_mul(a: i64, b: i64) -> (r: i64)
    requires
        -0x4000_0000_0000_0000 <= a * b <= 0x4000_0000_0000_0000,
    ensures
        r == fx_mul_spec(a as int, b as int),
{
    let neg: bool = (a < 0) != (b < 0);
    let ua: u64 = if a < 0 {
        (-(a as i128)) as u64
    } else {
        a as u64
    };
    let ub: u64 = if b < 0 {
        (-(b as i128)) as u64
    } else {
        b as u64
    };
    proof {
        assert(ua == vstd::math::abs(a as int));
        assert(ub == vstd::math::abs(b as int));
        assert((ua as int) * (ub as int) == vstd::math::abs((a as int) * (b as int))) by (nonlinear_arith)
            requires
                ua == vstd::math::abs(a as int),
                ub == vstd::math::abs(b as int),
        ;
    }
    let prod: u128 = (ua as u128) * (ub as u128);
    let q: u128 = prod / 65536u128;
    proof {
        assert(prod <= 0x4000_0000_0000_0000);
        assert(q == (vstd::math::abs((a as int) * (b as int)) as int) / (FX_ONE as int));
    }
    if neg {
        let r: i64 = -(q as i64);
        proof {
            if (a as int) * (b as int) < 0 {
                assert(r == fx_mul_spec(a as int, b as int));
            } else {
                assert((a as int) * (b as int) == 0) by (nonlinear_arith)
                    requires
                        (a < 0) != (b < 0),
                        (a as int) * (b as int) >= 0,
                ;
                assert(r == fx_mul_spec(a as int, b as int));
            }
        }
        r
    } else {
        let r: i64 = q as i64;
        proof {
            if (a as int) * (b as int) < 0 {
                assert((a as int) * (b as int) >= 0) by (nonlinear_arith)
                    requires
                        (a < 0) == (b < 0),
                ;
            }
        }
        r
    }
}

/// Fixed-point division.
pub fn fx_div(a: i64, b: i64) -> (r: i64)
    requires
        b != 0,
        -0x4000_0000_0000 <= a <= 0x4000_0000_0000,
    ensures
        r == fx_div_spec(a as int, b as int),
{
    let neg: bool = (a < 0) != (b < 0);
    let ua: u64 = if a < 0 {
        (-(a as i128)) as u64
    } else {
        a as u64
    };
    let ub: u64 = if b < 0 {
        (-(b as i128)) as u64
    } else {
        b as u64
    };
    proof {
        assert(ua == vstd::math::abs(a as int));
        assert(ub == vstd::math::abs(b as int));
        assert(ub > 0);
    }
    let num: u128 = (ua as u128) * 65536u128;
    let q: u128 = num / (ub as u128);
    proof {
        assert(num <= 0x4000_0000_0000 * 65536);
        assert(q <= num) by {
            assert(num / (ub as u128) <= num) by (nonlinear_arith)
                requires
                    ub >= 1,
                    num >= 0,
            ;
        }
        assert(q == (vstd::math::abs(a as int) * FX_ONE) as int / (vstd::math::abs(b as int) as int));
    }
    if neg {
        let r: i64 = -(q as i64);
        proof {
            if a >= 0 && b >= 0 || a < 0 && b < 0 {
                assert(false);
            }
        }
        r
    } else {
        q as i64
    }
}

/// The integer square-root floor, defined by recursion so that it is a
/// single definite value for each argument.
pub open spec fn sqrt_floor(n: nat) -> nat
    decreases n,
{
    if n == 0 {
        0
    } else {
        let s = sqrt_floor((n - 1) as nat);
        if (s + 1) * (s + 1) <= n {
            s + 1
        } else {
            s
        }
    }
}

/// `sqrt_floor(n)` is the greatest integer whose square is at most `n`.
pub proof fn lemma_sqrt_floor_bounds(n: nat)
    ensures
        sqrt_floor(n) * sqrt_floor(n) <= n,
        n < (sqrt_floor(n) + 1) * (sqrt_floor(n) + 1),
    decreases n,
{
    if n == 0 {
        assert(sqrt_floor(n) == 0);
        assert((sqrt_floor(n) + 1) * (sqrt_floor(n) + 1) == 1) by (nonlinear_arith)
            requires
                sqrt_floor(n) == 0,
        ;
    } else {
        let m = (n - 1) as nat;
        lemma_sqrt_floor_bounds(m);
        let s = sqrt_floor(m);
        let t = sqrt_floor(n);
        assert(t == if (s + 1) * (s + 1) <= n {
            s + 1
        } else {
            s
        });
        if (s + 1) * (s + 1) <= n {
            assert(n <= (s + 1) * (s + 1));
            assert(((s + 1) as int) * ((s + 1) as int) < ((s + 2) as int) * ((s + 2) as int))
                by (nonlinear_arith);
            assert(t + 1 == s + 2);
            assert((t + 1) * (t + 1) == ((s + 2) as int) * ((s + 2) as int));
            assert(n < (t + 1) * (t + 1));
        } else {
            assert(t * t == s * s);
            assert(n < (t + 1) * (t + 1));
        }
    }
}

/// Any integer square-root floor witness equals `sqrt_floor(n)`.
pub proof fn lemma_sqrt_floor_unique(n: nat, r: nat)
    requires
        r * r <= n,
        n < (r + 1) * (r + 1),
    ensures
        r == sqrt_floor(n),
{
    lemma_sqrt_floor_bounds(n);
    let s = sqrt_floor(n);
    if r < s {
        assert((r + 1) * (r + 1) <= s * s) by (nonlinear_arith)
            requires
                r + 1 <= s,
        ;
    }
    if s < r {
        assert((s + 1) * (s + 1) <= r * r) by (nonlinear_arith)
            requires
                s + 1 <= r,
        ;
    }
}

/// Integer square root by binary search.
pub fn isqrt_u64(n: u64) -> (r: u64)
    ensures
        r == sqrt_floor(n as nat),
{
    let mut lo: u64 = 0;
    let mut hi: u64 = 4294967295;
    if n < hi {
        hi = n;
    }
    proof {
        assert((hi as nat + 1) * (hi as nat + 1) > n as nat) by (nonlinear_arith)
            requires
                hi as nat + 1 > 4294967295 || hi as nat >= n as nat,
                n as nat <= 0xffff_ffff_ffff_ffff,
        ;
    }
    while lo < hi
        invariant
            lo <= hi,
            (lo as nat) * (lo as nat) <= n as nat,
            (n as nat) < (hi as nat + 1) * (hi as nat + 1),
            hi <= 4294967295,
        decreases hi - lo,
    {
        let mid: u64 = lo + (hi - lo + 1) / 2;
        proof {
            assert(1 <= (hi - lo + 1) / 2 <= hi - lo);
            assert(lo < mid <= hi);
            assert((mid as u128) * (mid as u128) <= 4294967295u128 * 4294967295u128)
                by (nonlinear_arith)
                requires
                    (mid as u128) <= 4294967295u128,
            ;
        }
        let sq: u128 = (mid as u128) * (mid as u128);
        if sq <= n as u128 {
            lo = mid;
        } else {
            hi = mid - 1;
        }
    }
    proof {
        lemma_sqrt_floor_unique(n as nat, lo as nat);
    }
    lo
}

/// The magnitude of a product is bounded by the product of the bounds.
pub proof fn lemma_mul_bound(a: int, b: int, ba: int, bb: int)
    requires
        -ba <= a <= ba,
        -bb <= b <= bb,
    ensures
        -(ba * bb) <= a * b <= ba * bb,
{
    assert(-(ba * bb) <= a * b <= ba * bb) by (nonlinear_arith)
        requires
            -ba <= a <= ba,
            -bb <= b <= bb,
    ;
}

/// A fixed-point product is bounded by the bound on the plain product,
/// scaled down.
pub proof fn lemma_fx_mul_spec_bound(a: int, b: int, bound: int)
    requires
        -bound <= a * b <= bound,
        0 <= bound,
    ensures
        -(bound / (FX_ONE as int)) <= fx_mul_spec(a, b) <= bound / (FX_ONE as int),
{
    let p = a * b;
    let one = FX_ONE as int;
    if p >= 0 {
        vstd::arithmetic::div_mod::lemma_div_is_ordered(p, bound, one);
        vstd::arithmetic::div_mod::lemma_div_pos_is_pos(p, one);
    } else {
        vstd::arithmetic::div_mod::lemma_div_is_ordered(-p, bound, one);
        vstd::arithmetic::div_mod::lemma_div_pos_is_pos(-p, one);
    }
}

/// Bhaskara's sine approximation on `[0, FX_PI]`, in fixed point:
/// `sin(x) ~= 16 x (pi - x) / (5 pi^2 - 4 x (pi - x))`.  This rational
/// approximation is the crate's definition of the sine; it is exact at 0,
/// `FX_PI` and (up to truncation) at `FX_HALF_PI`, and within about 0.0017
/// of the real sine everywhere on the interval.
#[verifier::opaque]
pub open spec fn sin_half_spec(x: int) -> int {
    let a = x * (FX_PI - x);
    (16 * a * FX_ONE) / (5 * FX_PI * FX_PI - 4 * a)
}

/// The crate's sine: the angle reduced into one period, then Bhaskara's
/// approximation on each half, with the second half negated.
pub open spec fn fx_sin_spec(x: int) -> int {
    let m = x % (FX_TAU as int);
    if m <= FX_PI {
        sin_half_spec(m)
    } else {
        -sin_half_spec(m - FX_PI)
    }
}

/// The crate's cosine: the sine a quarter period later.
pub open spec fn fx_cos_spec(x: int) -> int {
    fx_sin_spec(x + FX_HALF_PI)
}

/// Bhaskara's approximation stays within the unit interval on the first
/// half period.
pub proof fn lemma_sin_half_spec_bounds(x: int)
    requires
        0 <= x <= FX_PI,
    ensures
        0 <= sin_half_spec(x) <= FX_ONE,
{
    reveal(sin_half_spec);
    let a = x * (FX_PI - x);
    assert(0 <= a) by (nonlinear_arith)
        requires
            a == x * (205887 - x),
            0 <= x <= 205887,
    ;
    assert(4 * a <= 205887int * 205887) by (nonlinear_arith)
        requires
            a == x * (205887 - x),
            0 <= x <= 205887,
    ;
    let num = 16 * a * (FX_ONE as int);
    let den = 5 * (FX_PI as int) * FX_PI - 4 * a;
    assert(den >= 4 * 205887 * 205887);
    assert(num <= 65536 * den);
    vstd::arithmetic::div_mod::lemma_div_pos_is_pos(num, den);
    vstd::arithmetic::div_mod::lemma_div_is_ordered(num, 65536 * den, den);
    vstd::arithmetic::div_mod::lemma_div_by_multiple(65536, den);
}

/// The sine spec stays within the unit interval everywhere.
pub proof fn lemma_fx_sin_spec_bounds(x: int)
    ensures
        -FX_ONE <= fx_sin_spec(x) <= FX_ONE,
{
    let m = x % (FX_TAU as int);
    vstd::arithmetic::div_mod::lemma_mod_bound(x, FX_TAU as int);
    if m <= FX_PI {
        lemma_sin_half_spec_bounds(m);
    } else {
        lemma_sin_half_spec_bounds(m - FX_PI);
    }
}

/// The cosine spec stays within the unit interval everywhere.
pub proof fn lemma_fx_cos_spec_bounds(x: int)
    ensures
        -FX_ONE <= fx_cos_spec(x) <= FX_ONE,
{
    lemma_fx_sin_spec_bounds(x + FX_HALF_PI);
}

/// Bhaskara's approximation on the first half period.
fn sin_half(m: u64) -> (r: u64)
    requires
        m <= 205887,
    ensures
        r == sin_half_spec(m as int),
        r <= 65536,
{
    proof {
        reveal(sin_half_spec);
        assert((m as int) * (205887 - m as int) <= 205887 * 205887) by (nonlinear_arith)
            requires
                0 <= m as int <= 205887,
        ;
        assert(0 <= (m as int) * (205887 - m as int)) by (nonlinear_arith)
            requires
                0 <= m as int <= 205887,
        ;
        assert(4 * ((m as int) * (205887 - m as int)) <= 205887 * 205887) by (nonlinear_arith)
            requires
                0 <= m as int <= 205887,
        ;
    }
    let a: u64 = m * (205887 - m);
    let num: u64 = 16 * a * 65536;
    let den: u64 = 5 * 205887 * 205887 - 4 * a;
    let r: u64 = num / den;
    proof {
        assert(den >= 4 * 205887 * 205887);
        assert(num <= 65536 * den);
        vstd::arithmetic::div_mod::lemma_div_is_ordered(num as int, 65536 * den, den as int);
        vstd::arithmetic::div_mod::lemma_div_by_multiple(65536, den as int);
        assert(r == sin_half_spec(m as int));
    }
    r
}

/// The fixed-point sine.  Accepts angles up to three times the scalar
/// range (an arc's angle can be an endpoint plus a full sweep), plus a
/// little headroom so that the cosine can shift its argument.
pub fn fx_sin(x: i64) -> (r: i64)
    requires
        -3 * FX_MAX <= x <= 3 * FX_MAX + FX_HALF_PI,
    ensures
        r == fx_sin_spec(x as int),
        -FX_ONE <= r <= FX_ONE,
{
    let shifted: i64 = x + 3221727600;
    proof {
        assert(3221727600 == 7824 * (FX_TAU as int));
        vstd::arithmetic::div_mod::lemma_mod_multiples_vanish(7824, x as int, FX_TAU as int);
        assert((shifted as int) % (FX_TAU as int) == (x as int) % (FX_TAU as int));
    }
    let m: u64 = (shifted as u64) % 411775;
    proof {
        assert(m == (x as int) % (FX_TAU as int));
    }
    if m <= 205887 {
        let r: u64 = sin_half(m);
        r as i64
    } else {
        let r: u64 = sin_half(m - 205887);
        -(r as i64)
    }
}

/// The fixed-point cosine.
pub fn fx_cos(x: i64) -> (r: i64)
    requires
        -3 * FX_MAX <= x <= 3 * FX_MAX,
    ensures
        r == fx_cos_spec(x as int),
        -FX_ONE <= r <= FX_ONE,
{
    fx_sin(x + FX_HALF_PI)
}

/// `fx_mul_spec` by `FX_ONE` is the identity, and by 0 is 0.
pub proof fn lemma_fx_mul_spec_units(a: int)
    ensures
        fx_mul_spec(a, FX_ONE as int) == a,
        fx_mul_spec(FX_ONE as int, a) == a,
        fx_mul_spec(a, 0) == 0,
        fx_mul_spec(0, a) == 0,
{
    let one = FX_ONE as int;
    assert(a * one == one * a) by (nonlinear_arith);
    assert(a * 0 == 0) by (nonlinear_arith);
    assert(0 * a == 0) by (nonlinear_arith);
    if a >= 0 {
        assert(a * one >= 0) by (nonlinear_arith)
            requires
                a >= 0,
                one > 0,
        ;
        vstd::arithmetic::div_mod::lemma_div_by_multiple(a, one);
    } else {
        assert(a * one < 0) by (nonlinear_arith)
            requires
                a < 0,
                one > 0,
        ;
        assert(-(a * one) == (-a) * one) by (nonlinear_arith);
        vstd::arithmetic::div_mod::lemma_div_by_multiple(-a, one);
    }
}

/// Dividing a value by a larger positive value gives a unit-interval
/// scalar (of either sign).
pub proof fn lemma_fx_div_unit(v: int, l: int)
    requires
        l > 0,
        -l <= v <= l,
    ensures
        -(FX_ONE as int) <= fx_div_spec(v, l) <= FX_ONE as int,
{
    let a = vstd::math::abs(v) as int;
    assert(a <= l);
    assert(a * FX_ONE <= l * FX_ONE) by (nonlinear_arith)
        requires
            a <= l,
            FX_ONE > 0,
    ;
    vstd::arithmetic::div_mod::lemma_div_is_ordered(a * FX_ONE, l * (FX_ONE as int), l);
    vstd::arithmetic::div_mod::lemma_div_by_multiple(FX_ONE as int, l);
    assert(l * (FX_ONE as int) == (FX_ONE as int) * l) by (nonlinear_arith);
    vstd::arithmetic::div_mod::lemma_div_pos_is_pos(a * FX_ONE, l);
}

/// Dividing an in-range value by any nonzero divisor stays within `i64`.
pub proof fn lemma_fx_div_nonexpansive(a: int, b: int)
    requires
        b != 0,
        -0x4000_0000_0000 <= a <= 0x4000_0000_0000,
    ensures
        -0x4000_0000_0000_0000 <= fx_div_spec(a, b) <= 0x4000_0000_0000_0000,
{
    let m = vstd::math::abs(a) as int;
    let d = vstd::math::abs(b) as int;
    vstd::arithmetic::div_mod::lemma_div_is_ordered_by_denominator(m * FX_ONE, 1, d);
    vstd::arithmetic::div_mod::lemma_div_by_multiple(m * FX_ONE, 1);
    vstd::arithmetic::div_mod::lemma_div_pos_is_pos(m * FX_ONE, d);
}

/// Halving a sum of two in-range scalars (by fixed-point division by 2)
/// gives an in-range scalar.
pub proof fn lemma_fx_div_half(v: int)
    requires
        -0x8000_0000 <= v <= 0x8000_0000,
    ensures
        -FX_MAX <= fx_div_spec(v, 131072) <= FX_MAX,
{
    let a = vstd::math::abs(v) as int;
    assert(a * FX_ONE <= 0x8000_0000 * 65536) by (nonlinear_arith)
        requires
            0 <= a <= 0x8000_0000,
            FX_ONE == 65536,
    ;
    vstd::arithmetic::div_mod::lemma_div_is_ordered(a * FX_ONE, 1073741824int * 131072, 131072);
    vstd::arithmetic::div_mod::lemma_div_by_multiple(1073741824, 131072);
    vstd::arithmetic::div_mod::lemma_div_pos_is_pos(a * FX_ONE, 131072);
}

/// A product of two unit-interval scalars is a unit-interval scalar.
pub proof fn lemma_fx_mul_unit_interval(a: int, b: int)
    requires
        0 <= a <= FX_ONE,
        0 <= b <= FX_ONE,
    ensures
        0 <= a * b <= 0x1_0000_0000,
        0 <= fx_mul_spec(a, b) <= FX_ONE,
{
    assert(0 <= a * b <= 65536 * 65536) by (nonlinear_arith)
        requires
            0 <= a <= 65536,
            0 <= b <= 65536,
    ;
    vstd::arithmetic::div_mod::lemma_div_pos_is_pos(a * b, FX_ONE as int);
    vstd::arithmetic::div_mod::lemma_div_is_ordered(a * b, 65536int * 65536, FX_ONE as int);
    vstd::arithmetic::div_mod::lemma_div_by_multiple(65536, 65536);
}

/// Bound for a coefficient times a coordinate, both fixed point.
pub proof fn lemma_fx_mul_coef_coord(c: int, x: int, cb: int, xb: int)
    requires
        -cb <= c <= cb,
        -xb <= x <= xb,
        0 <= cb,
        0 <= xb,
        cb * xb <= 0x4000_0000_0000_0000,
    ensures
        -0x4000_0000_0000_0000 <= c * x <= 0x4000_0000_0000_0000,
        -((cb * xb) / (FX_ONE as int)) <= fx_mul_spec(c, x) <= (cb * xb) / (FX_ONE as int),
{
    lemma_mul_bound(c, x, cb, xb);
    assert(0 <= cb * xb) by (nonlinear_arith)
        requires
            0 <= cb,
            0 <= xb,
    ;
    lemma_fx_mul_spec_bound(c, x, cb * xb);
}

/// `sqrt_floor` is monotonic.
pub proof fn lemma_sqrt_floor_monotonic(a: nat, b: nat)
    requires
        a <= b,
    ensures
        sqrt_floor(a) <= sqrt_floor(b),
{
    lemma_sqrt_floor_bounds(a);
    lemma_sqrt_floor_bounds(b);
    let sa = sqrt_floor(a);
    let sb = sqrt_floor(b);
    if sb < sa {
        assert((sb + 1) * (sb + 1) <= sa * sa) by (nonlinear_arith)
            requires
                sb + 1 <= sa,
        ;
    }
}

/// The square root of a perfect square.
pub proof fn lemma_sqrt_floor_square(x: nat)
    ensures
        sqrt_floor(x * x) == x,
{
    assert(x * x < (x + 1) * (x + 1)) by (nonlinear_arith);
    lemma_sqrt_floor_unique(x * x, x);
}

/// Integer square root of a `u128`, by binary search.
pub fn isqrt_u128(n: u128) -> (r: u128)
    ensures
        r == sqrt_floor(n as nat),
        r <= 0xffff_ffff_ffff_ffff,
{
    let mut lo: u128 = 0;
    let mut hi: u128 = 0xffff_ffff_ffff_ffff;
    if n < hi {
        hi = n;
    }
    proof {
        assert((hi as nat + 1) * (hi as nat + 1) > n as nat) by (nonlinear_arith)
            requires
                hi as nat + 1 > 0xffff_ffff_ffff_ffff || hi as nat >= n as nat,
                (n as nat) <= 0xffff_ffff_ffff_ffff_ffff_ffff_ffff_ffff,
        ;
    }
    while lo < hi
        invariant
            lo <= hi,
            (lo as nat) * (lo as nat) <= n as nat,
            (n as nat) < (hi as nat + 1) * (hi as nat + 1),
            hi <= 0xffff_ffff_ffff_ffff,
        decreases hi - lo,
    {
        let mid: u128 = lo + (hi - lo + 1) / 2;
        proof {
            assert(1 <= (hi - lo + 1) / 2 <= hi - lo);
            assert(lo < mid <= hi);
            assert((mid as nat) * (mid as nat) <= 0xffff_ffff_ffff_ffff as nat
                * 0xffff_ffff_ffff_ffff as nat) by (nonlinear_arith)
                requires
                    (mid as nat) <= 0xffff_ffff_ffff_ffff as nat,
            ;
        }
        let sq: u128 = mid * mid;
        if sq <= n {
            lo = mid;
        } else {
            hi = mid - 1;
        }
    }
    proof {
        lemma_sqrt_floor_unique(n as nat, lo as nat);
    }
    lo
}

/// The fixed-point square root: `sqrt_floor` of the value scaled so that the
/// result is again in fixed-point units.
pub open spec fn fx_sqrt_spec(v: int) -> int {
    sqrt_floor((v * FX_ONE) as nat) as int
}

/// Fixed-point square root of a nonnegative scalar.
pub fn fx_sqrt(v: i64) -> (r: i64)
    requires
        0 <= v <= 0x4000_0000_0000,
    ensures
        r == fx_sqrt_spec(v as int),
        r >= 0,
{
    let scaled: u64 = (v as u64) * 65536;
    let r: u64 = isqrt_u64(scaled);
    proof {
        lemma_sqrt_floor_bounds(scaled as nat);
        assert((r as nat) * (r as nat) <= scaled as nat);
        assert(r < 0x1_0000_0000) by (nonlinear_arith)
            requires
                (r as nat) * (r as nat) <= scaled as nat,
                (scaled as nat) < 0xffff_ffff_ffff_ffff,
        ;
    }
    r as i64
}

} // verus!
