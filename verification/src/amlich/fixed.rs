//! Fixed-point arithmetic for the astronomical formulas.
//!
//! Quantities (fractional Julian day numbers, degrees, radians) are carried
//! as `i128` values scaled by [`FP`] (10^12), so every step of the ephemeris
//! is exact integer arithmetic with floor rounding.  The sine function is a
//! truncated Taylor series evaluated at a finer scale of 10^18.

use vstd::prelude::*;

verus! {

/// The fixed-point unit: values represent `v / FP`.
pub const FP: i128 = 1_000_000_000_000;

/// The finer unit used inside the sine evaluation.
pub const SIN_UNIT: i128 = 1_000_000_000_000_000_000;

/// `2 * pi` scaled by 10^18, rounded to the nearest integer.
pub const TWO_PI_E18: i128 = 6_283_185_307_179_586_477;

/// `pi` scaled by 10^18, rounded down.
pub const PI_E18: i128 = 3_141_592_653_589_793_238;

/// `pi / 2` scaled by 10^18, rounded down.
pub const HALF_PI_E18: i128 = 1_570_796_326_794_896_619;

/// Numerator of the degree-to-radian factor `pi_f32 / 180`, where
/// `pi_f32 = 13176795 / 2^22` is the 32-bit rounding of pi: the ephemeris
/// coefficients are calibrated against this coarser value.
pub const DEG_NUM: i128 = 13_176_795;

/// Denominator of the degree-to-radian factor: `2^22 * 180`.
pub const DEG_DEN: i128 = 754_974_720;

/// Interval bound for a product from interval bounds on its factors.
pub proof fn lemma_abs_mul(a: int, b: int, aa: int, bb: int)
    requires
        -aa <= a <= aa,
        -bb <= b <= bb,
    ensures
        -(aa * bb) <= a * b <= aa * bb,
{
    assert(-(aa * bb) <= a * b <= aa * bb) by (nonlinear_arith)
        requires
            -aa <= a <= aa,
            -bb <= b <= bb,
    ;
}

/// Interval bound for a floor quotient from an interval bound on the
/// dividend.
pub proof fn lemma_div_range(x: int, d: int, n: int)
    requires
        1 <= d,
        -n <= x <= n,
    ensures
        -(n / d) - 1 <= x / d <= n / d,
{
    vstd::arithmetic::div_mod::lemma_div_is_ordered(x, n, d);
    vstd::arithmetic::div_mod::lemma_div_is_ordered(-n, x, d);
    let q = n / d;
    let r = n % d;
    vstd::arithmetic::div_mod::lemma_fundamental_div_mod(n, d);
    vstd::arithmetic::div_mod::lemma_mod_bound(n, d);
    if r == 0 {
        assert((-q) * d + 0 == -n) by (nonlinear_arith)
            requires
                n == d * q + r,
                r == 0,
        ;
        vstd::arithmetic::div_mod::lemma_fundamental_div_mod_converse(-n, d, -q, 0);
    } else {
        assert((-q - 1) * d + (d - r) == -n) by (nonlinear_arith)
            requires
                n == d * q + r,
        ;
        vstd::arithmetic::div_mod::lemma_fundamental_div_mod_converse(-n, d, -q - 1, d - r);
    }
}

/// Floor division of `x` by a positive divisor `d`.
///
/// Spec-level `/` on `int` is Euclidean division, which for a positive
/// divisor is exactly floor division, so the contract is stated with `/`.
pub fn floor_div(x: i128, d: i128) -> (q: i128)
    requires
        0 < d,
        i128::MIN < x,
    ensures
        q == x as int / d as int,
{
    if x >= 0 {
        let qu: u128 = (x as u128) / (d as u128);
        let q: i128 = qu as i128;
        proof {
            vstd::arithmetic::div_mod::lemma_fundamental_div_mod(x as int, d as int);
        }
        q
    } else {
        let m: u128 = (-x) as u128;
        let du: u128 = d as u128;
        let qu: u128 = (m + (du - 1)) / du;
        proof {
            let mi = m as int;
            let di = d as int;
            let qi = (mi + di - 1) / di;
            vstd::arithmetic::div_mod::lemma_fundamental_div_mod(mi + di - 1, di);
            assert(mi <= di * qi && di * qi <= mi + di - 1 && qi <= mi) by (nonlinear_arith)
                requires
                    1 <= di,
                    1 <= mi,
                    di * qi + ((mi + di - 1) % di) == mi + di - 1,
                    0 <= (mi + di - 1) % di < di,
            ;
            assert((-qi) * di == -(di * qi)) by (nonlinear_arith);
            vstd::arithmetic::div_mod::lemma_fundamental_div_mod_converse(
                -mi, di, -qi, di * qi - mi);
        }
        -(qu as i128)
    }
}

/// Floor division together with an interval bound on the quotient, for
/// chaining range facts through the ephemeris formulas.  `n` is a ghost
/// bound on the dividend, supplied as a literal at each call site.
pub fn divb(x: i128, d: i128, Ghost(n): Ghost<int>) -> (q: i128)
    requires
        0 < d,
        -n <= x <= n,
        n < i128::MAX as int,
    ensures
        q == x as int / d as int,
        -(n / d as int) - 1 <= q <= n / d as int,
{
    proof {
        lemma_div_range(x as int, d as int, n);
    }
    floor_div(x, d)
}

/// Fixed-point product `a * b / FP` (floored) together with an interval
/// bound on the result.  `aa` and `bb` are ghost bounds on the factors,
/// supplied as literals at each call site.
pub fn mulb(a: i128, b: i128, Ghost(aa): Ghost<int>, Ghost(bb): Ghost<int>) -> (r: i128)
    requires
        -aa <= a <= aa,
        -bb <= b <= bb,
        aa * bb < i128::MAX as int,
    ensures
        r == (a as int) * (b as int) / (FP as int),
        -(aa * bb / (FP as int)) - 1 <= r <= aa * bb / (FP as int),
{
    proof {
        lemma_abs_mul(a as int, b as int, aa, bb);
        lemma_div_range((a as int) * (b as int), FP as int, aa * bb);
    }
    let p: i128 = a * b;
    floor_div(p, FP)
}

/// Fixed-point product at scale [`FP`], floored: the spec-level counterpart
/// of [`mulb`].
pub open spec fn fmul(a: int, b: int) -> int {
    (a * b) / (FP as int)
}

/// The truncated Taylor series for sine at scale 10^18, on a reduced
/// argument `t` in `[0, pi/2]`: terms up to `t^21 / 21!`.
#[verifier::opaque]
pub open spec fn spec_sin_taylor(t: int) -> int {
    let u = SIN_UNIT as int;
    let t2 = t * t / u;
    let m1 = t * t2 / u / 6;
    let m2 = m1 * t2 / u / 20;
    let m3 = m2 * t2 / u / 42;
    let m4 = m3 * t2 / u / 72;
    let m5 = m4 * t2 / u / 110;
    let m6 = m5 * t2 / u / 156;
    let m7 = m6 * t2 / u / 210;
    let m8 = m7 * t2 / u / 272;
    let m9 = m8 * t2 / u / 342;
    let m10 = m9 * t2 / u / 420;
    t - m1 + m2 - m3 + m4 - m5 + m6 - m7 + m8 - m9 + m10
}

/// Sine of an angle in radians at scale [`FP`]: the argument is reduced
/// modulo `2 * pi` and folded onto `[0, pi/2]`, then the Taylor series is
/// evaluated at scale 10^18 and the result scaled back.
#[verifier::opaque]
pub open spec fn spec_sin_fp(x: int) -> int {
    let x18 = x * 1_000_000;
    let q = x18 / (TWO_PI_E18 as int);
    let r0 = x18 - q * (TWO_PI_E18 as int);
    let flip = r0 > PI_E18 as int;
    let r1 = if flip {
        r0 - PI_E18 as int
    } else {
        r0
    };
    let r2 = if r1 > HALF_PI_E18 as int {
        PI_E18 as int - r1
    } else {
        r1
    };
    let total = spec_sin_taylor(r2);
    if flip {
        (-total) / 1_000_000
    } else {
        total / 1_000_000
    }
}

/// One Taylor term from the previous one: `m * t2 / SIN_UNIT / d`.
fn taylor_step(m: i128, t2: i128, d: i128) -> (r: i128)
    requires
        6 <= d,
        -4_200_000_000_000_000_000 <= m <= 4_200_000_000_000_000_000,
        0 <= t2 <= 2_560_000_000_000_000_000,
    ensures
        r == (m as int) * (t2 as int) / (SIN_UNIT as int) / (d as int),
        -1_800_000_000_000_000_000 <= r <= 1_800_000_000_000_000_000,
{
    proof {
        lemma_abs_mul(m as int, t2 as int,
            4_200_000_000_000_000_000, 2_560_000_000_000_000_000);
    }
    let p: i128 = divb(m * t2, SIN_UNIT,
        Ghost(10_752_000_000_000_000_000_000_000_000_000_000_000int));
    let r: i128 = floor_div(p, d);
    proof {
        lemma_div_range(p as int, d as int, 10_752_000_000_000_000_001int);
        vstd::arithmetic::div_mod::lemma_div_is_ordered_by_denominator(
            10_752_000_000_000_000_001int, 6, d as int);
    }
    r
}

/// Sine at scale [`FP`], for arguments up to about 10^9 radians.
pub fn sin_fp(x: i128) -> (r: i128)
    requires
        -1_000_000_000_000_000_000_000 <= x <= 1_000_000_000_000_000_000_000,
    ensures
        r == spec_sin_fp(x as int),
        -21_000_000_000_000 <= r <= 21_000_000_000_000,
{
    proof {
        reveal(spec_sin_fp);
        reveal(spec_sin_taylor);
    }
    let x18: i128 = x * 1_000_000;
    let q: i128 = divb(x18, TWO_PI_E18, Ghost(1_000_000_000_000_000_000_000_000_000int));
    let r0: i128 = x18 - q * TWO_PI_E18;
    proof {
        vstd::arithmetic::div_mod::lemma_fundamental_div_mod(x18 as int, TWO_PI_E18 as int);
        vstd::arithmetic::div_mod::lemma_mod_bound(x18 as int, TWO_PI_E18 as int);
        assert(0 <= r0 < TWO_PI_E18);
    }
    let flip: bool = r0 > PI_E18;
    let r1: i128 = if flip {
        r0 - PI_E18
    } else {
        r0
    };
    let r2: i128 = if r1 > HALF_PI_E18 {
        PI_E18 - r1
    } else {
        r1
    };
    // Taylor series on r2 in [0, pi/2], at scale 10^18.
    let t: i128 = r2;
    proof {
        lemma_abs_mul(t as int, t as int,
            1_600_000_000_000_000_000, 1_600_000_000_000_000_000);
    }
    let t2: i128 = divb(t * t, SIN_UNIT,
        Ghost(2_560_000_000_000_000_000_000_000_000_000_000_000int));
    let m1: i128 = taylor_step(t, t2, 6);
    let m2: i128 = taylor_step(m1, t2, 20);
    let m3: i128 = taylor_step(m2, t2, 42);
    let m4: i128 = taylor_step(m3, t2, 72);
    let m5: i128 = taylor_step(m4, t2, 110);
    let m6: i128 = taylor_step(m5, t2, 156);
    let m7: i128 = taylor_step(m6, t2, 210);
    let m8: i128 = taylor_step(m7, t2, 272);
    let m9: i128 = taylor_step(m8, t2, 342);
    let m10: i128 = taylor_step(m9, t2, 420);
    let total: i128 = t - m1 + m2 - m3 + m4 - m5 + m6 - m7 + m8 - m9 + m10;
    if flip {
        divb(-total, 1_000_000, Ghost(20_000_000_000_000_000_000int))
    } else {
        divb(total, 1_000_000, Ghost(20_000_000_000_000_000_000int))
    }
}

/// Sine of an angle given in degrees at scale [`FP`]: converts through the
/// exact rational `DEG_NUM / DEG_DEN` and applies [`sin_fp`].
pub open spec fn spec_sin_deg(x: int) -> int {
    spec_sin_fp(x * (DEG_NUM as int) / (DEG_DEN as int))
}

/// Sine of an angle in degrees at scale [`FP`].
pub fn sin_deg(x: i128) -> (r: i128)
    requires
        -50_000_000_000_000_000_000_000 <= x <= 50_000_000_000_000_000_000_000,
    ensures
        r == spec_sin_deg(x as int),
        -21_000_000_000_000 <= r <= 21_000_000_000_000,
{
    proof {
        lemma_abs_mul(x as int, DEG_NUM as int,
            50_000_000_000_000_000_000_000, 13_176_795);
    }
    let rad: i128 = divb(x * DEG_NUM, DEG_DEN,
        Ghost(658_839_750_000_000_000_000_000_000_000int));
    sin_fp(rad)
}

} // verus!
