//! Julian day arithmetic and the astronomical new-moon / sun-longitude
//! functions, all in exact integer (fixed-point) arithmetic.

use vstd::prelude::*;

use crate::amlich::SolarDate;
use crate::amlich::fixed;

verus! {

/// First Julian day number of the Gregorian calendar (1582-10-15).
pub const GREGORIAN_START_JDN: i64 = 2299161;

/// Julian day number of `(day, month, year)` in the civil calendar with the
/// 1582 Julian/Gregorian cutover, as a spec-level formula.
///
/// The calendar is shifted so March is month 0; `/` on `int` is Euclidean,
/// i.e. floor division for the positive divisors used here.
pub open spec fn spec_jd_from_date(dd: int, mm: int, yyyy: int) -> int {
    let a = (14 - mm) / 12;
    let y = yyyy + 4800 - a;
    let m = mm + 12 * a - 3;
    let jd_gregorian = dd + (153 * m + 2) / 5 + 365 * y + y / 4 - y / 100 + y / 400 - 32045;
    if jd_gregorian < GREGORIAN_START_JDN as int {
        dd + (153 * m + 2) / 5 + 365 * y + y / 4 - 32083
    } else {
        jd_gregorian
    }
}

/// Floor division of `x` by a positive divisor `d`, for `i64`.
pub(crate) fn floor_div64(x: i64, d: i64) -> (q: i64)
    requires
        0 < d,
        i64::MIN < x,
    ensures
        q == x as int / d as int,
{
    if x >= 0 {
        let qu: u64 = (x as u64) / (d as u64);
        let q: i64 = qu as i64;
        proof {
            vstd::arithmetic::div_mod::lemma_fundamental_div_mod(x as int, d as int);
        }
        q
    } else {
        let m: u64 = (-x) as u64;
        let du: u64 = d as u64;
        let qu: u64 = (m + (du - 1)) / du;
        proof {
            let mi = m as int;
            let di = d as int;
            let qi = (mi + di - 1) / di;
            vstd::arithmetic::div_mod::lemma_fundamental_div_mod(mi + di - 1, di);
            assert(mi <= di * qi && di * qi <= mi + di - 1 && qi <= mi) by (nonlinear_arith)
                requires
                    1 <= di,
                    1 <= mi,
                    di * qi + ((mi + di - 1) % di) == mi + di - 1,
                    0 <= (mi + di - 1) % di < di,
            ;
            assert((-qi) * di == -(di * qi)) by (nonlinear_arith);
            vstd::arithmetic::div_mod::lemma_fundamental_div_mod_converse(
                -mi, di, -qi, di * qi - mi);
        }
        -(qu as i64)
    }
}

/// Civil date to Julian day number.
///
/// Total over a wide input range; no validation of the triple is performed
/// (out-of-range fields give well-defined but not calendrically meaningful
/// results).  The bounds on the arguments only keep `i64` arithmetic exact.
pub fn jd_from_date(dd: i64, mm: i64, yyyy: i64) -> (jd: i64)
    requires
        -1_000_000 <= dd <= 1_000_000,
        -1_000_000 <= mm <= 1_000_000,
        -1_000_000_000 <= yyyy <= 1_000_000_000,
    ensures
        jd == spec_jd_from_date(dd as int, mm as int, yyyy as int),
{
    let a: i64 = floor_div64(14 - mm, 12);
    let y: i64 = yyyy + 4800 - a;
    let m: i64 = mm + 12 * a - 3;
    let day_frac: i64 = floor_div64(153 * m + 2, 5);
    let jd: i64 = dd + day_frac + 365 * y + floor_div64(y, 4) - floor_div64(y, 100)
        + floor_div64(y, 400) - 32045;
    if jd < GREGORIAN_START_JDN {
        dd + day_frac + 365 * y + floor_div64(y, 4) - 32083
    } else {
        jd
    }
}

/// Solar date recovered from a Julian day number, as a spec-level formula.
pub open spec fn spec_jd_to_date(jd: int) -> (int, int, int) {
    let b = if jd > GREGORIAN_START_JDN - 1 {
        (4 * (jd + 32044) + 3) / 146097
    } else {
        0
    };
    let c = if jd > GREGORIAN_START_JDN - 1 {
        jd + 32044 - (b * 146097) / 4
    } else {
        jd + 32082
    };
    let d = (4 * c + 3) / 1461;
    let e = c - (1461 * d) / 4;
    let m = (5 * e + 2) / 153;
    let day = e - (153 * m + 2) / 5 + 1;
    let month = m + 3 - 12 * (m / 10);
    let year = b * 100 + d - 4800 + m / 10;
    (year, month, day)
}

/// Julian day number to civil date (inverse of [`jd_from_date`]).
///
/// Does not validate `jd`; any value in the range below yields a date.
pub fn jd_to_date(jd: i64) -> (d: SolarDate)
    requires
        -1_000_000_000 <= jd <= 1_000_000_000,
    ensures
        (d.year as int, d.month as int, d.day as int) == spec_jd_to_date(jd as int),
{
    let a: i64;
    let b: i64;
    let c: i64;

    if jd > GREGORIAN_START_JDN - 1 {
        // Gregorian back-conversion constants.
        a = jd + 32044;
        b = floor_div64(4 * a + 3, 146097);
        c = a - floor_div64(b * 146097, 4);
    } else {
        b = 0;
        c = jd + 32082;
    }

    let d: i64 = floor_div64(4 * c + 3, 1461);
    let e: i64 = c - floor_div64(1461 * d, 4);
    let m: i64 = floor_div64(5 * e + 2, 153);
    let day: i64 = e - floor_div64(153 * m + 2, 5) + 1;
    let month: i64 = m + 3 - 12 * floor_div64(m, 10);
    let year: i64 = b * 100 + d - 4800 + floor_div64(m, 10);

    SolarDate::new(year, month, day)
}

/// Fractional Julian day number of the `k`-th new moon counted from the
/// reference new moon near 1900-01-01, in [`FP`](fixed::FP) units: the
/// truncated lunar ephemeris series (mean new moon plus periodic
/// corrections in the sun's and moon's anomalies and the moon's argument
/// of latitude, minus a delta-T term), as a spec-level formula.
#[verifier::opaque]
pub open spec fn spec_new_moon(k: int) -> int {
    let t = (k * 100_000_000_000_000) / 123685;
    let t2 = fixed::fmul(t, t);
    let t3 = fixed::fmul(t2, t);
    let jd1 = 2_415_020_759_330_000_000 + 29_530_588_680_000 * k
        + fixed::fmul(117_800_000, t2) - fixed::fmul(155_000, t3)
        + fixed::fmul(330_000_000, fixed::spec_sin_deg(
            166_560_000_000_000 + fixed::fmul(132_870_000_000_000, t)
                - fixed::fmul(9_173_000_000, t2)));
    let m = 359_224_200_000_000 + 29_105_356_080_000 * k
        - fixed::fmul(33_300_000, t2) - fixed::fmul(3_470_000, t3);
    let mpr = 306_025_300_000_000 + 385_816_918_060_000 * k
        + fixed::fmul(10_730_600_000, t2) + fixed::fmul(12_360_000, t3);
    let f = 21_296_400_000_000 + 390_670_506_460_000 * k
        - fixed::fmul(1_652_800_000, t2) - fixed::fmul(2_390_000, t3);
    let c1 = fixed::fmul(173_400_000_000 - fixed::fmul(393_000_000, t), fixed::spec_sin_deg(m))
        + fixed::fmul(2_100_000_000, fixed::spec_sin_deg(2 * m))
        - fixed::fmul(406_800_000_000, fixed::spec_sin_deg(mpr))
        + fixed::fmul(16_100_000_000, fixed::spec_sin_deg(2 * mpr))
        - fixed::fmul(400_000_000, fixed::spec_sin_deg(3 * mpr))
        + fixed::fmul(10_400_000_000, fixed::spec_sin_deg(2 * f))
        - fixed::fmul(5_100_000_000, fixed::spec_sin_deg(m + mpr))
        - fixed::fmul(7_400_000_000, fixed::spec_sin_deg(m - mpr))
        + fixed::fmul(400_000_000, fixed::spec_sin_deg(2 * f + m))
        - fixed::fmul(400_000_000, fixed::spec_sin_deg(2 * f - m))
        - fixed::fmul(600_000_000, fixed::spec_sin_deg(2 * f + mpr))
        + fixed::fmul(1_000_000_000, fixed::spec_sin_deg(2 * f - mpr))
        + fixed::fmul(500_000_000, fixed::spec_sin_deg(2 * mpr + m));
    let dt = if t < -11_000_000_000_000 {
        1_000_000_000 + fixed::fmul(839_000_000, t) + fixed::fmul(226_100_000, t2)
            - fixed::fmul(8_450_000, t3) - fixed::fmul(81_000, fixed::fmul(t, t3))
    } else {
        -278_000_000 + fixed::fmul(265_000_000, t) + fixed::fmul(262_000_000, t2)
    };
    jd1 + c1 - dt
}

/// Fractional Julian day number of the `k`-th new moon, in
/// [`FP`](fixed::FP) units.
///
/// The second clause of the contract places the result within a third of a
/// day-scale unit window around the mean new moon, which lets callers bound
/// the resulting calendar day from their bound on `k`.
#[verifier::rlimit(100)]
pub fn new_moon(k: i64) -> (r: i128)
    requires
        -1_800_000 <= k <= 1_800_000,
    ensures
        r == spec_new_moon(k as int),
        -600_000_000_000_000_000
            <= r - 2_415_020_759_330_000_000 - 29_530_588_680_000 * (k as int)
            <= 600_000_000_000_000_000,
{
    proof {
        reveal(spec_new_moon);
    }
    let k128: i128 = k as i128;
    let t: i128 = fixed::divb(k128 * 100_000_000_000_000, 123685,
        Ghost(180_000_000_000_000_000_000int));
    let t2: i128 = fixed::mulb(t, t,
        Ghost(1_500_000_000_000_000int), Ghost(1_500_000_000_000_000int));
    let t3: i128 = fixed::mulb(t2, t,
        Ghost(2_300_000_000_000_000_000int), Ghost(1_500_000_000_000_000int));
    let jd1: i128 = 2_415_020_759_330_000_000 + 29_530_588_680_000 * k128
        + fixed::mulb(117_800_000, t2,
            Ghost(117_800_000int), Ghost(2_300_000_000_000_000_000int))
        - fixed::mulb(155_000, t3,
            Ghost(155_000int), Ghost(3_500_000_000_000_000_000_000int))
        + fixed::mulb(330_000_000,
            fixed::sin_deg(166_560_000_000_000
                + fixed::mulb(132_870_000_000_000, t,
                    Ghost(132_870_000_000_000int), Ghost(1_500_000_000_000_000int))
                - fixed::mulb(9_173_000_000, t2,
                    Ghost(9_173_000_000int), Ghost(2_300_000_000_000_000_000int))),
            Ghost(330_000_000int), Ghost(21_000_000_000_000int));
    let m: i128 = 359_224_200_000_000 + 29_105_356_080_000 * k128
        - fixed::mulb(33_300_000, t2,
            Ghost(33_300_000int), Ghost(2_300_000_000_000_000_000int))
        - fixed::mulb(3_470_000, t3,
            Ghost(3_470_000int), Ghost(3_500_000_000_000_000_000_000int));
    let mpr: i128 = 306_025_300_000_000 + 385_816_918_060_000 * k128
        + fixed::mulb(10_730_600_000, t2,
            Ghost(10_730_600_000int), Ghost(2_300_000_000_000_000_000int))
        + fixed::mulb(12_360_000, t3,
            Ghost(12_360_000int), Ghost(3_500_000_000_000_000_000_000int));
    let f: i128 = 21_296_400_000_000 + 390_670_506_460_000 * k128
        - fixed::mulb(1_652_800_000, t2,
            Ghost(1_652_800_000int), Ghost(2_300_000_000_000_000_000int))
        - fixed::mulb(2_390_000, t3,
            Ghost(2_390_000int), Ghost(3_500_000_000_000_000_000_000int));
    let c1: i128 = fixed::mulb(
            173_400_000_000 - fixed::mulb(393_000_000, t,
                Ghost(393_000_000int), Ghost(1_500_000_000_000_000int)),
            fixed::sin_deg(m),
            Ghost(800_000_000_000int), Ghost(21_000_000_000_000int))
        + fixed::mulb(2_100_000_000, fixed::sin_deg(2 * m),
            Ghost(2_100_000_000int), Ghost(21_000_000_000_000int))
        - fixed::mulb(406_800_000_000, fixed::sin_deg(mpr),
            Ghost(406_800_000_000int), Ghost(21_000_000_000_000int))
        + fixed::mulb(16_100_000_000, fixed::sin_deg(2 * mpr),
            Ghost(16_100_000_000int), Ghost(21_000_000_000_000int))
        - fixed::mulb(400_000_000, fixed::sin_deg(3 * mpr),
            Ghost(400_000_000int), Ghost(21_000_000_000_000int))
        + fixed::mulb(10_400_000_000, fixed::sin_deg(2 * f),
            Ghost(10_400_000_000int), Ghost(21_000_000_000_000int))
        - fixed::mulb(5_100_000_000, fixed::sin_deg(m + mpr),
            Ghost(5_100_000_000int), Ghost(21_000_000_000_000int))
        - fixed::mulb(7_400_000_000, fixed::sin_deg(m - mpr),
            Ghost(7_400_000_000int), Ghost(21_000_000_000_000int))
        + fixed::mulb(400_000_000, fixed::sin_deg(2 * f + m),
            Ghost(400_000_000int), Ghost(21_000_000_000_000int))
        - fixed::mulb(400_000_000, fixed::sin_deg(2 * f - m),
            Ghost(400_000_000int), Ghost(21_000_000_000_000int))
        - fixed::mulb(600_000_000, fixed::sin_deg(2 * f + mpr),
            Ghost(600_000_000int), Ghost(21_000_000_000_000int))
        + fixed::mulb(1_000_000_000, fixed::sin_deg(2 * f - mpr),
            Ghost(1_000_000_000int), Ghost(21_000_000_000_000int))
        + fixed::mulb(500_000_000, fixed::sin_deg(2 * mpr + m),
            Ghost(500_000_000int), Ghost(21_000_000_000_000int));
    let dt: i128 = if t < -11_000_000_000_000 {
        1_000_000_000
            + fixed::mulb(839_000_000, t,
                Ghost(839_000_000int), Ghost(1_500_000_000_000_000int))
            + fixed::mulb(226_100_000, t2,
                Ghost(226_100_000int), Ghost(2_300_000_000_000_000_000int))
            - fixed::mulb(8_450_000, t3,
                Ghost(8_450_000int), Ghost(3_500_000_000_000_000_000_000int))
            - fixed::mulb(81_000,
                fixed::mulb(t, t3,
                    Ghost(1_500_000_000_000_000int), Ghost(3_500_000_000_000_000_000_000int)),
                Ghost(81_000int), Ghost(5_300_000_000_000_000_000_000_000int))
    } else {
        -278_000_000
            + fixed::mulb(265_000_000, t,
                Ghost(265_000_000int), Ghost(1_500_000_000_000_000int))
            + fixed::mulb(262_000_000, t2,
                Ghost(262_000_000int), Ghost(2_300_000_000_000_000_000int))
    };
    jd1 + c1 - dt
}

/// Calendar day of the `k`-th new moon for a civil timezone `tz` hours
/// ahead of UTC: the astronomical instant shifted from the noon-based to
/// the midnight-based day count and into the local zone, floored.
pub open spec fn spec_get_new_moon_day(k: int, tz: int) -> int {
    (spec_new_moon(k) + 500_000_000_000 + (tz * 1_000_000_000_000) / 24) / 1_000_000_000_000
}

/// Calendar day (integer JDN) of the `k`-th new moon in timezone `tz`.
pub fn get_new_moon_day(k: i64, time_zone: i64) -> (d: i64)
    requires
        -1_800_000 <= k <= 1_800_000,
        -10_000 <= time_zone <= 10_000,
    ensures
        d == spec_get_new_moon_day(k as int, time_zone as int),
        -610_000_000_000_000_000
            <= (d as int) * 1_000_000_000_000
                - 2_415_020_759_330_000_000 - 29_530_588_680_000 * (k as int)
            <= 610_000_000_000_000_000,
{
    let nm: i128 = new_moon(k);
    let tz_term: i128 = fixed::floor_div((time_zone as i128) * 1_000_000_000_000, 24);
    proof {
        fixed::lemma_div_range((time_zone as int) * 1_000_000_000_000, 24,
            10_000_000_000_000_000int);
    }
    let s: i128 = nm + 500_000_000_000 + tz_term;
    let d128: i128 = fixed::divb(s, 1_000_000_000_000, Ghost(57_000_000_000_000_000_000int));
    proof {
        vstd::arithmetic::div_mod::lemma_fundamental_div_mod(s as int, 1_000_000_000_000int);
        vstd::arithmetic::div_mod::lemma_mod_bound(s as int, 1_000_000_000_000int);
    }
    d128 as i64
}

/// Apparent ecliptic longitude of the sun at the moment `jdn` (a
/// fractional JDN in [`FP`](fixed::FP) units), in radians at scale
/// [`FP`](fixed::FP), normalized to `[0, 2 * pi)`: mean longitude plus a
/// three-term periodic correction, as a spec-level formula.  The floored
/// reduction can overshoot the modulus by one unit, so the final step
/// wraps that corner back to zero.
#[verifier::opaque]
pub open spec fn spec_sun_longitude(jdn: int) -> int {
    let t = (jdn - 2_451_545_000_000_000_000) / 36525;
    let t2 = fixed::fmul(t, t);
    let m = 357_529_100_000_000 + fixed::fmul(35_999_050_300_000_000, t)
        - fixed::fmul(155_900_000, t2) - fixed::fmul(480_000, fixed::fmul(t, t2));
    let l0 = 280_466_450_000_000 + fixed::fmul(36_000_769_830_000_000, t)
        + fixed::fmul(303_200_000, t2);
    let dl = fixed::fmul(
            1_914_600_000_000 - fixed::fmul(4_817_000_000, t) - fixed::fmul(14_000_000, t2),
            fixed::spec_sin_deg(m))
        + fixed::fmul(19_993_000_000 - fixed::fmul(101_000_000, t), fixed::spec_sin_deg(2 * m))
        + fixed::fmul(290_000_000, fixed::spec_sin_deg(3 * m));
    let l = (l0 + dl) * 13_176_795 / 754_974_720;
    let q = (l * 2_097_152) / 13_176_795_000_000_000_000;
    let l1 = l - (q * 13_176_795_000_000_000_000) / 2_097_152;
    if l1 >= 6_283_185_482_026 {
        l1 - 6_283_185_482_026
    } else {
        l1
    }
}

/// Apparent ecliptic longitude of the sun in radians at scale
/// [`FP`](fixed::FP), in `[0, 2 * pi)`.
#[verifier::rlimit(100)]
pub fn sun_longitude(jdn: i128) -> (l: i128)
    requires
        -75_000_000_000_000_000_000 <= jdn <= 75_000_000_000_000_000_000,
    ensures
        l == spec_sun_longitude(jdn as int),
        0 <= l <= 6_283_185_482_025,
{
    proof {
        reveal(spec_sun_longitude);
    }
    let t: i128 = fixed::divb(jdn - 2_451_545_000_000_000_000, 36525,
        Ghost(78_000_000_000_000_000_000int));
    let t2: i128 = fixed::mulb(t, t,
        Ghost(2_200_000_000_000_000int), Ghost(2_200_000_000_000_000int));
    let m: i128 = 357_529_100_000_000
        + fixed::mulb(35_999_050_300_000_000, t,
            Ghost(35_999_050_300_000_000int), Ghost(2_200_000_000_000_000int))
        - fixed::mulb(155_900_000, t2,
            Ghost(155_900_000int), Ghost(4_900_000_000_000_000_000int))
        - fixed::mulb(480_000,
            fixed::mulb(t, t2,
                Ghost(2_200_000_000_000_000int), Ghost(4_900_000_000_000_000_000int)),
            Ghost(480_000int), Ghost(10_800_000_000_000_000_000_000int));
    let l0: i128 = 280_466_450_000_000
        + fixed::mulb(36_000_769_830_000_000, t,
            Ghost(36_000_769_830_000_000int), Ghost(2_200_000_000_000_000int))
        + fixed::mulb(303_200_000, t2,
            Ghost(303_200_000int), Ghost(4_900_000_000_000_000_000int));
    let dl: i128 = fixed::mulb(
            1_914_600_000_000
                - fixed::mulb(4_817_000_000, t,
                    Ghost(4_817_000_000int), Ghost(2_200_000_000_000_000int))
                - fixed::mulb(14_000_000, t2,
                    Ghost(14_000_000int), Ghost(4_900_000_000_000_000_000int)),
            fixed::sin_deg(m),
            Ghost(100_000_000_000_000int), Ghost(21_000_000_000_000int))
        + fixed::mulb(
            19_993_000_000 - fixed::mulb(101_000_000, t,
                Ghost(101_000_000int), Ghost(2_200_000_000_000_000int)),
            fixed::sin_deg(2 * m),
            Ghost(300_000_000_000int), Ghost(21_000_000_000_000int))
        + fixed::mulb(290_000_000, fixed::sin_deg(3 * m),
            Ghost(290_000_000int), Ghost(21_000_000_000_000int));
    let lsum: i128 = l0 + dl;
    let lr: i128 = fixed::divb(lsum * 13_176_795, 754_974_720,
        Ghost(1_100_000_000_000_000_000_000_000_000int));
    proof {
        fixed::lemma_abs_mul(lsum as int, 13_176_795int,
            81_000_000_000_000_000_000int, 13_176_795int);
    }
    let qn: i128 = lr * 2_097_152;
    let q: i128 = fixed::divb(qn, 13_176_795_000_000_000_000,
        Ghost(3_100_000_000_000_000_000_000_000int));
    let p2: i128 = q * 13_176_795_000_000_000_000;
    let sub: i128 = fixed::divb(p2, 2_097_152,
        Ghost(3_200_000_000_000_000_000_000_000int));
    let l1: i128 = lr - sub;
    proof {
        vstd::arithmetic::div_mod::lemma_fundamental_div_mod(
            qn as int, 13_176_795_000_000_000_000int);
        vstd::arithmetic::div_mod::lemma_mod_bound(qn as int, 13_176_795_000_000_000_000int);
        vstd::arithmetic::div_mod::lemma_fundamental_div_mod(p2 as int, 2_097_152int);
        vstd::arithmetic::div_mod::lemma_mod_bound(p2 as int, 2_097_152int);
        assert(0 <= l1 <= 6_283_185_482_026);
    }
    if l1 >= 6_283_185_482_026 {
        l1 - 6_283_185_482_026
    } else {
        l1
    }
}

/// The 30-degree sector, 0 to 11, of the sun's ecliptic longitude at local
/// midnight starting calendar day `jd` in timezone `tz`.
pub open spec fn spec_get_sun_longitude(jd: int, tz: int) -> int {
    let x = jd * 1_000_000_000_000 - 500_000_000_000 - (tz * 1_000_000_000_000) / 24;
    spec_sun_longitude(x) * 25_165_824 / 13_176_795_000_000_000_000
}

/// The 30-degree sector of the sun's longitude at local midnight of day
/// `jd`; used as the discrete solar-term signal.
pub fn get_sun_longitude(jd: i64, time_zone: i64) -> (s: i64)
    requires
        -60_000_000 <= jd <= 60_000_000,
        -10_000 <= time_zone <= 10_000,
    ensures
        s == spec_get_sun_longitude(jd as int, time_zone as int),
        0 <= s <= 11,
{
    let tz_term: i128 = fixed::floor_div((time_zone as i128) * 1_000_000_000_000, 24);
    proof {
        fixed::lemma_div_range((time_zone as int) * 1_000_000_000_000, 24,
            10_000_000_000_000_000int);
    }
    let x: i128 = (jd as i128) * 1_000_000_000_000 - 500_000_000_000 - tz_term;
    let l: i128 = sun_longitude(x);
    let sn: i128 = l * 25_165_824;
    let s128: i128 = fixed::divb(sn, 13_176_795_000_000_000_000,
        Ghost(160_000_000_000_000_000_000int));
    proof {
        vstd::arithmetic::div_mod::lemma_div_pos_is_pos(sn as int, 13_176_795_000_000_000_000int);
        vstd::arithmetic::div_mod::lemma_fundamental_div_mod(sn as int,
            13_176_795_000_000_000_000int);
        vstd::arithmetic::div_mod::lemma_mod_bound(sn as int, 13_176_795_000_000_000_000int);
    }
    s128 as i64
}


/// Bounds on the Julian day number of Dec 31 for years in the supported
/// range, used to bound the lunation index in the month-11 search.
proof fn lemma_jd_dec31_range(yyyy: int)
    requires
        -70_001 <= yyyy <= 75_001,
    ensures
        -25_000_000 <= spec_jd_from_date(31, 12, yyyy) <= 30_000_000,
{
    let y = yyyy + 4800;
    fixed::lemma_div_range(y, 4, 79_801);
    fixed::lemma_div_range(y, 100, 79_801);
    fixed::lemma_div_range(y, 400, 79_801);
}

/// Calendar day of the new moon that starts lunar month 11 of solar year
/// `yyyy`: the lunation nearest Dec 31, stepped back once when the sun has
/// already passed the winter-solstice sector boundary (sector 9) at that
/// new moon, so that month 11 contains the winter solstice.
pub open spec fn spec_get_lunar_month11(yyyy: int, tz: int) -> int {
    let off = spec_jd_from_date(31, 12, yyyy) - 2_415_021;
    let k = (off * 1_000_000_000) / 29_530_588_853;
    let nm = spec_get_new_moon_day(k, tz);
    if spec_get_sun_longitude(nm, tz) >= 9 {
        spec_get_new_moon_day(k - 1, tz)
    } else {
        nm
    }
}

/// Calendar day (integer JDN) of the new moon starting lunar month 11 of
/// solar year `yyyy`, for timezone `tz`.
pub fn get_lunar_month11(yyyy: i64, time_zone: i64) -> (nm: i64)
    requires
        -70_000 <= yyyy <= 75_000,
        -10_000 <= time_zone <= 10_000,
    ensures
        nm == spec_get_lunar_month11(yyyy as int, time_zone as int),
        -26_000_000 <= nm <= 36_000_000,
{
    proof {
        lemma_jd_dec31_range(yyyy as int);
    }
    let jd: i64 = jd_from_date(31, 12, yyyy);
    let off: i64 = jd - 2_415_021;
    let k128: i128 = fixed::divb((off as i128) * 1_000_000_000, 29_530_588_853,
        Ghost(32_500_000_000_000_000int));
    let k: i64 = k128 as i64;
    let nm0: i64 = get_new_moon_day(k, time_zone);
    let sun_long: i64 = get_sun_longitude(nm0, time_zone);
    if sun_long >= 9 {
        get_new_moon_day(k - 1, time_zone)
    } else {
        nm0
    }
}

/// One step of the leap-month scan from lunation `k`: the result is `i - 1`
/// for the first `i` (from 2 to 13) at which the sun-longitude sector does
/// not change across the `i`-th new moon after `k`, and 13 when the sector
/// changes at every step.  A month whose boundaries span no sector change
/// contains no major solar term, which is the traditional mark of the
/// inserted month.
pub open spec fn spec_leap_scan(k: int, tz: int, i: int) -> int
    decreases 14 - i,
{
    if i >= 14 || i < 2 {
        13
    } else if spec_get_sun_longitude(spec_get_new_moon_day(k + i, tz), tz)
        == spec_get_sun_longitude(spec_get_new_moon_day(k + i - 1, tz), tz) {
        i - 1
    } else {
        spec_leap_scan(k, tz, i + 1)
    }
}

/// Offset (1 to 13) of the leap month from the month-11 start `a11`.
pub open spec fn spec_get_leap_month_offset(a11: int, tz: int) -> int {
    let k = (2 * (a11 * 1_000_000_000 - 2_415_021_076_998_695) + 29_530_588_853)
        / 59_061_177_706;
    spec_leap_scan(k, tz, 2)
}

/// Offset of the leap month from the month-11 start `a11` (a new-moon day
/// as returned by [`get_lunar_month11`]): scans up to 13 following new
/// moons for the first month without a sector change.
pub fn get_leap_month_offset(a11: i64, time_zone: i64) -> (r: i64)
    requires
        -40_000_000 <= a11 <= 40_000_000,
        -10_000 <= time_zone <= 10_000,
    ensures
        r == spec_get_leap_month_offset(a11 as int, time_zone as int),
        1 <= r <= 13,
{
    let num: i128 = (a11 as i128) * 1_000_000_000 - 2_415_021_076_998_695;
    let k128: i128 = fixed::divb(2 * num + 29_530_588_853, 59_061_177_706,
        Ghost(84_900_000_000_000_000int));
    let k: i64 = k128 as i64;
    proof {
        assert(k as int == (2 * ((a11 as int) * 1_000_000_000 - 2_415_021_076_998_695)
            + 29_530_588_853) / 59_061_177_706);
        assert(spec_get_leap_month_offset(a11 as int, time_zone as int)
            == spec_leap_scan(k as int, time_zone as int, 2));
    }
    let mut prev: i64 = get_sun_longitude(get_new_moon_day(k + 1, time_zone), time_zone);
    let mut i: i64 = 2;
    while i < 14
        invariant
            2 <= i <= 14,
            -1_438_000 <= k <= 1_438_000,
            -10_000 <= time_zone <= 10_000,
            prev == spec_get_sun_longitude(
                spec_get_new_moon_day(k + i - 1, time_zone as int), time_zone as int),
            spec_get_leap_month_offset(a11 as int, time_zone as int)
                == spec_leap_scan(k as int, time_zone as int, i as int),
        decreases 14 - i,
    {
        let arc: i64 = get_sun_longitude(get_new_moon_day(k + i, time_zone), time_zone);
        if arc == prev {
            proof {
                assert(spec_leap_scan(k as int, time_zone as int, i as int) == i - 1);
            }
            return i - 1;
        }
        proof {
            assert(spec_leap_scan(k as int, time_zone as int, i as int)
                == spec_leap_scan(k as int, time_zone as int, i as int + 1));
        }
        prev = arc;
        i += 1;
    }
    13
}


/// Bounds on the Julian day number for calendar-plausible day and month
/// fields and a year in the supported conversion range.
pub proof fn lemma_jd_from_date_range(dd: int, mm: int, yyyy: int)
    requires
        1 <= dd <= 31,
        1 <= mm <= 12,
        -70_001 <= yyyy <= 75_001,
    ensures
        -25_000_000 <= spec_jd_from_date(dd, mm, yyyy) <= 30_000_000,
{
    let a = (14 - mm) / 12;
    assert(0 <= a <= 1);
    let y = yyyy + 4800 - a;
    let m = mm + 12 * a - 3;
    assert(0 <= m <= 11);
    assert(0 <= (153 * m + 2) / 5 <= 340);
    fixed::lemma_div_range(y, 4, 79_801);
    fixed::lemma_div_range(y, 100, 79_801);
    fixed::lemma_div_range(y, 400, 79_801);
}

} // verus!
