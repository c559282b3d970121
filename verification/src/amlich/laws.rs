//! Calendar laws: proved properties of the Julian day conversions.

use vstd::prelude::*;

use crate::amlich::fns;

verus! {

/// Whether `y` is a leap year of the civil calendar: the Julian rule
/// (divisible by 4) up to the 1582 cutover, the Gregorian 4/100/400 rule
/// after it.  The two rules agree on 1582 itself.
pub open spec fn spec_is_leap_year(y: int) -> bool {
    if y < 1583 {
        y % 4 == 0
    } else {
        y % 4 == 0 && (y % 100 != 0 || y % 400 == 0)
    }
}

/// Number of days in month `m` of year `y`.
pub open spec fn spec_days_in_month(y: int, m: int) -> int {
    if m == 4 || m == 6 || m == 9 || m == 11 {
        30
    } else if m == 2 {
        if spec_is_leap_year(y) {
            29
        } else {
            28
        }
    } else {
        31
    }
}

/// `(c * q + b) / c == q + b / c` for a positive divisor `c`.
proof fn lemma_div_shift(b: int, c: int, q0: int)
    requires
        0 < c,
    ensures
        (c * q0 + b) / c == q0 + b / c,
{
    vstd::arithmetic::div_mod::lemma_fundamental_div_mod(b, c);
    vstd::arithmetic::div_mod::lemma_mod_bound(b, c);
    assert(c * q0 + b == (q0 + b / c) * c + b % c) by (nonlinear_arith)
        requires
            b == c * (b / c) + b % c,
    ;
    vstd::arithmetic::div_mod::lemma_fundamental_div_mod_converse(
        c * q0 + b, c, q0 + b / c, b % c);
}

/// Round trip through the Julian day number: converting a valid calendar
/// date to its day number and back recovers the date.  The ten days
/// removed by the 1582 cutover (Oct 5 to Oct 14, 1582) are not calendar
/// dates and are excluded, as are years before the Julian day epoch.
pub proof fn lemma_jd_round_trip(dd: int, mm: int, yyyy: int)
    requires
        1 <= mm <= 12,
        1 <= dd <= spec_days_in_month(yyyy, mm),
        -4712 <= yyyy <= 1_000_000,
        !(yyyy == 1582 && mm == 10 && 5 <= dd && dd <= 14),
    ensures
        fns::spec_jd_to_date(fns::spec_jd_from_date(dd, mm, yyyy)) == (yyyy, mm, dd),
{
    let a0 = (14 - mm) / 12;
    let y = yyyy + 4800 - a0;
    let m = mm + 12 * a0 - 3;
    let cm = (153 * m + 2) / 5;
    let x = dd - 1 + cm;
    let greg = dd + cm + 365 * y + y / 4 - y / 100 + y / 400 - 32045;
    assert(0 <= a0 <= 1 && 0 <= m <= 11 && 0 <= cm <= 337 && mm == m + 3 - 12 * (m / 10)
        && a0 == m / 10);
    assert(0 <= x <= 365);

    let q = y / 100;
    let r = y % 100;
    vstd::arithmetic::div_mod::lemma_fundamental_div_mod(y, 100);
    vstd::arithmetic::div_mod::lemma_mod_bound(y, 100);
    vstd::arithmetic::div_mod::lemma_fundamental_div_mod(q, 4);
    vstd::arithmetic::div_mod::lemma_fundamental_div_mod(r, 4);
    vstd::arithmetic::div_mod::lemma_mod_bound(q, 4);
    vstd::arithmetic::div_mod::lemma_mod_bound(r, 4);
    // y / 4 == 25 * q + r / 4, y / 100 == q, y / 400 == q / 4.
    lemma_div_shift(r, 4, 25 * q);
    lemma_div_shift(r, 100, q);
    lemma_div_shift(100 * (q % 4) + r, 400, q / 4);
    assert(r / 100 == 0 && (100 * (q % 4) + r) / 400 == 0);
    assert(y / 4 == 25 * q + r / 4 && y / 100 == q && y / 400 == q / 4);

    // The leap-day constraint, phrased on q and r.
    if m == 11 && dd == 29 {
        assert(mm == 2 && spec_is_leap_year(yyyy));
        assert(yyyy == 100 * q + r - 4799);
        vstd::arithmetic::div_mod::lemma_fundamental_div_mod(yyyy, 4);
        vstd::arithmetic::div_mod::lemma_fundamental_div_mod(yyyy, 100);
        vstd::arithmetic::div_mod::lemma_fundamental_div_mod(yyyy, 400);
        vstd::arithmetic::div_mod::lemma_mod_bound(yyyy, 4);
        vstd::arithmetic::div_mod::lemma_mod_bound(yyyy, 100);
        vstd::arithmetic::div_mod::lemma_mod_bound(yyyy, 400);
        assert(r % 4 == 3);
        assert(yyyy >= 1583 && r == 99 ==> q % 4 == 3);
    }

    if yyyy >= 1583 || greg >= 2299161 {
        // Gregorian branch on both sides.
        assert(greg >= 2299161) by {
            if yyyy >= 1583 {
                assert(y / 4 - y / 100 >= (24 * y) / 100) by {
                    vstd::arithmetic::div_mod::lemma_fundamental_div_mod(y, 4);
                    vstd::arithmetic::div_mod::lemma_mod_bound(y, 4);
                    vstd::arithmetic::div_mod::lemma_fundamental_div_mod(y, 100);
                    vstd::arithmetic::div_mod::lemma_mod_bound(y, 100);
                    vstd::arithmetic::div_mod::lemma_fundamental_div_mod(24 * y, 100);
                    vstd::arithmetic::div_mod::lemma_mod_bound(24 * y, 100);
                };
                if mm <= 2 {
                    assert(y >= 6382 && cm >= 306);
                    vstd::arithmetic::div_mod::lemma_div_is_ordered(24int * 6382, 24 * y, 100);
                } else {
                    assert(y >= 6383);
                    vstd::arithmetic::div_mod::lemma_div_is_ordered(24int * 6383, 24 * y, 100);
                }
                assert(y / 400 >= 0) by {
                    vstd::arithmetic::div_mod::lemma_div_pos_is_pos(y, 400);
                };
            }
        };
        let jd = greg;
        assert(fns::spec_jd_from_date(dd, mm, yyyy) == jd);

        let aa = jd + 32044;
        assert(aa == x + 36500 * q + 365 * r + 25 * q + r / 4 - q + q / 4);
        // b == q.
        let rem_b = 4 * (365 * r + r / 4 + x) + 3 - q % 4;
        assert(4 * aa + 3 == 146097 * q + rem_b);
        assert(0 <= rem_b <= 146096);
        vstd::arithmetic::div_mod::lemma_fundamental_div_mod_converse(
            4 * aa + 3, 146097, q, rem_b);
        let b = (4 * aa + 3) / 146097;
        assert(b == q);
        // c == 365 * r + r / 4 + x.
        lemma_div_shift(q, 4, 36524 * q);
        assert(146097 * q == 4 * (36524 * q) + q);
        assert((b * 146097) / 4 == 36524 * q + q / 4);
        let c = aa - (b * 146097) / 4;
        assert(c == 365 * r + r / 4 + x);
        // d == r.
        let rem_d = 4 * x + 3 - r % 4;
        assert(4 * c + 3 == 1461 * r + rem_d);
        assert(0 <= rem_d <= 1460);
        vstd::arithmetic::div_mod::lemma_fundamental_div_mod_converse(4 * c + 3, 1461, r, rem_d);
        let d = (4 * c + 3) / 1461;
        assert(d == r);
        // e == x.
        lemma_div_shift(r, 4, 365 * r);
        assert(1461 * r == 4 * (365 * r) + r);
        assert((1461 * d) / 4 == 365 * r + r / 4);
        let e = c - (1461 * d) / 4;
        assert(e == x);
        // month and day.
        let m_ = (5 * e + 2) / 153;
        vstd::arithmetic::div_mod::lemma_fundamental_div_mod_converse(
            5 * e + 2, 153, m, 5 * e + 2 - 153 * m);
        assert(m_ == m);
        assert(e - (153 * m_ + 2) / 5 + 1 == dd);
        assert(m_ + 3 - 12 * (m_ / 10) == mm);
        assert(b * 100 + d - 4800 + m_ / 10 == yyyy);
        assert(fns::spec_jd_to_date(jd) == (yyyy, mm, dd));
    } else {
        // Julian branch on both sides.
        let jul = dd + cm + 365 * y + y / 4 - 32083;
        assert(fns::spec_jd_from_date(dd, mm, yyyy) == jul);
        assert(jul <= 2299160) by {
            if yyyy <= 1581 {
                assert(y <= 6381);
                vstd::arithmetic::div_mod::lemma_div_is_ordered(y, 6381, 4);
            } else {
                assert(yyyy == 1582);
            }
        };
        assert(jul >= -32045) by {
            assert(y >= 87);
            vstd::arithmetic::div_mod::lemma_div_pos_is_pos(y, 4);
        };
        let jd = jul;
        let c = jd + 32082;
        assert(c == 365 * y + y / 4 + x);
        // d == y.
        vstd::arithmetic::div_mod::lemma_fundamental_div_mod(y, 4);
        vstd::arithmetic::div_mod::lemma_mod_bound(y, 4);
        assert(4 * c + 3 == 1461 * y + (4 * x + 3 - y % 4)) by {
            assert(4 * (y / 4) == y - y % 4);
        };
        if m == 11 && dd == 29 {
            assert(spec_is_leap_year(yyyy) && yyyy < 1583);
            vstd::arithmetic::div_mod::lemma_fundamental_div_mod(yyyy, 4);
            vstd::arithmetic::div_mod::lemma_mod_bound(yyyy, 4);
            assert(y % 4 == 3);
        }
        assert(0 <= 4 * x + 3 - y % 4 <= 1460);
        vstd::arithmetic::div_mod::lemma_fundamental_div_mod_converse(
            4 * c + 3, 1461, y, 4 * x + 3 - y % 4);
        let d = (4 * c + 3) / 1461;
        assert(d == y);
        lemma_div_shift(y, 4, 365 * y);
        assert(1461 * y == 4 * (365 * y) + y);
        assert((1461 * d) / 4 == 365 * y + y / 4);
        let e = c - (1461 * d) / 4;
        assert(e == x);
        let m_ = (5 * e + 2) / 153;
        vstd::arithmetic::div_mod::lemma_fundamental_div_mod_converse(
            5 * e + 2, 153, m, 5 * e + 2 - 153 * m);
        assert(m_ == m);
        assert(e - (153 * m_ + 2) / 5 + 1 == dd);
        assert(m_ + 3 - 12 * (m_ / 10) == mm);
        assert(0 * 100 + d - 4800 + m_ / 10 == yyyy);
        assert(fns::spec_jd_to_date(jd) == (yyyy, mm, dd));
    }
}

/// The 1582 calendar cutover: Oct 4, 1582 (Julian) is immediately followed
/// by Oct 15, 1582 (Gregorian); the ten dates in between do not exist.
pub proof fn lemma_calendar_cutover()
    ensures
        fns::spec_jd_from_date(15, 10, 1582) == fns::spec_jd_from_date(4, 10, 1582) + 1,
        fns::spec_jd_from_date(15, 10, 1582) == fns::GREGORIAN_START_JDN,
{
}


} // verus!
