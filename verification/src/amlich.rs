//! Conversion between the Gregorian solar calendar and the Vietnamese
//! lunisolar calendar.
//!
//! The astronomical core lives in [`fns`]; the fixed-point arithmetic it is
//! built on lives in [`fixed`].

pub mod fixed;
pub mod fns;
pub mod laws;

use vstd::prelude::*;

verus! {

/// A date in the (proleptic) Gregorian/Julian civil calendar.
///
/// Plain value, no invariant enforced by construction: callers may pass
/// out-of-range fields, and the conversions are then merely well-defined
/// arithmetic, not calendrically meaningful.
#[derive(Copy, Clone, PartialEq, Eq, Structural, Debug)]
pub struct SolarDate {
    pub day: i64,
    pub month: i64,
    pub year: i64,
}

impl SolarDate {
    pub fn new(year: i64, month: i64, day: i64) -> (d: SolarDate)
        ensures
            d.year == year,
            d.month == month,
            d.day == day,
    {
        SolarDate { day, month, year }
    }
}

/// A date in the lunisolar calendar.  `is_leap` marks the inserted
/// (embolismic) month of a 13-month lunar year.
#[derive(Copy, Clone, PartialEq, Eq, Structural, Debug)]
pub struct LunarDate {
    pub day: i64,
    pub month: i64,
    pub year: i64,
    pub is_leap: bool,
}

impl LunarDate {
    pub fn new(year: i64, month: i64, day: i64, is_leap: bool) -> (d: LunarDate)
        ensures
            d.year == year,
            d.month == month,
            d.day == day,
            d.is_leap == is_leap,
    {
        LunarDate { day, month, year, is_leap }
    }
}

/// Smallest solar year accepted by the calendar conversions.
pub const CONVERT_YEAR_MIN: i64 = -69_999;

/// Largest solar year accepted by the calendar conversions.
pub const CONVERT_YEAR_MAX: i64 = 74_999;

/// The lunar date of the solar date `(dd, mm, yyyy)` in timezone `tz`, as a
/// `(year, month, day, is_leap)` tuple: locate the new moon starting the
/// containing lunar month, anchor against the month-11 starts of the
/// bracketing lunar years, and resolve the inserted month of a 13-month
/// year via the leap-month offset.
pub open spec fn spec_solar2lunar(dd: int, mm: int, yyyy: int, tz: int) -> (int, int, int, bool) {
    let jd = fns::spec_jd_from_date(dd, mm, yyyy);
    let k = (jd * 1_000_000_000 - 2_415_021_076_998_695) / 29_530_588_853;
    let ms0 = fns::spec_get_new_moon_day(k + 1, tz);
    let month_start = if ms0 > jd {
        fns::spec_get_new_moon_day(k, tz)
    } else {
        ms0
    };
    let a11_first = fns::spec_get_lunar_month11(yyyy, tz);
    let a11 = if a11_first >= month_start {
        fns::spec_get_lunar_month11(yyyy - 1, tz)
    } else {
        a11_first
    };
    let b11 = if a11_first >= month_start {
        a11_first
    } else {
        fns::spec_get_lunar_month11(yyyy + 1, tz)
    };
    let base_year = if a11_first >= month_start {
        yyyy
    } else {
        yyyy + 1
    };
    let lunar_day = jd - month_start + 1;
    let diff = (month_start - a11) / 29;
    let has13 = b11 - a11 > 365;
    let leap_off = fns::spec_get_leap_month_offset(a11, tz);
    let month0 = if has13 && diff >= leap_off {
        diff + 10
    } else {
        diff + 11
    };
    let is_leap = has13 && diff == leap_off;
    let month1 = if month0 > 12 {
        month0 - 12
    } else {
        month0
    };
    let year = if month1 >= 11 && diff < 4 {
        base_year - 1
    } else {
        base_year
    };
    (year, month1, lunar_day, is_leap)
}

/// Convert a solar date to its lunar counterpart for the timezone offset
/// `time_zone` (whole hours ahead of UTC).
///
/// The field values of `solar_date` are not validated beyond the ranges
/// below; a triple that is not a real calendar date yields a well-defined
/// but not calendrically meaningful result.
pub fn solar2lunar(solar_date: SolarDate, time_zone: i64) -> (r: LunarDate)
    requires
        1 <= solar_date.day <= 31,
        1 <= solar_date.month <= 12,
        CONVERT_YEAR_MIN <= solar_date.year <= CONVERT_YEAR_MAX,
        -10_000 <= time_zone <= 10_000,
    ensures
        (r.year as int, r.month as int, r.day as int, r.is_leap) == spec_solar2lunar(
            solar_date.day as int, solar_date.month as int, solar_date.year as int,
            time_zone as int),
{
    let yyyy = solar_date.year;
    let mm = solar_date.month;
    let dd = solar_date.day;

    proof {
        fns::lemma_jd_from_date_range(dd as int, mm as int, yyyy as int);
    }
    let day_number: i64 = fns::jd_from_date(dd, mm, yyyy);

    let k128: i128 = fixed::divb(
        (day_number as i128) * 1_000_000_000 - 2_415_021_076_998_695,
        29_530_588_853, Ghost(32_500_000_000_000_000int));
    let k: i64 = k128 as i64;
    let mut month_start: i64 = fns::get_new_moon_day(k + 1, time_zone);
    if month_start > day_number {
        month_start = fns::get_new_moon_day(k, time_zone);
    }
    let mut a11: i64 = fns::get_lunar_month11(yyyy, time_zone);
    let mut b11: i64 = a11;
    let mut lunar_year: i64;
    if a11 >= month_start {
        lunar_year = yyyy;
        a11 = fns::get_lunar_month11(yyyy - 1, time_zone);
    } else {
        lunar_year = yyyy + 1;
        b11 = fns::get_lunar_month11(yyyy + 1, time_zone);
    }
    let lunar_day: i64 = day_number - month_start + 1;
    let diff: i64 = fns::floor_div64(month_start - a11, 29);
    let mut is_leap = false;
    let mut lunar_month: i64 = diff + 11;

    if b11 - a11 > 365 {
        let leap_month_diff: i64 = fns::get_leap_month_offset(a11, time_zone);
        if diff >= leap_month_diff {
            lunar_month = diff + 10;
            if diff == leap_month_diff {
                is_leap = true;
            }
        }
    }
    if lunar_month > 12 {
        lunar_month = lunar_month - 12;
    }
    if lunar_month >= 11 && diff < 4 {
        lunar_year = lunar_year - 1;
    }

    LunarDate::new(lunar_year, lunar_month, lunar_day, is_leap)
}

/// The solar date of the lunar date `(ld, lm, ly, leap)` in timezone `tz`,
/// as a `(year, month, day)` tuple.  An inconsistent leap claim (the month
/// is asserted leap but is not the inserted month of its 13-month lunar
/// year) yields the sentinel `(0, 0, 0)`.
pub open spec fn spec_lunar2solar(ld: int, lm: int, ly: int, leap: bool, tz: int) -> (
    int,
    int,
    int,
) {
    let a11 = if lm < 11 {
        fns::spec_get_lunar_month11(ly - 1, tz)
    } else {
        fns::spec_get_lunar_month11(ly, tz)
    };
    let b11 = if lm < 11 {
        fns::spec_get_lunar_month11(ly, tz)
    } else {
        fns::spec_get_lunar_month11(ly + 1, tz)
    };
    let k = (2 * (a11 * 1_000_000_000 - 2_415_021_076_998_695) + 29_530_588_853)
        / 59_061_177_706;
    let off0 = if lm - 11 < 0 {
        lm + 1
    } else {
        lm - 11
    };
    let has13 = b11 - a11 > 365;
    let leap_off = fns::spec_get_leap_month_offset(a11, tz);
    let leap_month0 = leap_off - 2;
    let leap_month = if leap_month0 < 0 {
        leap_month0 + 12
    } else {
        leap_month0
    };
    if has13 && leap && lm != leap_month {
        (0, 0, 0)
    } else {
        let off = if has13 && (leap || off0 >= leap_off) {
            off0 + 1
        } else {
            off0
        };
        let ms = fns::spec_get_new_moon_day(k + off, tz);
        fns::spec_jd_to_date(ms + ld - 1)
    }
}

/// Convert a lunar date back to its solar counterpart for the timezone
/// offset `time_zone`.
///
/// When the date claims to be in a leap month that is not the inserted
/// month of its lunar year, the sentinel date `(0, 0, 0)` is returned; a
/// caller that must tell the sentinel from a real date checks the leap
/// claim first.
pub fn lunar2solar(luna_date: LunarDate, time_zone: i64) -> (r: SolarDate)
    requires
        1 <= luna_date.day <= 31,
        1 <= luna_date.month <= 12,
        CONVERT_YEAR_MIN <= luna_date.year <= CONVERT_YEAR_MAX,
        -10_000 <= time_zone <= 10_000,
    ensures
        (r.year as int, r.month as int, r.day as int) == spec_lunar2solar(
            luna_date.day as int, luna_date.month as int, luna_date.year as int,
            luna_date.is_leap, time_zone as int),
{
    let lunar_year = luna_date.year;
    let lunar_month = luna_date.month;
    let lunar_day = luna_date.day;
    let lunar_leap = luna_date.is_leap;

    let a11: i64;
    let b11: i64;

    if lunar_month < 11 {
        a11 = fns::get_lunar_month11(lunar_year - 1, time_zone);
        b11 = fns::get_lunar_month11(lunar_year, time_zone);
    } else {
        a11 = fns::get_lunar_month11(lunar_year, time_zone);
        b11 = fns::get_lunar_month11(lunar_year + 1, time_zone);
    }
    let k128: i128 = fixed::divb(
        2 * ((a11 as i128) * 1_000_000_000 - 2_415_021_076_998_695) + 29_530_588_853,
        59_061_177_706, Ghost(77_000_000_000_000_000int));
    let k: i64 = k128 as i64;
    let mut off: i64 = lunar_month - 11;

    if off < 0 {
        off += 12;
    }
    if b11 - a11 > 365 {
        let leap_off: i64 = fns::get_leap_month_offset(a11, time_zone);
        let mut leap_month: i64 = leap_off - 2;
        if leap_month < 0 {
            leap_month += 12;
        }

        if lunar_leap && lunar_month != leap_month {
            return SolarDate::new(0, 0, 0);
        } else if lunar_leap || off >= leap_off {
            off += 1;
        }
    }
    let month_start: i64 = fns::get_new_moon_day(k + off, time_zone);

    fns::jd_to_date(month_start + lunar_day - 1)
}


/// The month-11 anchor that [`spec_solar2lunar`] resolves a solar date
/// against: the new-moon day starting month 11 of the preceding lunar-year
/// boundary, together with the lunar year it opens.  Two solar dates with
/// the same anchor lie in the same lunar year.
pub open spec fn spec_lunar_anchor(dd: int, mm: int, yyyy: int, tz: int) -> (int, int) {
    let jd = fns::spec_jd_from_date(dd, mm, yyyy);
    let k = (jd * 1_000_000_000 - 2_415_021_076_998_695) / 29_530_588_853;
    let ms0 = fns::spec_get_new_moon_day(k + 1, tz);
    let month_start = if ms0 > jd {
        fns::spec_get_new_moon_day(k, tz)
    } else {
        ms0
    };
    let a11_first = fns::spec_get_lunar_month11(yyyy, tz);
    if a11_first >= month_start {
        (fns::spec_get_lunar_month11(yyyy - 1, tz), yyyy)
    } else {
        (a11_first, yyyy + 1)
    }
}

/// Exclusivity of the leap month within one lunar year: two solar dates
/// that are resolved against the same month-11 anchor and both fall in a
/// month carrying the leap flag fall in the same lunar month of the same
/// lunar year.  (The leap flag is tied to the single leap-month offset of
/// the anchor, so the flagged month is unique within the anchored year.)
pub proof fn lemma_leap_month_exclusive(
    d1: int, m1: int, y1: int, d2: int, m2: int, y2: int, tz: int,
)
    requires
        spec_solar2lunar(d1, m1, y1, tz).3,
        spec_solar2lunar(d2, m2, y2, tz).3,
        spec_lunar_anchor(d1, m1, y1, tz) == spec_lunar_anchor(d2, m2, y2, tz),
    ensures
        spec_solar2lunar(d1, m1, y1, tz).0 == spec_solar2lunar(d2, m2, y2, tz).0,
        spec_solar2lunar(d1, m1, y1, tz).1 == spec_solar2lunar(d2, m2, y2, tz).1,
{
}


/// The display string of a lunar date: `"{y}-{m:02}-{d:02}"` with an `L`
/// suffix marking the inserted leap month.
pub open spec fn spec_lunar_date_str(l: LunarDate) -> Seq<char> {
    crate::render::spec_ymd_str(l.year as int, l.month as int, l.day as int, '-')
        + if l.is_leap { "L"@ } else { Seq::<char>::empty() }
}

impl SolarDate {
    /// The display string `"{year}-{month:02}-{day:02}"`.
    pub fn to_display_string(&self) -> (s: String)
        ensures
            s@ == crate::render::spec_ymd_str(self.year as int, self.month as int,
                self.day as int, '-'),
    {
        crate::render::render_ymd(self.year, self.month, self.day, false)
    }
}

impl LunarDate {
    /// The display string `"{year}-{month:02}-{day:02}"`, with an `L`
    /// suffix when the month is the inserted leap month.
    pub fn to_display_string(&self) -> (s: String)
        ensures
            s@ == spec_lunar_date_str(*self),
    {
        let mut out = crate::render::render_ymd(self.year, self.month, self.day, false);
        if self.is_leap {
            out.append("L");
        }
        proof {
            assert(out@ =~= spec_lunar_date_str(*self));
        }
        out
    }
}

} // verus!
