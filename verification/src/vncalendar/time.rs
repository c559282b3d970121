//! The civil date wrapper: a timezone-tagged solar instant together with
//! its lunar projection, recomputed whenever the instant changes.

use vstd::prelude::*;

use crate::amlich;
use crate::amlich::fns;
use crate::amlich::laws;
use crate::render;

verus! {

/// A civil instant: date and time-of-day fields, with nanosecond
/// precision.
#[derive(Copy, Clone, PartialEq, Eq, Structural, Debug)]
pub struct SolarTime {
    pub year: i64,
    pub month: i64,
    pub day: i64,
    pub hour: i64,
    pub minute: i64,
    pub second: i64,
    pub nanosecond: i64,
}

/// Well-formedness of a civil instant: calendar-valid date fields inside
/// the supported year window, and in-range time-of-day fields.
pub open spec fn spec_time_wf(t: SolarTime) -> bool {
    &&& -69_990 <= t.year <= 74_990
    &&& 1 <= t.month <= 12
    &&& 1 <= t.day <= laws::spec_days_in_month(t.year as int, t.month as int)
    &&& 0 <= t.hour < 24
    &&& 0 <= t.minute < 60
    &&& 0 <= t.second < 60
    &&& 0 <= t.nanosecond < 1_000_000_000
}

/// Number of days in month `m` of year `y`.
pub fn days_in_month(y: i64, m: i64) -> (n: i64)
    requires
        1 <= m <= 12,
        -1_000_000_000_000 <= y <= 1_000_000_000_000,
    ensures
        n == laws::spec_days_in_month(y as int, m as int),
{
    if m == 4 || m == 6 || m == 9 || m == 11 {
        30
    } else if m == 2 {
        let q4: i64 = fns::floor_div64(y, 4);
        let q100: i64 = fns::floor_div64(y, 100);
        let q400: i64 = fns::floor_div64(y, 400);
        proof {
            vstd::arithmetic::div_mod::lemma_fundamental_div_mod(y as int, 4);
            vstd::arithmetic::div_mod::lemma_fundamental_div_mod(y as int, 100);
            vstd::arithmetic::div_mod::lemma_fundamental_div_mod(y as int, 400);
            vstd::arithmetic::div_mod::lemma_mod_bound(y as int, 4);
            vstd::arithmetic::div_mod::lemma_mod_bound(y as int, 100);
            vstd::arithmetic::div_mod::lemma_mod_bound(y as int, 400);
        }
        let div4: bool = y - 4 * q4 == 0;
        let div100: bool = y - 100 * q100 == 0;
        let div400: bool = y - 400 * q400 == 0;
        let leap: bool = if y < 1583 {
            div4
        } else {
            div4 && (!div100 || div400)
        };
        if leap {
            29
        } else {
            28
        }
    } else {
        31
    }
}

/// The civil day after `(y, m, d)`.
pub open spec fn spec_next_day(y: int, m: int, d: int) -> (int, int, int) {
    if d < laws::spec_days_in_month(y, m) {
        (y, m, d + 1)
    } else if m < 12 {
        (y, m + 1, 1)
    } else {
        (y + 1, 1, 1)
    }
}

/// Steps a valid date to the next civil day.
fn next_day(y: i64, m: i64, d: i64) -> (r: (i64, i64, i64))
    requires
        1 <= m <= 12,
        1 <= d <= laws::spec_days_in_month(y as int, m as int),
        -70_000 < y < 75_000,
    ensures
        (r.0 as int, r.1 as int, r.2 as int) == spec_next_day(y as int, m as int, d as int),
        1 <= r.1 <= 12,
        1 <= r.2 <= laws::spec_days_in_month(r.0 as int, r.1 as int),
        y <= r.0 <= y + 1,
{
    let dim: i64 = days_in_month(y, m);
    if d < dim {
        (y, m, d + 1)
    } else if m < 12 {
        (y, m + 1, 1)
    } else {
        (y + 1, 1, 1)
    }
}

impl SolarTime {
    /// A civil instant from its fields.
    pub fn new(year: i64, month: i64, day: i64, hour: i64, minute: i64, second: i64,
        nanosecond: i64) -> (t: SolarTime)
        ensures
            t == (SolarTime { year, month, day, hour, minute, second, nanosecond }),
    {
        SolarTime { year, month, day, hour, minute, second, nanosecond }
    }

    /// The civil instant a whole number of seconds after the Unix epoch,
    /// clamped to the epoch for seconds that fall outside the supported
    /// year window.
    pub open spec fn spec_from_timestamp(secs: int) -> SolarTime {
        let days = secs / 86_400;
        let rem = secs - 86_400 * days;
        if -900_000_000 <= days <= 900_000_000 {
            let (y, m, d) = fns::spec_jd_to_date(2_440_588 + days);
            let t = SolarTime {
                year: y as i64,
                month: m as i64,
                day: d as i64,
                hour: (rem / 3_600) as i64,
                minute: ((rem % 3_600) / 60) as i64,
                second: ((rem % 3_600) % 60) as i64,
                nanosecond: 0,
            };
            if spec_time_wf(t) {
                t
            } else {
                SolarTime { year: 1970, month: 1, day: 1, hour: 0, minute: 0, second: 0,
                    nanosecond: 0 }
            }
        } else {
            SolarTime { year: 1970, month: 1, day: 1, hour: 0, minute: 0, second: 0,
                nanosecond: 0 }
        }
    }

    /// The civil instant `secs` non-leap seconds after the Unix epoch.
    pub fn from_timestamp(secs: i64) -> (t: SolarTime)
        ensures
            t == SolarTime::spec_from_timestamp(secs as int),
            spec_time_wf(t),
    {
        let days128: i128 = crate::amlich::fixed::floor_div(secs as i128, 86_400);
        proof {
            crate::amlich::fixed::lemma_div_range(secs as int, 86_400,
                9_223_372_036_854_775_808int);
            vstd::arithmetic::div_mod::lemma_fundamental_div_mod(secs as int, 86_400);
            vstd::arithmetic::div_mod::lemma_mod_bound(secs as int, 86_400);
        }
        let days: i64 = days128 as i64;
        let rem128: i128 = (secs as i128) - 86_400 * days128;
        let rem: i64 = rem128 as i64;
        if days < -900_000_000 || days > 900_000_000 {
            return SolarTime { year: 1970, month: 1, day: 1, hour: 0, minute: 0,
                second: 0, nanosecond: 0 };
        }
        let date = fns::jd_to_date(2_440_588 + days);
        let hour: i64 = fns::floor_div64(rem, 3_600);
        let rem2: i64 = rem - 3_600 * hour;
        proof {
            vstd::arithmetic::div_mod::lemma_fundamental_div_mod(rem as int, 3_600);
            vstd::arithmetic::div_mod::lemma_mod_bound(rem as int, 3_600);
            vstd::arithmetic::div_mod::lemma_fundamental_div_mod(rem2 as int, 60);
            vstd::arithmetic::div_mod::lemma_mod_bound(rem2 as int, 60);
            assert(rem % 3_600 == rem2);
        }
        let minute: i64 = fns::floor_div64(rem2, 60);
        let second: i64 = rem2 - 60 * minute;
        let valid: bool = check_time_wf(date.year, date.month, date.day, hour, minute,
            second, 0);
        if valid {
            SolarTime { year: date.year, month: date.month, day: date.day, hour, minute,
                second, nanosecond: 0 }
        } else {
            SolarTime { year: 1970, month: 1, day: 1, hour: 0, minute: 0, second: 0,
                nanosecond: 0 }
        }
    }

    /// The civil instant `nanos` nanoseconds after the Unix epoch.
    pub open spec fn spec_from_timestamp_nanos(nanos: int) -> SolarTime {
        let secs = nanos / 1_000_000_000;
        let sub = nanos - 1_000_000_000 * secs;
        let base = SolarTime::spec_from_timestamp(secs);
        SolarTime {
            year: base.year,
            month: base.month,
            day: base.day,
            hour: base.hour,
            minute: base.minute,
            second: base.second,
            nanosecond: sub as i64,
        }
    }

    /// The civil instant `nanos` nanoseconds after the Unix epoch.
    pub fn from_timestamp_nanos(nanos: i64) -> (t: SolarTime)
        ensures
            t == SolarTime::spec_from_timestamp_nanos(nanos as int),
            spec_time_wf(t),
    {
        let secs128: i128 = crate::amlich::fixed::floor_div(nanos as i128, 1_000_000_000);
        proof {
            crate::amlich::fixed::lemma_div_range(nanos as int, 1_000_000_000,
                9_223_372_036_854_775_808int);
            vstd::arithmetic::div_mod::lemma_fundamental_div_mod(nanos as int,
                1_000_000_000);
            vstd::arithmetic::div_mod::lemma_mod_bound(nanos as int, 1_000_000_000);
        }
        let secs: i64 = secs128 as i64;
        let sub128: i128 = (nanos as i128) - 1_000_000_000 * secs128;
        let sub: i64 = sub128 as i64;
        let base = SolarTime::from_timestamp(secs);
        SolarTime {
            year: base.year,
            month: base.month,
            day: base.day,
            hour: base.hour,
            minute: base.minute,
            second: base.second,
            nanosecond: sub,
        }
    }
}

/// Runtime validation of the well-formedness of instant fields.
fn check_time_wf(year: i64, month: i64, day: i64, hour: i64, minute: i64, second: i64,
    nanosecond: i64) -> (ok: bool)
    ensures
        ok == spec_time_wf(SolarTime { year, month, day, hour, minute, second, nanosecond }),
{
    if !(-69_990 <= year && year <= 74_990) {
        return false;
    }
    if !(1 <= month && month <= 12) {
        return false;
    }
    let dim: i64 = days_in_month(year, month);
    (1 <= day && day <= dim) && (0 <= hour && hour < 24) && (0 <= minute && minute < 60)
        && (0 <= second && second < 60) && (0 <= nanosecond && nanosecond < 1_000_000_000)
}

/// The lunar projection of local civil fields for timezone offset `tz`.
pub open spec fn spec_lunar_of(t: SolarTime, tz: int) -> (int, int, int, bool) {
    amlich::spec_solar2lunar(t.day as int, t.month as int, t.year as int, tz)
}

/// The instant shifted from UTC into the fixed civil timezone (seven hours
/// ahead); a shift that would leave the supported year window keeps the
/// instant unchanged.
pub open spec fn spec_to_vietnam(t: SolarTime) -> SolarTime {
    if t.hour + 7 < 24 {
        SolarTime { hour: (t.hour + 7) as i64, ..t }
    } else {
        let (y, m, d) = spec_next_day(t.year as int, t.month as int, t.day as int);
        let t2 = SolarTime {
            year: y as i64,
            month: m as i64,
            day: d as i64,
            hour: (t.hour + 7 - 24) as i64,
            ..t
        };
        if spec_time_wf(t2) {
            t2
        } else {
            t
        }
    }
}

/// A civil instant in the fixed timezone together with its cached lunar
/// projection.  The lunar date is recomputed whenever the instant changes;
/// it is never independently mutable.
pub struct VNDate {
    solar_time: SolarTime,
    lunar_date: amlich::LunarDate,
    time_zone_offset: i64,
}

impl VNDate {
    /// The wrapped solar instant (local to the fixed timezone).
    pub closed spec fn spec_solar(self) -> SolarTime {
        self.solar_time
    }

    /// The cached lunar date.
    pub closed spec fn spec_lunar(self) -> amlich::LunarDate {
        self.lunar_date
    }

    /// The timezone offset the lunar projection was computed with.
    pub closed spec fn spec_tz(self) -> int {
        self.time_zone_offset as int
    }

    /// Well-formedness: a valid instant, a plausible offset, and a lunar
    /// date that is exactly the projection of the instant.
    pub open spec fn wf(self) -> bool {
        &&& spec_time_wf(self.spec_solar())
        &&& -10_000 <= self.spec_tz() <= 10_000
        &&& (self.spec_lunar().year as int, self.spec_lunar().month as int,
            self.spec_lunar().day as int, self.spec_lunar().is_leap)
            == spec_lunar_of(self.spec_solar(), self.spec_tz())
    }

    /// Wraps an instant already local to the fixed civil timezone,
    /// deriving its lunar date for the offset `time_zone_offset`.
    pub fn new_by_vietnamese_tz(solar_time: SolarTime, time_zone_offset: i64) -> (r: VNDate)
        requires
            spec_time_wf(solar_time),
            -10_000 <= time_zone_offset <= 10_000,
        ensures
            r.wf(),
            r.spec_solar() == solar_time,
            r.spec_tz() == time_zone_offset,
    {
        let lunar = amlich::solar2lunar(
            amlich::SolarDate::new(solar_time.year, solar_time.month, solar_time.day),
            time_zone_offset);
        VNDate { solar_time, lunar_date: lunar, time_zone_offset }
    }

    /// Wraps a UTC instant: shifts it into the fixed civil timezone, then
    /// derives the lunar date for the offset `time_zone_offset`.
    pub fn new(solar_time: SolarTime, time_zone_offset: i64) -> (r: VNDate)
        requires
            spec_time_wf(solar_time),
            -10_000 <= time_zone_offset <= 10_000,
        ensures
            r.wf(),
            r.spec_solar() == spec_to_vietnam(solar_time),
            r.spec_tz() == time_zone_offset,
    {
        let shifted: SolarTime = if solar_time.hour + 7 < 24 {
            SolarTime {
                hour: solar_time.hour + 7,
                ..solar_time
            }
        } else {
            let (y, m, d) = next_day(solar_time.year, solar_time.month, solar_time.day);
            let t2 = SolarTime {
                year: y,
                month: m,
                day: d,
                hour: solar_time.hour + 7 - 24,
                ..solar_time
            };
            let ok: bool = check_time_wf(t2.year, t2.month, t2.day, t2.hour, t2.minute,
                t2.second, t2.nanosecond);
            if ok {
                t2
            } else {
                solar_time
            }
        };
        VNDate::new_by_vietnamese_tz(shifted, time_zone_offset)
    }

    /// Today's date in the fixed civil timezone, from the system clock.
    pub fn today() -> (r: VNDate)
        ensures
            r.wf(),
            r.spec_tz() == crate::vncalendar::TIME_ZONE_OFFSET as int,
    {
        let now: i64 = now_unix_seconds();
        VNDate::new(SolarTime::from_timestamp(now), crate::vncalendar::TIME_ZONE_OFFSET)
    }

    /// The cached lunar date.
    pub fn get_lunar_date(&self) -> (r: amlich::LunarDate)
        ensures
            r == self.spec_lunar(),
    {
        self.lunar_date
    }

    /// The wrapped solar instant.
    pub fn get_solar_datetime(&self) -> (r: SolarTime)
        ensures
            r == self.spec_solar(),
    {
        self.solar_time
    }

    /// A copy of this date wrapping a different instant, with the lunar
    /// projection recomputed.
    fn with_solar_time(&self, solar_time: SolarTime) -> (r: VNDate)
        requires
            spec_time_wf(solar_time),
            self.wf(),
        ensures
            r.wf(),
            r.spec_solar() == solar_time,
            r.spec_tz() == self.spec_tz(),
    {
        VNDate::new_by_vietnamese_tz(solar_time, self.time_zone_offset)
    }

    /// The instant `rhs_seconds` after this one, or `None` when the shift
    /// leaves the supported window.
    pub open spec fn spec_shift_seconds(t: SolarTime, rhs_seconds: int) -> Option<SolarTime> {
        let tod = t.hour * 3_600 + t.minute * 60 + t.second;
        let total = tod + rhs_seconds;
        let dshift = total / 86_400;
        let tod2 = total - 86_400 * dshift;
        let jd = fns::spec_jd_from_date(t.day as int, t.month as int, t.year as int) + dshift;
        if -23_000_000 <= jd <= 29_000_000 {
            let (y, m, d) = fns::spec_jd_to_date(jd);
            let t2 = SolarTime {
                year: y as i64,
                month: m as i64,
                day: d as i64,
                hour: (tod2 / 3_600) as i64,
                minute: ((tod2 % 3_600) / 60) as i64,
                second: ((tod2 % 3_600) % 60) as i64,
                nanosecond: t.nanosecond,
            };
            if spec_time_wf(t2) {
                Some(t2)
            } else {
                None
            }
        } else {
            None
        }
    }

    /// Steps the wrapped instant by `rhs_seconds` seconds (of any sign),
    /// recomputing the lunar date; `None` when the result would leave the
    /// supported window.
    pub fn checked_add_signed(&self, rhs_seconds: i64) -> (r: Option<VNDate>)
        requires
            self.wf(),
        ensures
            match r {
                Some(v) => {
                    &&& VNDate::spec_shift_seconds(self.spec_solar(), rhs_seconds as int)
                        == Some(v.spec_solar())
                    &&& v.wf()
                    &&& v.spec_tz() == self.spec_tz()
                },
                None => VNDate::spec_shift_seconds(self.spec_solar(), rhs_seconds as int)
                    is None,
            },
    {
        let t = self.solar_time;
        let tod: i64 = t.hour * 3_600 + t.minute * 60 + t.second;
        let total128: i128 = (tod as i128) + (rhs_seconds as i128);
        let dshift128: i128 = crate::amlich::fixed::floor_div(total128, 86_400);
        proof {
            crate::amlich::fixed::lemma_div_range(total128 as int, 86_400,
                10_000_000_000_000_000_000int);
            vstd::arithmetic::div_mod::lemma_fundamental_div_mod(total128 as int, 86_400);
            vstd::arithmetic::div_mod::lemma_mod_bound(total128 as int, 86_400);
        }
        let tod2: i64 = (total128 - 86_400 * dshift128) as i64;
        let jd0: i64 = fns::jd_from_date(t.day, t.month, t.year);
        proof {
            fns::lemma_jd_from_date_range(t.day as int, t.month as int, t.year as int);
        }
        let jd128: i128 = (jd0 as i128) + dshift128;
        if jd128 < -23_000_000 || jd128 > 29_000_000 {
            return None;
        }
        let date = fns::jd_to_date(jd128 as i64);
        let hour: i64 = fns::floor_div64(tod2, 3_600);
        let rem2: i64 = tod2 - 3_600 * hour;
        proof {
            vstd::arithmetic::div_mod::lemma_fundamental_div_mod(tod2 as int, 3_600);
            vstd::arithmetic::div_mod::lemma_mod_bound(tod2 as int, 3_600);
            vstd::arithmetic::div_mod::lemma_fundamental_div_mod(rem2 as int, 60);
            vstd::arithmetic::div_mod::lemma_mod_bound(rem2 as int, 60);
        }
        let minute: i64 = fns::floor_div64(rem2, 60);
        let second: i64 = rem2 - 60 * minute;
        let t2 = SolarTime {
            year: date.year,
            month: date.month,
            day: date.day,
            hour,
            minute,
            second,
            nanosecond: t.nanosecond,
        };
        let ok: bool = check_time_wf(t2.year, t2.month, t2.day, t2.hour, t2.minute,
            t2.second, t2.nanosecond);
        if ok {
            Some(self.with_solar_time(t2))
        } else {
            None
        }
    }
}

/// Relies on chrono's `Utc::now`: the current civil time as non-leap
/// seconds since the Unix epoch.  `Utc::now` rejects clocks before the
/// epoch, and chrono's date range keeps the count well under 10^13.
#[verifier::external_body]
fn now_unix_seconds() -> (r: i64)
    ensures
        0 <= r < 9_000_000_000_000,
{
    chrono::Utc::now().timestamp()
}


impl VNDate {
    /// The same instant with a different year, or `None` when the fields
    /// no longer form a valid date (for instance Feb 29 of a common year).
    pub fn with_solar_year(&self, year: i64) -> (r: Option<VNDate>)
        requires
            self.wf(),
        ensures
            ({
                let t2 = SolarTime { year, ..self.spec_solar() };
                match r {
                    Some(v) => spec_time_wf(t2) && v.wf() && v.spec_solar() == t2
                        && v.spec_tz() == self.spec_tz(),
                    None => !spec_time_wf(t2),
                }
            }),
    {
        let t = self.solar_time;
        let t2 = SolarTime { year, ..t };
        if check_time_wf(t2.year, t2.month, t2.day, t2.hour, t2.minute, t2.second,
            t2.nanosecond) {
            Some(self.with_solar_time(t2))
        } else {
            None
        }
    }

    /// The same instant with a different month, or `None` when the fields
    /// no longer form a valid date.
    pub fn with_solar_month(&self, month: i64) -> (r: Option<VNDate>)
        requires
            self.wf(),
        ensures
            ({
                let t2 = SolarTime { month, ..self.spec_solar() };
                match r {
                    Some(v) => spec_time_wf(t2) && v.wf() && v.spec_solar() == t2
                        && v.spec_tz() == self.spec_tz(),
                    None => !spec_time_wf(t2),
                }
            }),
    {
        let t = self.solar_time;
        let t2 = SolarTime { month, ..t };
        if check_time_wf(t2.year, t2.month, t2.day, t2.hour, t2.minute, t2.second,
            t2.nanosecond) {
            Some(self.with_solar_time(t2))
        } else {
            None
        }
    }

    /// The same instant with a different day of month, or `None` when the
    /// fields no longer form a valid date.
    pub fn with_solar_day(&self, day: i64) -> (r: Option<VNDate>)
        requires
            self.wf(),
        ensures
            ({
                let t2 = SolarTime { day, ..self.spec_solar() };
                match r {
                    Some(v) => spec_time_wf(t2) && v.wf() && v.spec_solar() == t2
                        && v.spec_tz() == self.spec_tz(),
                    None => !spec_time_wf(t2),
                }
            }),
    {
        let t = self.solar_time;
        let t2 = SolarTime { day, ..t };
        if check_time_wf(t2.year, t2.month, t2.day, t2.hour, t2.minute, t2.second,
            t2.nanosecond) {
            Some(self.with_solar_time(t2))
        } else {
            None
        }
    }

    /// The instant a whole number of years, months and days later: months
    /// are added first with the day clamped to the target month's length,
    /// then days are added through the day count.  A result outside the
    /// supported window leaves the date unchanged.
    pub open spec fn spec_add_solar_date(t: SolarTime, years: int, months: int, days: int)
        -> SolarTime {
        let total_m = t.month - 1 + months + 12 * years;
        let y2 = t.year + total_m / 12;
        let m2 = total_m % 12 + 1;
        let d2 = if t.day <= laws::spec_days_in_month(y2, m2) {
            t.day as int
        } else {
            laws::spec_days_in_month(y2, m2)
        };
        let jd = fns::spec_jd_from_date(d2, m2, y2) + days;
        if -23_000_000 <= jd <= 29_000_000 {
            let (y3, m3, d3) = fns::spec_jd_to_date(jd);
            let t2 = SolarTime {
                year: y3 as i64,
                month: m3 as i64,
                day: d3 as i64,
                ..t
            };
            if spec_time_wf(t2) {
                t2
            } else {
                t
            }
        } else {
            t
        }
    }

    /// Adds years, months and days to the solar date and recomputes the
    /// lunar projection.
    pub fn add_solar_date(&self, years: u32, months: u32, days: u64) -> (r: VNDate)
        requires
            self.wf(),
            years <= 100_000,
            months <= 1_200_000,
            days <= 40_000_000,
        ensures
            r.wf(),
            r.spec_solar() == VNDate::spec_add_solar_date(self.spec_solar(), years as int,
                months as int, days as int),
            r.spec_tz() == self.spec_tz(),
    {
        let t = self.solar_time;
        let total_m: i64 = t.month - 1 + (months as i64) + 12 * (years as i64);
        let ym: i64 = fns::floor_div64(total_m, 12);
        proof {
            vstd::arithmetic::div_mod::lemma_fundamental_div_mod(total_m as int, 12);
            vstd::arithmetic::div_mod::lemma_mod_bound(total_m as int, 12);
        }
        let y2: i64 = t.year + ym;
        let m2: i64 = total_m - 12 * ym + 1;
        let dim2: i64 = days_in_month(y2, m2);
        let d2: i64 = if t.day <= dim2 {
            t.day
        } else {
            dim2
        };
        let jd0: i64 = fns::jd_from_date(d2, m2, y2);
        let jd128: i128 = (jd0 as i128) + (days as i128);
        if jd128 < -23_000_000 || jd128 > 29_000_000 {
            return self.with_solar_time(t);
        }
        let date = fns::jd_to_date(jd128 as i64);
        let t2 = SolarTime {
            year: date.year,
            month: date.month,
            day: date.day,
            ..t
        };
        if check_time_wf(t2.year, t2.month, t2.day, t2.hour, t2.minute, t2.second,
            t2.nanosecond) {
            self.with_solar_time(t2)
        } else {
            self.with_solar_time(t)
        }
    }

    /// Steps the instant by a signed number of seconds; a result outside
    /// the supported window leaves the date unchanged.
    pub fn add(&self, duration_seconds: i64) -> (r: VNDate)
        requires
            self.wf(),
        ensures
            r.wf(),
            r.spec_tz() == self.spec_tz(),
            r.spec_solar() == (match VNDate::spec_shift_seconds(self.spec_solar(),
                duration_seconds as int) {
                Some(t2) => t2,
                None => self.spec_solar(),
            }),
    {
        let shifted = self.checked_add_signed(duration_seconds);
        match shifted {
            Some(v) => v,
            None => self.with_solar_time(self.solar_time),
        }
    }

    /// Whether the two wrappers hold the same solar instant.  The lunar
    /// date is a pure function of the instant, so comparing instants
    /// suffices.
    pub fn equal(&self, other: &VNDate) -> (r: bool)
        ensures
            r == (self.spec_solar() == other.spec_solar()),
    {
        self.solar_time == other.solar_time
    }

    /// The day of month of the solar instant.
    pub fn solar_day(&self) -> (r: i64)
        ensures
            r == self.spec_solar().day,
    {
        self.solar_time.day
    }

    /// The month of the solar instant.
    pub fn solar_month(&self) -> (r: i64)
        ensures
            r == self.spec_solar().month,
    {
        self.solar_time.month
    }

    /// The year of the solar instant.
    pub fn solar_year(&self) -> (r: i64)
        ensures
            r == self.spec_solar().year,
    {
        self.solar_time.year
    }

    /// The lunar day of month.
    pub fn day(&self) -> (r: i64)
        ensures
            r == self.spec_lunar().day,
    {
        self.lunar_date.day
    }

    /// The lunar month.
    pub fn month(&self) -> (r: i64)
        ensures
            r == self.spec_lunar().month,
    {
        self.lunar_date.month
    }

    /// The lunar year.
    pub fn year(&self) -> (r: i64)
        ensures
            r == self.spec_lunar().year,
    {
        self.lunar_date.year
    }

    /// Whether the lunar month is the inserted leap month.
    pub fn is_leap(&self) -> (r: bool)
        ensures
            r == self.spec_lunar().is_leap,
    {
        self.lunar_date.is_leap
    }
}

impl PartialEq for VNDate {
    /// Equality is defined solely on the solar instant.
    fn eq(&self, other: &VNDate) -> (r: bool) {
        self.equal(other)
    }
}

impl vstd::std_specs::cmp::PartialEqSpecImpl for VNDate {
    open spec fn obeys_eq_spec() -> bool {
        true
    }

    open spec fn eq_spec(&self, other: &VNDate) -> bool {
        self.spec_solar() == other.spec_solar()
    }
}


/// The rendering of the lunar date `(y, m, d)` under a format template:
/// `None` for a template outside the accepted set.  The accepted templates
/// are the year-first and day-first orders in the `yyyy`/`mm`/`dd` and
/// `%y`/`%m`/`%d` spellings, with `-` or `/` as separator; the empty
/// template renders year-first with `-`.
pub open spec fn spec_format(y: int, m: int, d: int, pat: Seq<char>) -> Option<Seq<char>> {
    if pat.len() == 0 {
        Some(render::spec_ymd_str(y, m, d, '-'))
    } else if pat == "yyyy-mm-dd"@ || pat == "%y-%m-%d"@ {
        Some(render::spec_ymd_str(y, m, d, '-'))
    } else if pat == "yyyy/mm/dd"@ || pat == "%y/%m/%d"@ {
        Some(render::spec_ymd_str(y, m, d, '/'))
    } else if pat == "dd-mm-yyyy"@ || pat == "%d-%m-%y"@ {
        Some(render::spec_dmy_str(y, m, d, '-'))
    } else if pat == "dd/mm/yyyy"@ || pat == "%d/%m/%y"@ {
        Some(render::spec_dmy_str(y, m, d, '/'))
    } else {
        None
    }
}

impl VNDate {
    /// Renders the lunar date under the given template; an unrecognized
    /// template is reported as an error.
    pub fn format(&self, fmt: Option<&str>) -> (r: Result<String, &'static str>)
        requires
            self.wf(),
        ensures
            ({
                let pat = match fmt {
                    Some(f) => f@,
                    None => Seq::<char>::empty(),
                };
                let spec_r = spec_format(self.spec_lunar().year as int,
                    self.spec_lunar().month as int, self.spec_lunar().day as int, pat);
                match r {
                    Ok(s) => spec_r == Some(s@),
                    Err(e) => spec_r is None && e@
                        == "Invalid date format, should be similar as yyyy-mm-dd or %y-%m-%d"@,
                }
            }),
    {
        let y: i64 = self.lunar_date.year;
        let m: i64 = self.lunar_date.month;
        let d: i64 = self.lunar_date.day;
        let s: &str = match fmt {
            Some(f) => f,
            None => "",
        };
        proof {
            reveal_strlit("");
        }
        if s.unicode_len() == 0 {
            Ok(render::render_ymd(y, m, d, false))
        } else if crate::render::str_eq(s, "yyyy-mm-dd") || crate::render::str_eq(s, "%y-%m-%d") {
            Ok(render::render_ymd(y, m, d, false))
        } else if crate::render::str_eq(s, "yyyy/mm/dd") || crate::render::str_eq(s, "%y/%m/%d") {
            Ok(render::render_ymd(y, m, d, true))
        } else if crate::render::str_eq(s, "dd-mm-yyyy") || crate::render::str_eq(s, "%d-%m-%y") {
            Ok(render::render_dmy(y, m, d, false))
        } else if crate::render::str_eq(s, "dd/mm/yyyy") || crate::render::str_eq(s, "%d/%m/%y") {
            Ok(render::render_dmy(y, m, d, true))
        } else {
            Err("Invalid date format, should be similar as yyyy-mm-dd or %y-%m-%d")
        }
    }

    /// The lunar date as `"{y}-{m:02}-{d:02}"` with an `L` suffix when the
    /// month is the inserted leap month.
    pub fn lunar_display(&self) -> (s: String)
        requires
            self.wf(),
        ensures
            s@ == amlich::spec_lunar_date_str(self.spec_lunar()),
    {
        self.lunar_date.to_display_string()
    }

    /// The solar date as `"{y:04}-{m:02}-{d:02}"`, the year padded to four
    /// digits.
    pub fn solar_display(&self) -> (s: String)
        requires
            self.wf(),
        ensures
            s@ == render::spec_solar_ymd_str(self.spec_solar().year as int,
                self.spec_solar().month as int, self.spec_solar().day as int),
    {
        render::render_solar_ymd(self.solar_time.year, self.solar_time.month,
            self.solar_time.day)
    }

    /// The combined display form `"{lunar} ({solar})"`.
    pub fn to_display_string(&self) -> (s: String)
        requires
            self.wf(),
        ensures
            s@ == amlich::spec_lunar_date_str(self.spec_lunar()) + " ("@
                + render::spec_solar_ymd_str(self.spec_solar().year as int,
                    self.spec_solar().month as int, self.spec_solar().day as int)
                + ")"@,
    {
        let mut out = self.lunar_display();
        out.append(" (");
        let solar = self.solar_display();
        out.append(solar.as_str());
        out.append(")");
        proof {
            assert(out@ =~= amlich::spec_lunar_date_str(self.spec_lunar()) + " ("@
                + render::spec_solar_ymd_str(self.spec_solar().year as int,
                    self.spec_solar().month as int, self.spec_solar().day as int)
                + ")"@);
        }
        out
    }
}

} // verus!
