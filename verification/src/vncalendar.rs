//! Month enumeration and month/year date listings for the civil calendar.

pub mod time;

use vstd::prelude::*;

use crate::vncalendar::time::{SolarTime, VNDate};
use std::collections::HashMap;

verus! {

/// The fixed civil timezone offset, in hours ahead of UTC.
pub const TIME_ZONE_OFFSET: i64 = 7;

/// A month of the civil calendar.
#[derive(Copy, Clone, PartialEq, Eq, Structural, Debug, Hash)]
pub enum Month {
    January,
    February,
    March,
    April,
    May,
    June,
    July,
    August,
    September,
    October,
    November,
    December,
}

impl Month {
    /// The calendar number of the month, 1 to 12.
    pub open spec fn spec_number(self) -> int {
        match self {
            Month::January => 1,
            Month::February => 2,
            Month::March => 3,
            Month::April => 4,
            Month::May => 5,
            Month::June => 6,
            Month::July => 7,
            Month::August => 8,
            Month::September => 9,
            Month::October => 10,
            Month::November => 11,
            Month::December => 12,
        }
    }

    /// The calendar number of the month, 1 to 12.
    pub fn number(&self) -> (n: i64)
        ensures
            n == self.spec_number(),
    {
        match self {
            Month::January => 1,
            Month::February => 2,
            Month::March => 3,
            Month::April => 4,
            Month::May => 5,
            Month::June => 6,
            Month::July => 7,
            Month::August => 8,
            Month::September => 9,
            Month::October => 10,
            Month::November => 11,
            Month::December => 12,
        }
    }

    /// The month with calendar number `value`, or an error for a number
    /// outside 1 to 12.
    pub fn try_from(value: u8) -> (r: Result<Month, &'static str>)
        ensures
            match r {
                Ok(m) => 1 <= value <= 12 && m.spec_number() == value,
                Err(e) => (value == 0 || value > 12) && e@ == "Range must be between 1-12"@,
            },
    {
        match value {
            1 => Ok(Month::January),
            2 => Ok(Month::February),
            3 => Ok(Month::March),
            4 => Ok(Month::April),
            5 => Ok(Month::May),
            6 => Ok(Month::June),
            7 => Ok(Month::July),
            8 => Ok(Month::August),
            9 => Ok(Month::September),
            10 => Ok(Month::October),
            11 => Ok(Month::November),
            12 => Ok(Month::December),
            _ => Err("Range must be between 1-12"),
        }
    }
}

/// The month with calendar number `n`.
fn month_from_number(n: i64) -> (m: Month)
    requires
        1 <= n <= 12,
    ensures
        m.spec_number() == n,
{
    match n {
        1 => Month::January,
        2 => Month::February,
        3 => Month::March,
        4 => Month::April,
        5 => Month::May,
        6 => Month::June,
        7 => Month::July,
        8 => Month::August,
        9 => Month::September,
        10 => Month::October,
        11 => Month::November,
        _ => Month::December,
    }
}

/// The wrapped noon-UTC instant of day `d` in `(year, month)`, as
/// [`get_month_dates`] produces it: seven hours ahead of noon UTC.
pub open spec fn spec_month_date(year: int, month: int, d: int) -> SolarTime {
    SolarTime {
        year: year as i64,
        month: month as i64,
        day: d as i64,
        hour: 19,
        minute: 0,
        second: 0,
        nanosecond: 0,
    }
}

/// All days of `(year, month)` as civil date wrappers, anchored at noon
/// UTC (seven in the evening local time) so that the local date equals the
/// listed day.
pub fn get_month_dates(year: i64, month: Month) -> (r: Vec<VNDate>)
    requires
        -69_990 <= year <= 74_990,
    ensures
        r@.len() == crate::amlich::laws::spec_days_in_month(year as int,
            month.spec_number()),
        forall|i: int| 0 <= i < r@.len() ==> {
            &&& (#[trigger] r@[i]).wf()
            &&& r@[i].spec_solar() == spec_month_date(year as int, month.spec_number(),
                i + 1)
            &&& r@[i].spec_tz() == TIME_ZONE_OFFSET as int
        },
{
    let m: i64 = month.number();
    let dim: i64 = time::days_in_month(year, m);
    let mut dates: Vec<VNDate> = Vec::new();
    let mut d: i64 = 1;
    while d <= dim
        invariant
            1 <= d <= dim + 1,
            dim == crate::amlich::laws::spec_days_in_month(year as int,
                month.spec_number()),
            28 <= dim <= 31,
            m == month.spec_number(),
            -69_990 <= year <= 74_990,
            dates@.len() == d - 1,
            forall|i: int| 0 <= i < dates@.len() ==> {
                &&& (#[trigger] dates@[i]).wf()
                &&& dates@[i].spec_solar() == spec_month_date(year as int,
                    month.spec_number(), i + 1)
                &&& dates@[i].spec_tz() == TIME_ZONE_OFFSET as int
            },
        decreases dim + 1 - d,
    {
        let t = SolarTime::new(year, m, d, 12, 0, 0, 0);
        let v = VNDate::new(t, TIME_ZONE_OFFSET);
        dates.push(v);
        d += 1;
    }
    dates
}

/// The twelve month listings of `year`, keyed by month number: the map
/// holds exactly the keys 1 to 12, and the entry for month `n` is the
/// [`get_month_dates`] listing of `(year, n)`.
pub fn get_year_month_dates(year: i64) -> (r: HashMap<u8, Vec<VNDate>>)
    requires
        -69_990 <= year <= 74_990,
    ensures
        forall|n: u8| #[trigger] r@.contains_key(n) <==> 1 <= n <= 12,
        forall|n: u8| #[trigger] r@.contains_key(n) ==> {
            &&& r@[n]@.len() == crate::amlich::laws::spec_days_in_month(year as int, n as int)
            &&& forall|i: int| 0 <= i < r@[n]@.len() ==> {
                &&& (#[trigger] r@[n]@[i]).wf()
                &&& r@[n]@[i].spec_solar() == spec_month_date(year as int, n as int, i + 1)
                &&& r@[n]@[i].spec_tz() == TIME_ZONE_OFFSET as int
            }
        },
{
    proof {
        broadcast use vstd::std_specs::hash::group_hash_axioms;
    }
    let mut result: HashMap<u8, Vec<VNDate>> = HashMap::new();
    let mut n: u8 = 1;
    while n <= 12
        invariant
            1 <= n <= 13,
            -69_990 <= year <= 74_990,
            vstd::std_specs::hash::obeys_key_model::<u8>(),
            vstd::std_specs::hash::builds_valid_hashers::<
                std::collections::hash_map::RandomState>(),
            forall|k: u8| #[trigger] result@.contains_key(k) <==> 1 <= k < n,
            forall|k: u8| #[trigger] result@.contains_key(k) ==> {
                &&& result@[k]@.len() == crate::amlich::laws::spec_days_in_month(year as int,
                    k as int)
                &&& forall|i: int| 0 <= i < result@[k]@.len() ==> {
                    &&& (#[trigger] result@[k]@[i]).wf()
                    &&& result@[k]@[i].spec_solar() == spec_month_date(year as int, k as int,
                        i + 1)
                    &&& result@[k]@[i].spec_tz() == TIME_ZONE_OFFSET as int
                }
            },
        decreases 13 - n,
    {
        let m = month_from_number(n as i64);
        let dates = get_month_dates(year, m);
        result.insert(n, dates);
        n += 1;
    }
    result
}

} // verus!
