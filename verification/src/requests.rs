//! Query parameters of the conversion endpoints.

use vstd::prelude::*;

verus! {

/// Query for converting one solar date, given as a `yyyy-mm-dd` string.
pub struct SolarToLunar {
    pub solar_date: String,
}

/// Query for listing the dates of a month, or of every month of a year.
pub struct SolarToLunarDates {
    pub year: i64,
    pub month: Option<u8>,
}

} // verus!
