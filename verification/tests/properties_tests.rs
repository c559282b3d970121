//! Property-style tests: day-number round trips, the calendar cutover,
//! solar/lunar round trips over many years, leap-month exclusivity, the
//! boundary functions on known values, and the rendering helpers.

use std::collections::HashMap;

use ramlich::amlich::fns::{
    get_leap_month_offset, get_lunar_month11, get_new_moon_day, get_sun_longitude,
    jd_from_date, jd_to_date,
};
use ramlich::amlich::{lunar2solar, solar2lunar, LunarDate, SolarDate};
use ramlich::kafka::KafkaTopic;
use ramlich::models::date_to_response;
use ramlich::render::int_to_string;
use ramlich::responses::ErrorResponse;
use ramlich::vncalendar::time::{days_in_month, SolarTime, VNDate};
use ramlich::vncalendar::TIME_ZONE_OFFSET;

#[test]
fn jd_round_trip_sampled_years_test() {
    for year in [-4712, -100, 1, 1000, 1582, 1583, 1600, 1900, 2000, 2024, 2100, 9999] {
        for month in 1..=12i64 {
            let dim = days_in_month(year, month);
            for day in [1i64, 15, dim] {
                if year == 1582 && month == 10 && (5..=14).contains(&day) {
                    continue;
                }
                let jd = jd_from_date(day, month, year);
                let back = jd_to_date(jd);
                assert_eq!((back.year, back.month, back.day), (year, month, day));
            }
        }
    }
}

#[test]
fn calendar_cutover_test() {
    assert_eq!(jd_from_date(4, 10, 1582), 2299160);
    assert_eq!(jd_from_date(15, 10, 1582), 2299161);
    let before = jd_to_date(2299160);
    assert_eq!((before.year, before.month, before.day), (1582, 10, 4));
    let after = jd_to_date(2299161);
    assert_eq!((after.year, after.month, after.day), (1582, 10, 15));
}

#[test]
fn solar_lunar_round_trip_sampled_test() {
    // Every 17th day across 1900-2100.
    let start = jd_from_date(1, 1, 1900);
    let end = jd_from_date(31, 12, 2100);
    let mut jd = start;
    while jd <= end {
        let d = jd_to_date(jd);
        let lunar = solar2lunar(d, 7);
        let back = lunar2solar(lunar, 7);
        assert_eq!((back.year, back.month, back.day), (d.year, d.month, d.day));
        jd += 17;
    }
}

#[test]
fn solar_lunar_round_trip_dense_test() {
    // Every day of a band with two leap lunar years.
    let start = jd_from_date(1, 1, 2004);
    let end = jd_from_date(31, 12, 2007);
    let mut jd = start;
    while jd <= end {
        let d = jd_to_date(jd);
        let lunar = solar2lunar(d, 7);
        let back = lunar2solar(lunar, 7);
        assert_eq!((back.year, back.month, back.day), (d.year, d.month, d.day));
        jd += 1;
    }
}

#[test]
fn leap_month_exclusive_scan_test() {
    // At most one distinct month per lunar year carries the leap flag.
    let mut leap_months: HashMap<i64, i64> = HashMap::new();
    let start = jd_from_date(1, 1, 2001);
    let end = jd_from_date(31, 12, 2035);
    let mut jd = start;
    while jd <= end {
        let d = jd_to_date(jd);
        let lunar = solar2lunar(d, 7);
        if lunar.is_leap {
            match leap_months.get(&lunar.year) {
                Some(m) => assert_eq!(*m, lunar.month),
                None => {
                    leap_months.insert(lunar.year, lunar.month);
                }
            }
        }
        jd += 3;
    }
    // The scanned window contains leap lunar years.
    assert!(leap_months.len() >= 10);
}

#[test]
fn new_moon_day_known_values_test() {
    // The reference new moon near 1900-01-01, and one 100 lunar years on.
    assert_eq!(get_new_moon_day(0, 7), 2415021);
    assert_eq!(get_new_moon_day(1236, 7), 2451521);
}

#[test]
fn sun_longitude_known_values_test() {
    assert_eq!(get_sun_longitude(2460343, 7), 10);
    assert_eq!(get_sun_longitude(2415021, 7), 9);
}

#[test]
fn lunar_month11_known_values_test() {
    assert_eq!(get_lunar_month11(2023, 7), 2460292);
    assert_eq!(get_lunar_month11(2006, 7), 2454090);
}

#[test]
fn leap_month_offset_known_value_test() {
    let a11 = get_lunar_month11(2005, 7);
    assert_eq!(a11, 2453706);
    assert_eq!(get_leap_month_offset(a11, 7), 9);
}

#[test]
fn solar2lunar_year_boundary_test() {
    let result = solar2lunar(SolarDate::new(2024, 2, 2), 7);
    assert_eq!((result.year, result.month, result.day, result.is_leap), (2023, 12, 23, false));
    let early = solar2lunar(SolarDate::new(1900, 1, 1), 7);
    assert_eq!((early.year, early.month, early.day, early.is_leap), (1899, 12, 1, false));
    let back = lunar2solar(LunarDate::new(1899, 12, 1, false), 7);
    assert_eq!((back.year, back.month, back.day), (1900, 1, 1));
}

#[test]
fn lunar2solar_inconsistent_leap_claim_test() {
    // 2006 is a leap lunar year, but its inserted month is month 7, so a
    // claim that month 8 is the leap month yields the sentinel date.
    let result = lunar2solar(LunarDate::new(2006, 8, 20, true), 7);
    assert_eq!((result.year, result.month, result.day), (0, 0, 0));
}

#[test]
fn date_display_strings_test() {
    assert_eq!(int_to_string(-120), "-120".to_string());
    assert_eq!(int_to_string(0), "0".to_string());
    assert_eq!(int_to_string(98765), "98765".to_string());
    let s = SolarDate::new(2024, 2, 2);
    assert_eq!(s.to_display_string(), "2024-02-02".to_string());
    let l = LunarDate::new(2006, 7, 20, true);
    assert_eq!(l.to_display_string(), "2006-07-20L".to_string());
    let plain = LunarDate::new(2006, 7, 20, false);
    assert_eq!(plain.to_display_string(), "2006-07-20".to_string());
}

#[test]
fn solar_display_pads_year_test() {
    let t = SolarTime::new(622, 3, 15, 12, 0, 0, 0);
    let d = VNDate::new_by_vietnamese_tz(t, TIME_ZONE_OFFSET);
    assert_eq!(d.solar_display(), "0622-03-15".to_string());
    let response = date_to_response(&d);
    assert_eq!(response.solar, "0622-03-15".to_string());
}

#[test]
fn date_to_response_test() {
    let t = SolarTime::new(2006, 9, 12, 12, 0, 0, 0);
    let d = VNDate::new_by_vietnamese_tz(t, TIME_ZONE_OFFSET);
    let response = date_to_response(&d);
    assert_eq!(response.lunar, "2006-07-20L".to_string());
    assert_eq!(response.solar, "2006-09-12".to_string());
    assert_eq!(response.is_leap, true);
    assert_eq!(
        d.to_display_string(),
        "2006-07-20L (2006-09-12)".to_string()
    );
}

#[test]
fn kafka_topic_names_test() {
    assert_eq!(KafkaTopic::RequestEvent.as_str(), "ramlich.request_event");
    assert!(KafkaTopic::from_str("ramlich.request_event").is_ok());
    assert_eq!(
        KafkaTopic::from_str("ramlich.other").unwrap_err(),
        "VariantNotFound"
    );
}

#[test]
fn error_response_test() {
    let e = ErrorResponse::new("bad input".to_string());
    assert_eq!(e.message, "bad input".to_string());
}

#[test]
fn timestamp_conversion_test() {
    // Sun, 11 Sep 2022 10:34:48 UTC.
    let t = SolarTime::from_timestamp(1662892488);
    assert_eq!((t.year, t.month, t.day), (2022, 9, 11));
    assert_eq!((t.hour, t.minute, t.second), (10, 34, 48));
    // The epoch itself.
    let e = SolarTime::from_timestamp(0);
    assert_eq!((e.year, e.month, e.day, e.hour), (1970, 1, 1, 0));
    // Before the epoch.
    let b = SolarTime::from_timestamp(-1);
    assert_eq!((b.year, b.month, b.day), (1969, 12, 31));
    assert_eq!((b.hour, b.minute, b.second), (23, 59, 59));
}

#[test]
fn days_in_month_rules_test() {
    assert_eq!(days_in_month(2024, 2), 29);
    assert_eq!(days_in_month(2023, 2), 28);
    assert_eq!(days_in_month(1900, 2), 28);
    assert_eq!(days_in_month(2000, 2), 29);
    // Julian rule before the cutover: centuries divisible by four are leap.
    assert_eq!(days_in_month(1500, 2), 29);
    assert_eq!(days_in_month(1301, 2), 28);
}
