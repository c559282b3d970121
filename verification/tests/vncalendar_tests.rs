//! Tests of the month listing functions and the civil date wrapper.

use ramlich::vncalendar::time::{SolarTime, VNDate};
use ramlich::vncalendar::{get_month_dates, get_year_month_dates, Month, TIME_ZONE_OFFSET};

#[test]
fn try_from_test() {
    assert_eq!(Month::January, Month::try_from(1).unwrap());
    assert_eq!(Month::June, Month::try_from(6).unwrap());
    assert_eq!(Month::December, Month::try_from(12).unwrap());
    assert_eq!(
        "Range must be between 1-12",
        Month::try_from(13).unwrap_err()
    );
    assert_eq!(
        "Range must be between 1-12",
        Month::try_from(0).unwrap_err()
    );
}

#[test]
fn lib_get_month_dates_test() {
    assert_eq!(31, get_month_dates(2016, Month::July).len());
    assert_eq!(29, get_month_dates(2016, Month::February).len());
    assert_eq!(28, get_month_dates(2017, Month::February).len());
    assert_eq!(29, get_month_dates(2024, Month::February).len());
}

#[test]
fn mod_get_month_dates_test() {
    assert_eq!(31, get_month_dates(2016, Month::try_from(7).unwrap()).len());
    assert_eq!(29, get_month_dates(2016, Month::try_from(2).unwrap()).len());
    assert_eq!(28, get_month_dates(2017, Month::try_from(2).unwrap()).len());
    assert_eq!(29, get_month_dates(2024, Month::try_from(2).unwrap()).len());
}

#[test]
fn lib_get_year_month_dates_test() {
    let res = get_year_month_dates(2024);

    for (k, v) in res.iter() {
        println!("{:?}", *k);
        for d in v {
            println!("{}", d.to_display_string());
        }
    }

    assert_eq!(12, res.len());
    assert_eq!(31, res.get(&1).unwrap().len());
    assert_eq!(29, res.get(&2).unwrap().len());
    assert_eq!(31, res.get(&3).unwrap().len());
    assert_eq!(30, res.get(&4).unwrap().len());
    assert_eq!(31, res.get(&5).unwrap().len());
    assert_eq!(30, res.get(&6).unwrap().len());
    assert_eq!(31, res.get(&7).unwrap().len());
    assert_eq!(31, res.get(&8).unwrap().len());
    assert_eq!(30, res.get(&9).unwrap().len());
    assert_eq!(31, res.get(&10).unwrap().len());
    assert_eq!(30, res.get(&11).unwrap().len());
    assert_eq!(31, res.get(&12).unwrap().len());
}

#[test]
fn mod_get_year_month_dates_test() {
    let res = get_year_month_dates(2024);

    for (k, v) in res.iter() {
        println!("{:?}", *k);
        for d in v {
            println!("{}", d.to_display_string());
        }
    }

    assert_eq!(12, res.len());
    assert_eq!(31, res.get(&1).unwrap().len());
    assert_eq!(29, res.get(&2).unwrap().len());
    assert_eq!(31, res.get(&3).unwrap().len());
    assert_eq!(30, res.get(&4).unwrap().len());
    assert_eq!(31, res.get(&5).unwrap().len());
    assert_eq!(30, res.get(&6).unwrap().len());
    assert_eq!(31, res.get(&7).unwrap().len());
    assert_eq!(31, res.get(&8).unwrap().len());
    assert_eq!(30, res.get(&9).unwrap().len());
    assert_eq!(31, res.get(&10).unwrap().len());
    assert_eq!(30, res.get(&11).unwrap().len());
    assert_eq!(31, res.get(&12).unwrap().len());
}

#[test]
fn equal_op_test() {
    // Sun, 11 Sep 2022 10:34:48 UTC
    let nanos: i64 = 1662892488_000_000_000;
    let solar_time = SolarTime::from_timestamp_nanos(nanos);

    let d1 = VNDate::new(solar_time, TIME_ZONE_OFFSET);
    let d2 = VNDate::new(solar_time, TIME_ZONE_OFFSET);
    assert!(d1 == d2);
    let d3 = VNDate::new(solar_time, TIME_ZONE_OFFSET).add_solar_date(1, 7, 40);
    assert!(d1 != d3);
}

#[test]
fn time_add_solar_date_test() {
    // Sun, 11 Sep 2022 10:34:48 UTC
    let nanos: i64 = 1662892488_000_000_000;
    let solar_time = SolarTime::from_timestamp_nanos(nanos);
    let result = VNDate::new(solar_time, TIME_ZONE_OFFSET).add_solar_date(1, 7, 40);
    assert_eq!(2024, result.solar_year());
    assert_eq!(5, result.solar_month());
    assert_eq!(21, result.solar_day());
}

#[test]
fn time_add_test() {
    // Sun, 11 Sep 2022 10:34:48 UTC
    let nanos: i64 = 1662892488_000_000_000;
    let solar_time = SolarTime::from_timestamp_nanos(nanos);
    // ten days in seconds
    let result = VNDate::new(solar_time, TIME_ZONE_OFFSET).add(864_000);
    assert_eq!(2022, result.solar_year());
    assert_eq!(9, result.solar_month());
    assert_eq!(21, result.solar_day());
}

#[test]
fn time_with_solar_year_test() {
    // Sun, 11 Sep 2022 10:34:48 UTC
    let nanos: i64 = 1662892488_000_000_000;
    let solar_time = SolarTime::from_timestamp_nanos(nanos);
    let result = VNDate::new(solar_time, TIME_ZONE_OFFSET)
        .with_solar_year(2024)
        .unwrap();
    assert_eq!(2024, result.solar_year());
    assert_eq!(9, result.solar_month());
    assert_eq!(11, result.solar_day());
}

#[test]
fn time_with_solar_month_test() {
    // Sun, 11 Sep 2022 10:34:48 UTC
    let nanos: i64 = 1662892488_000_000_000;
    let solar_time = SolarTime::from_timestamp_nanos(nanos);
    let result = VNDate::new(solar_time, TIME_ZONE_OFFSET)
        .with_solar_month(7)
        .unwrap();
    assert_eq!(2022, result.solar_year());
    assert_eq!(7, result.solar_month());
    assert_eq!(11, result.solar_day());
}

#[test]
fn time_with_solar_day_test() {
    // Sun, 11 Sep 2022 10:34:48 UTC
    let nanos: i64 = 1662892488_000_000_000;
    let solar_time = SolarTime::from_timestamp_nanos(nanos);
    let result = VNDate::new(solar_time, TIME_ZONE_OFFSET)
        .with_solar_day(22)
        .unwrap();
    assert_eq!(2022, result.solar_year());
    assert_eq!(9, result.solar_month());
    assert_eq!(22, result.solar_day());
}

#[test]
fn time_equal_test() {
    // Sun, 11 Sep 2022 10:34:48 UTC
    let nanos: i64 = 1662892488_000_000_000;
    let solar_time = SolarTime::from_timestamp_nanos(nanos);
    let d = VNDate::new(solar_time, TIME_ZONE_OFFSET);
    let other = VNDate::new(solar_time, TIME_ZONE_OFFSET);
    assert_eq!(true, d.equal(&other));
}

#[test]
fn time_checked_add_signed_test() {
    // Sun, 11 Sep 2022 10:34:48 UTC
    let nanos: i64 = 1662892488_000_000_000;
    let solar_time = SolarTime::from_timestamp_nanos(nanos);
    let d = VNDate::new(solar_time, TIME_ZONE_OFFSET);
    // one day in seconds
    let rhs: i64 = 86_400;
    let result = d.checked_add_signed(rhs).unwrap();
    assert_eq!(12, result.solar_day());
}

#[test]
fn format_test() {
    // Sun, 11 Sep 2022 10:34:48 UTC
    let nanos: i64 = 1662892488_000_000_000;
    let solar_time = SolarTime::from_timestamp_nanos(nanos);
    let d = VNDate::new(solar_time, TIME_ZONE_OFFSET);
    assert_eq!(
        "2022-08-16".to_string(),
        d.format(Some("%y-%m-%d")).unwrap()
    );
    assert_eq!(
        "2022-08-16".to_string(),
        d.format(Some("yyyy-mm-dd")).unwrap()
    );
    assert_eq!(
        "16/08/2022".to_string(),
        d.format(Some("%d/%m/%y")).unwrap()
    );
    assert_eq!(
        "2022/08/16".to_string(),
        d.format(Some("yyyy/mm/dd")).unwrap()
    );
    let error = d.format(Some("y-m-d")).unwrap_err();
    assert_eq!(
        "Invalid date format, should be similar as yyyy-mm-dd or %y-%m-%d",
        error
    );
}

#[test]
fn today_is_in_supported_window_test() {
    let t = VNDate::today();
    assert!(t.solar_year() >= 1970);
    assert!(t.solar_month() >= 1 && t.solar_month() <= 12);
    assert!(t.solar_day() >= 1 && t.solar_day() <= 31);
}

#[test]
fn with_solar_day_invalid_test() {
    // 2022-09 has 30 days, so day 31 reports absence of a result.
    let nanos: i64 = 1662892488_000_000_000;
    let solar_time = SolarTime::from_timestamp_nanos(nanos);
    let d = VNDate::new(solar_time, TIME_ZONE_OFFSET);
    assert!(d.with_solar_day(31).is_none());
    assert!(d.with_solar_day(0).is_none());
}

#[test]
fn with_solar_year_invalid_test() {
    // Feb 29 exists in 2024 but not in 2023.
    let leap_day = SolarTime::new(2024, 2, 29, 5, 0, 0, 0);
    let d = VNDate::new(leap_day, TIME_ZONE_OFFSET);
    assert_eq!(29, d.solar_day());
    assert!(d.with_solar_year(2023).is_none());
    assert!(d.with_solar_year(2028).is_some());
}

#[test]
fn with_solar_month_invalid_test() {
    let end_of_month = SolarTime::new(2024, 1, 31, 5, 0, 0, 0);
    let d = VNDate::new(end_of_month, TIME_ZONE_OFFSET);
    assert!(d.with_solar_month(2).is_none());
    assert!(d.with_solar_month(3).is_some());
    assert!(d.with_solar_month(13).is_none());
}

#[test]
fn checked_add_signed_out_of_window_test() {
    let nanos: i64 = 1662892488_000_000_000;
    let solar_time = SolarTime::from_timestamp_nanos(nanos);
    let d = VNDate::new(solar_time, TIME_ZONE_OFFSET);
    assert!(d.checked_add_signed(i64::MAX).is_none());
    assert!(d.checked_add_signed(i64::MIN).is_none());
    assert!(d.checked_add_signed(-86_400).is_some());
}

#[test]
fn new_rolls_past_midnight_test() {
    // 20:00 UTC is 03:00 of the next local day.
    let late = SolarTime::new(2022, 12, 31, 20, 0, 0, 0);
    let d = VNDate::new(late, TIME_ZONE_OFFSET);
    assert_eq!(2023, d.solar_year());
    assert_eq!(1, d.solar_month());
    assert_eq!(1, d.solar_day());
}

#[test]
fn from_timestamp_out_of_window_test() {
    // Seconds beyond the supported year window clamp to the epoch.
    let t = SolarTime::from_timestamp(i64::MAX);
    assert_eq!((t.year, t.month, t.day), (1970, 1, 1));
    let b = SolarTime::from_timestamp(i64::MIN);
    assert_eq!((b.year, b.month, b.day), (1970, 1, 1));
}

#[test]
fn add_solar_date_clamps_day_test() {
    // Jan 31 plus one month clamps to the end of February.
    let t = SolarTime::new(2023, 1, 31, 5, 0, 0, 0);
    let d = VNDate::new(t, TIME_ZONE_OFFSET).add_solar_date(0, 1, 0);
    assert_eq!(2023, d.solar_year());
    assert_eq!(2, d.solar_month());
    assert_eq!(28, d.solar_day());
}
