//! Tests of the Julian day and solar/lunar conversion functions.

use ramlich::amlich::fns::{jd_from_date, jd_to_date};
use ramlich::amlich::{lunar2solar, solar2lunar, LunarDate, SolarDate};

#[test]
fn fns_jd_from_date_to_jd_to_date_test() {
    let result = jd_from_date(2, 2, 2024);
    assert_eq!(result, 2460343);
    let solar_date = jd_to_date(result);
    assert_eq!(solar_date.day, 2);
    assert_eq!(solar_date.month, 2);
    assert_eq!(solar_date.year, 2024);
}

#[test]
fn mod_jd_from_date_to_jd_to_date_test() {
    let result = jd_from_date(2, 2, 2024);
    assert_eq!(result, 2460343);
    let solar_date = jd_to_date(result);
    assert_eq!(solar_date.day, 2);
    assert_eq!(solar_date.month, 2);
    assert_eq!(solar_date.year, 2024);
}

#[test]
fn lib_solar2lunar_is_leap_true_test() {
    let test_date = SolarDate::new(2006, 9, 12);
    let result = solar2lunar(test_date, 7);
    assert_eq!(result.day, 20);
    assert_eq!(result.month, 7);
    assert_eq!(result.year, 2006);
    assert_eq!(result.is_leap, true);
}

#[test]
fn lib_solar2lunar_is_leap_false_test() {
    let test_date = SolarDate::new(2006, 8, 13);
    let result = solar2lunar(test_date, 7);
    assert_eq!(result.day, 20);
    assert_eq!(result.month, 7);
    assert_eq!(result.year, 2006);
    assert_eq!(result.is_leap, false);
}

#[test]
fn lib_solar2lunar_is_leap_true_case_2_test() {
    let test_date = SolarDate::new(2012, 6, 12);
    let result = solar2lunar(test_date, 7);
    assert_eq!(result.day, 23);
    assert_eq!(result.month, 4);
    assert_eq!(result.year, 2012);
    assert_eq!(result.is_leap, true);
}

#[test]
fn lib_solar2lunar_is_leap_false_case_2_test() {
    let test_date = SolarDate::new(2012, 5, 13);
    let result = solar2lunar(test_date, 7);
    assert_eq!(result.day, 23);
    assert_eq!(result.month, 4);
    assert_eq!(result.year, 2012);
    assert_eq!(result.is_leap, false);
}

#[test]
fn lib_lunar2solar_is_leap_true_test() {
    let test_date = LunarDate::new(2006, 7, 20, true);
    let result = lunar2solar(test_date, 7);
    assert_eq!(result.day, 12);
    assert_eq!(result.month, 9);
    assert_eq!(result.year, 2006);
}

#[test]
fn lib_lunar2solar_is_leap_false_test() {
    let test_date = LunarDate::new(2006, 7, 20, false);
    let result = lunar2solar(test_date, 7);
    assert_eq!(result.day, 13);
    assert_eq!(result.month, 8);
    assert_eq!(result.year, 2006);
}

#[test]
fn lib_lunar2solar_is_leap_true_case_2_test() {
    let test_date = LunarDate::new(2012, 4, 23, true);
    let result = lunar2solar(test_date, 7);
    assert_eq!(result.day, 12);
    assert_eq!(result.month, 6);
    assert_eq!(result.year, 2012);
}

#[test]
fn lib_lunar2solar_is_leap_false_case_2_test() {
    let test_date = LunarDate::new(2012, 4, 23, false);
    let result = lunar2solar(test_date, 7);
    assert_eq!(result.day, 13);
    assert_eq!(result.month, 5);
    assert_eq!(result.year, 2012);
}

#[test]
fn mod_solar2lunar_is_leap_true_test() {
    let test_date = SolarDate::new(2006, 9, 12);
    let result = solar2lunar(test_date, 7);
    assert_eq!(result.day, 20);
    assert_eq!(result.month, 7);
    assert_eq!(result.year, 2006);
    assert_eq!(result.is_leap, true);
}

#[test]
fn mod_solar2lunar_is_leap_false_test() {
    let test_date = SolarDate::new(2006, 8, 13);
    let result = solar2lunar(test_date, 7);
    assert_eq!(result.day, 20);
    assert_eq!(result.month, 7);
    assert_eq!(result.year, 2006);
    assert_eq!(result.is_leap, false);
}

#[test]
fn mod_solar2lunar_is_leap_true_case_2_test() {
    let test_date = SolarDate::new(2012, 6, 12);
    let result = solar2lunar(test_date, 7);
    assert_eq!(result.day, 23);
    assert_eq!(result.month, 4);
    assert_eq!(result.year, 2012);
    assert_eq!(result.is_leap, true);
}

#[test]
fn mod_solar2lunar_is_leap_false_case_2_test() {
    let test_date = SolarDate::new(2012, 5, 13);
    let result = solar2lunar(test_date, 7);
    assert_eq!(result.day, 23);
    assert_eq!(result.month, 4);
    assert_eq!(result.year, 2012);
    assert_eq!(result.is_leap, false);
}

#[test]
fn mod_lunar2solar_is_leap_true_test() {
    let test_date = LunarDate::new(2006, 7, 20, true);
    let result = lunar2solar(test_date, 7);
    assert_eq!(result.day, 12);
    assert_eq!(result.month, 9);
    assert_eq!(result.year, 2006);
}

#[test]
fn mod_lunar2solar_is_leap_false_test() {
    let test_date = LunarDate::new(2006, 7, 20, false);
    let result = lunar2solar(test_date, 7);
    assert_eq!(result.day, 13);
    assert_eq!(result.month, 8);
    assert_eq!(result.year, 2006);
}

#[test]
fn mod_lunar2solar_is_leap_true_case_2_test() {
    let test_date = LunarDate::new(2012, 4, 23, true);
    let result = lunar2solar(test_date, 7);
    assert_eq!(result.day, 12);
    assert_eq!(result.month, 6);
    assert_eq!(result.year, 2012);
}

#[test]
fn mod_lunar2solar_is_leap_false_case_2_test() {
    let test_date = LunarDate::new(2012, 4, 23, false);
    let result = lunar2solar(test_date, 7);
    assert_eq!(result.day, 13);
    assert_eq!(result.month, 5);
    assert_eq!(result.year, 2012);
}
