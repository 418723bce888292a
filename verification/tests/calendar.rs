use deep_dives::calendar::{MAX_YEAR, MIN_YEAR};
use deep_dives::text::{decimal_text, same_text, signed_decimal_text};
use deep_dives::{
    as_naive_date_without_time, example_info, from_naive_date_with_known_time, CivilDateTime,
    DeepDivesInfo,
};

fn at(year: i32, month: u32, day: u32, hour: u32, minute: u32, second: u32) -> CivilDateTime {
    CivilDateTime { year, month, day, hour, minute, second }
}

fn midnight(year: i32, month: u32, day: u32) -> CivilDateTime {
    at(year, month, day, 0, 0, 0)
}

#[test]
fn decimal_of_small_and_large_numbers() {
    assert_eq!(decimal_text(0), "0");
    assert_eq!(decimal_text(7), "7");
    assert_eq!(decimal_text(10), "10");
    assert_eq!(decimal_text(3116029769), "3116029769");
    assert_eq!(decimal_text(u64::MAX), "18446744073709551615");
}

#[test]
fn signed_decimal_of_both_signs() {
    assert_eq!(signed_decimal_text(0), "0");
    assert_eq!(signed_decimal_text(-1), "-1");
    assert_eq!(signed_decimal_text(1689246000), "1689246000");
    assert_eq!(signed_decimal_text(i64::MAX), "9223372036854775807");
    assert_eq!(signed_decimal_text(i64::MIN), "-9223372036854775808");
}

#[test]
fn same_text_compares_characters() {
    assert!(same_text("", ""));
    assert!(same_text("Salt Pits", "Salt Pits"));
    assert!(!same_text("Salt Pits", "Salt Pit"));
    assert!(!same_text("a", "b"));
}

#[test]
fn days_that_exist() {
    assert!(midnight(2023, 7, 6).is_well_formed());
    assert!(midnight(2024, 2, 29).is_well_formed());
    assert!(midnight(2000, 2, 29).is_well_formed());
    assert!(midnight(-4, 2, 29).is_well_formed());
    assert!(midnight(2023, 12, 31).is_well_formed());
    assert!(midnight(MIN_YEAR, 1, 1).is_well_formed());
    assert!(midnight(MAX_YEAR, 12, 31).is_well_formed());
    assert!(at(2023, 7, 6, 23, 59, 59).is_well_formed());
}

#[test]
fn days_that_do_not_exist() {
    assert!(!midnight(2023, 2, 29).is_well_formed());
    assert!(!midnight(1900, 2, 29).is_well_formed());
    assert!(!midnight(2023, 4, 31).is_well_formed());
    assert!(!midnight(2023, 0, 1).is_well_formed());
    assert!(!midnight(2023, 13, 1).is_well_formed());
    assert!(!midnight(2023, 1, 0).is_well_formed());
    assert!(!midnight(2023, 1, 32).is_well_formed());
    assert!(!midnight(MIN_YEAR - 1, 1, 1).is_well_formed());
    assert!(!midnight(MAX_YEAR + 1, 1, 1).is_well_formed());
    assert!(!midnight(i32::MAX, 1, 1).is_well_formed());
    assert!(!midnight(i32::MIN, 1, 1).is_well_formed());
}

#[test]
fn times_that_do_not_exist() {
    assert!(!at(2023, 7, 6, 24, 0, 0).is_well_formed());
    assert!(!at(2023, 7, 6, 0, 60, 0).is_well_formed());
    assert!(!at(2023, 7, 6, 0, 0, 60).is_well_formed());
}

#[test]
fn week_is_well_formed_when_both_bounds_are() {
    let good = example_info();
    assert!(good.is_well_formed());
    let mut bad_start: DeepDivesInfo = example_info();
    bad_start.date_range.start.day = 32;
    assert!(!bad_start.is_well_formed());
    let mut bad_end: DeepDivesInfo = example_info();
    bad_end.date_range.end.month = 0;
    assert!(!bad_end.is_well_formed());
}

#[test]
fn date_is_written_without_time() {
    assert_eq!(as_naive_date_without_time(&at(2023, 7, 6, 11, 0, 0)), "2023-07-06");
    assert_eq!(as_naive_date_without_time(&at(2023, 7, 6, 23, 59, 59)), "2023-07-06");
    assert_eq!(as_naive_date_without_time(&midnight(2015, 9, 5)), "2015-09-05");
    assert_eq!(as_naive_date_without_time(&midnight(987, 12, 31)), "0987-12-31");
}

#[test]
fn year_outside_four_digits_is_written_with_sign() {
    assert_eq!(as_naive_date_without_time(&midnight(0, 1, 1)), "0000-01-01");
    assert_eq!(as_naive_date_without_time(&midnight(9999, 12, 31)), "9999-12-31");
    assert_eq!(as_naive_date_without_time(&midnight(-1, 1, 1)), "-0001-01-01");
    assert_eq!(as_naive_date_without_time(&midnight(10000, 12, 31)), "+10000-12-31");
    assert_eq!(as_naive_date_without_time(&midnight(-12345, 6, 7)), "-12345-06-07");
    assert_eq!(as_naive_date_without_time(&midnight(MAX_YEAR, 12, 31)), "+262142-12-31");
    assert_eq!(as_naive_date_without_time(&midnight(MIN_YEAR, 1, 1)), "-262143-01-01");
}

#[test]
fn date_is_read_at_the_hour_of_the_reset() {
    assert_eq!(from_naive_date_with_known_time("2023-07-06"), Some(at(2023, 7, 6, 11, 0, 0)));
    assert_eq!(from_naive_date_with_known_time("2024-02-29"), Some(at(2024, 2, 29, 11, 0, 0)));
}

#[test]
fn text_that_is_no_date_is_not_read() {
    assert_eq!(from_naive_date_with_known_time(""), None);
    assert_eq!(from_naive_date_with_known_time("yesterday"), None);
    assert_eq!(from_naive_date_with_known_time("2023-02-29"), None);
    assert_eq!(from_naive_date_with_known_time("2023-13-01"), None);
    assert_eq!(from_naive_date_with_known_time("2023/07/06"), None);
    assert_eq!(from_naive_date_with_known_time("2023-07-06T11:00:00"), None);
    assert_eq!(from_naive_date_with_known_time("06-07-2023x"), None);
}

#[test]
fn written_date_is_read_back() {
    for time in [
        at(2023, 7, 6, 0, 0, 0),
        at(2023, 7, 13, 18, 30, 1),
        at(1, 1, 1, 11, 0, 0),
        at(9999, 12, 31, 11, 0, 0),
    ] {
        let text = as_naive_date_without_time(&time);
        let back = from_naive_date_with_known_time(&text);
        assert_eq!(back, Some(at(time.year, time.month, time.day, 11, 0, 0)));
    }
}

#[test]
fn timestamp_counts_seconds_from_1970() {
    assert_eq!(midnight(1970, 1, 1).timestamp(), 0);
    assert_eq!(at(1970, 1, 1, 0, 0, 1).timestamp(), 1);
    assert_eq!(at(1969, 12, 31, 23, 59, 59).timestamp(), -1);
    assert_eq!(midnight(2015, 5, 15).timestamp(), 1431648000);
    assert_eq!(at(2023, 7, 13, 11, 0, 0).timestamp(), 1689246000);
    assert_eq!(at(2023, 7, 6, 11, 0, 0).timestamp(), 1688641200);
}
