use serve_md::calendar::{civil_from_days, days_in_month, days_in_year, is_leap_year, CivilDate};

/// The day count of a date by the closed form that is usual for the
/// Gregorian calendar, with March as the first month of the year.
fn days_from_civil(year: i64, month: i64, day: i64) -> i64 {
    let y = if month <= 2 { year - 1 } else { year };
    let era = if y >= 0 { y } else { y - 399 } / 400;
    let year_of_era = y - era * 400;
    let shifted = if month > 2 { month - 3 } else { month + 9 };
    let day_of_year = (153 * shifted + 2) / 5 + day - 1;
    let day_of_era = year_of_era * 365 + year_of_era / 4 - year_of_era / 100 + day_of_year;
    era * 146097 + day_of_era - 719468
}

#[test]
fn leap_years_across_centuries() {
    assert!(!is_leap_year(1900));
    assert!(is_leap_year(2000));
    assert!(is_leap_year(2024));
    assert!(!is_leap_year(2023));
    assert!(!is_leap_year(2100));
    assert!(is_leap_year(2400));
    assert!(is_leap_year(1972));
    assert!(!is_leap_year(1970));
}

#[test]
fn leap_year_rule_for_every_year_of_four_centuries() {
    for year in 1600u64..2400u64 {
        let expected = (year % 4 == 0 && year % 100 != 0) || year % 400 == 0;
        assert_eq!(is_leap_year(year), expected, "year {}", year);
        assert_eq!(days_in_year(year), if expected { 366 } else { 365 });
        assert_eq!(days_in_month(year, 2), if expected { 29 } else { 28 });
    }
}

#[test]
fn february_has_29_days_in_leap_years_only() {
    assert_eq!(days_in_month(1900, 2), 28);
    assert_eq!(days_in_month(2000, 2), 29);
    assert_eq!(days_in_month(2024, 2), 29);
    assert_eq!(days_in_month(2023, 2), 28);
}

#[test]
fn month_lengths_of_a_common_year() {
    let lengths: Vec<u8> = (1u8..=12u8).map(|month| days_in_month(2023, month)).collect();
    assert_eq!(lengths, vec![31, 28, 31, 30, 31, 30, 31, 31, 30, 31, 30, 31]);
}

#[test]
fn month_lengths_of_a_leap_year() {
    let lengths: Vec<u8> = (1u8..=12u8).map(|month| days_in_month(2024, month)).collect();
    assert_eq!(lengths, vec![31, 29, 31, 30, 31, 30, 31, 31, 30, 31, 30, 31]);
}

#[test]
fn month_numbers_out_of_range_have_no_days() {
    assert_eq!(days_in_month(2024, 0), 0);
    assert_eq!(days_in_month(2024, 13), 0);
    assert_eq!(days_in_month(2024, 255), 0);
}

#[test]
fn year_lengths() {
    assert_eq!(days_in_year(1970), 365);
    assert_eq!(days_in_year(1972), 366);
    assert_eq!(days_in_year(2000), 366);
    assert_eq!(days_in_year(2100), 365);
}

#[test]
fn day_zero_is_the_first_of_january_1970() {
    assert_eq!(civil_from_days(0), CivilDate { year: 1970, month: 1, day: 1 });
}

#[test]
fn last_day_of_1970() {
    assert_eq!(civil_from_days(364), CivilDate { year: 1970, month: 12, day: 31 });
    assert_eq!(civil_from_days(365), CivilDate { year: 1971, month: 1, day: 1 });
}

#[test]
fn first_leap_day_after_the_epoch() {
    assert_eq!(civil_from_days(789), CivilDate { year: 1972, month: 2, day: 29 });
    assert_eq!(civil_from_days(790), CivilDate { year: 1972, month: 3, day: 1 });
}

#[test]
fn leap_day_of_2000() {
    assert_eq!(civil_from_days(11016), CivilDate { year: 2000, month: 2, day: 29 });
}

#[test]
fn day_19675_is_14_november_2023() {
    assert_eq!(civil_from_days(19675), CivilDate { year: 2023, month: 11, day: 14 });
}

#[test]
fn no_leap_day_in_2100() {
    assert_eq!(civil_from_days(47540), CivilDate { year: 2100, month: 2, day: 28 });
    assert_eq!(civil_from_days(47541), CivilDate { year: 2100, month: 3, day: 1 });
}

#[test]
fn last_day_of_year_9999_and_the_day_after() {
    assert_eq!(civil_from_days(2932896), CivilDate { year: 9999, month: 12, day: 31 });
    assert_eq!(civil_from_days(2932897), CivilDate { year: 10000, month: 1, day: 1 });
}

#[test]
fn every_day_of_two_centuries_converts_back() {
    let mut previous = civil_from_days(0);
    for days in 0u64..73050u64 {
        let date = civil_from_days(days);
        assert!(date.year >= 1970);
        assert!(1 <= date.month && date.month <= 12);
        assert!(1 <= date.day && date.day <= days_in_month(date.year, date.month));
        assert_eq!(
            days_from_civil(date.year as i64, date.month as i64, date.day as i64),
            days as i64
        );
        if days > 0 {
            assert!(
                (previous.year, previous.month, previous.day) < (date.year, date.month, date.day)
            );
        }
        previous = date;
    }
}
