use chrono::NaiveDate;
use fishing_line::calendar::CalendarTime;

#[test]
fn a_moment_comes_apart_into_its_fields() {
    let moment = NaiveDate::from_ymd_opt(2024, 7, 8)
        .unwrap()
        .and_hms_micro_opt(13, 45, 59, 123_456)
        .unwrap();
    let time = CalendarTime::from_naive(&moment);
    assert_eq!(
        time,
        CalendarTime {
            year: 2024,
            month: 7,
            day: 8,
            hour: 13,
            minute: 45,
            second: 59,
            microsecond: 123_456,
        }
    );
}

#[test]
fn midnight_has_zero_fields() {
    let moment = NaiveDate::from_ymd_opt(2024, 7, 7).unwrap().and_hms_opt(0, 0, 0).unwrap();
    let time = CalendarTime::from_naive(&moment);
    assert_eq!(
        time,
        CalendarTime { year: 2024, month: 7, day: 7, hour: 0, minute: 0, second: 0, microsecond: 0 }
    );
}

#[test]
fn nanoseconds_below_a_microsecond_are_dropped() {
    let moment = NaiveDate::from_ymd_opt(1999, 12, 31)
        .unwrap()
        .and_hms_nano_opt(23, 59, 58, 999_999_999)
        .unwrap();
    let time = CalendarTime::from_naive(&moment);
    assert_eq!(time.microsecond, 999_999);
    assert_eq!((time.year, time.month, time.day), (1999, 12, 31));
    assert_eq!((time.hour, time.minute, time.second), (23, 59, 58));
}

#[test]
fn a_leap_second_shows_in_the_microsecond() {
    let moment = NaiveDate::from_ymd_opt(2016, 12, 31)
        .unwrap()
        .and_hms_nano_opt(23, 59, 59, 1_500_000_000)
        .unwrap();
    let time = CalendarTime::from_naive(&moment);
    assert_eq!(time.second, 59);
    assert_eq!(time.microsecond, 1_500_000);
}

#[test]
fn years_before_the_common_era_keep_their_sign() {
    let moment = NaiveDate::from_ymd_opt(-44, 3, 15).unwrap().and_hms_opt(12, 0, 0).unwrap();
    let time = CalendarTime::from_naive(&moment);
    assert_eq!(time.year, -44);
    assert_eq!(time.month, 3);
    assert_eq!(time.day, 15);
    assert_eq!(time.hour, 12);
}
