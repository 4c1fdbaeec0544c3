use chrono::{FixedOffset, NaiveDate};
use swe_chart::dates::{date_time_with_offset, utc_date_time, DateError};

#[test]
fn utc_date_time_of_an_existing_day() {
    let t = utc_date_time(2025, 3, 14, 10, 6, 0).unwrap();
    let expected = NaiveDate::from_ymd_opt(2025, 3, 14).unwrap().and_hms_opt(10, 6, 0).unwrap();
    assert_eq!(t, expected);
    assert!(utc_date_time(2024, 2, 29, 23, 59, 59).is_ok());
    assert!(utc_date_time(2000, 2, 29, 0, 0, 0).is_ok());
}

#[test]
fn missing_days_are_invalid_dates() {
    assert_eq!(utc_date_time(2023, 2, 29, 0, 0, 0), Err(DateError::InvalidDate));
    assert_eq!(utc_date_time(1900, 2, 29, 0, 0, 0), Err(DateError::InvalidDate));
    assert_eq!(utc_date_time(2025, 4, 31, 0, 0, 0), Err(DateError::InvalidDate));
    assert_eq!(utc_date_time(2025, 13, 1, 0, 0, 0), Err(DateError::InvalidDate));
    assert_eq!(utc_date_time(2025, 1, 0, 0, 0, 0), Err(DateError::InvalidDate));
    assert_eq!(utc_date_time(262_143, 1, 1, 0, 0, 0), Err(DateError::InvalidDate));
    // The date is checked before the time.
    assert_eq!(utc_date_time(2025, 0, 1, 25, 0, 0), Err(DateError::InvalidDate));
}

#[test]
fn out_of_range_times_are_invalid() {
    assert_eq!(utc_date_time(2025, 3, 14, 24, 0, 0), Err(DateError::InvalidTime));
    assert_eq!(utc_date_time(2025, 3, 14, 10, 60, 0), Err(DateError::InvalidTime));
    assert_eq!(utc_date_time(2025, 3, 14, 10, 6, 60), Err(DateError::InvalidTime));
}

#[test]
fn offsets_within_a_day() {
    let (t, zone) = date_time_with_offset(2025, 3, 14, 10, 6, 0, 7200).unwrap();
    assert_eq!(zone, FixedOffset::east_opt(7200).unwrap());
    assert_eq!(t, NaiveDate::from_ymd_opt(2025, 3, 14).unwrap().and_hms_opt(10, 6, 0).unwrap());
    assert!(date_time_with_offset(2025, 3, 14, 10, 6, 0, -86_399).is_ok());
    assert_eq!(
        date_time_with_offset(2025, 3, 14, 10, 6, 0, 86_400).unwrap_err(),
        DateError::InvalidTimezoneOffset
    );
    assert_eq!(
        date_time_with_offset(2025, 3, 32, 10, 6, 0, 86_400).unwrap_err(),
        DateError::InvalidDate
    );
}

#[test]
fn date_error_texts() {
    assert_eq!(DateError::InvalidDate.message(), "Invalid date");
    assert_eq!(DateError::InvalidTime.message(), "Invalid time");
    assert_eq!(DateError::InvalidTimezoneOffset.message(), "Invalid timezone offset");
}
