use ftp::datetime::DateTime;

fn at(year: u32, month: u32, day: u32, hour: u32, minute: u32, second: u32) -> DateTime {
    DateTime { year, month, day, hour, minute, second }
}

#[test]
fn timestamp_of_the_epoch_is_zero() {
    assert_eq!(at(1970, 1, 1, 0, 0, 0).checked_timestamp(), Some(0));
    assert_eq!(at(1970, 1, 1, 0, 0, 0).timestamp(), 0);
}

#[test]
fn timestamp_counts_seconds_minutes_hours_and_days() {
    assert_eq!(at(1970, 1, 1, 0, 0, 59).timestamp(), 59);
    assert_eq!(at(1970, 1, 1, 0, 1, 0).timestamp(), 60);
    assert_eq!(at(1970, 1, 1, 1, 0, 0).timestamp(), 3600);
    assert_eq!(at(1970, 1, 2, 0, 0, 0).timestamp(), 86400);
    assert_eq!(at(1970, 2, 1, 0, 0, 0).timestamp(), 31 * 86400);
    assert_eq!(at(1970, 12, 31, 23, 59, 59).timestamp(), 365 * 86400 - 1);
    assert_eq!(at(1971, 1, 1, 0, 0, 0).timestamp(), 365 * 86400);
}

#[test]
fn timestamp_counts_leap_days() {
    // 1972 is the first leap year after the epoch
    assert_eq!(at(1972, 2, 28, 0, 0, 0).timestamp(), 68083200);
    assert_eq!(at(1972, 3, 1, 0, 0, 0).timestamp(), 68256000);
    assert_eq!(at(1973, 1, 1, 0, 0, 0).timestamp(), 94694400);
    assert_eq!(at(2000, 1, 1, 0, 0, 0).timestamp(), 946684800);
    assert_eq!(at(2000, 3, 1, 0, 0, 0).timestamp(), 951868800);
    assert_eq!(at(2001, 9, 9, 1, 46, 40).timestamp(), 1000000000);
    assert_eq!(at(2023, 1, 2, 3, 4, 5).timestamp(), 1672628645);
    // 2100 is no leap year
    assert_eq!(at(2100, 3, 1, 0, 0, 0).timestamp(), 4107542400);
}

#[test]
fn timestamp_counts_one_day_more_from_the_29th_of_february() {
    // the 29th of February counts as the first of March
    assert_eq!(at(1972, 2, 29, 0, 0, 0).timestamp(), 68256000);
    assert_eq!(at(1971, 2, 29, 0, 0, 0).timestamp(), at(1971, 3, 2, 0, 0, 0).timestamp());
}

#[test]
fn thirteenth_month_is_the_next_january() {
    assert_eq!(at(1970, 13, 1, 0, 0, 0).timestamp(), at(1971, 1, 1, 0, 0, 0).timestamp());
    assert_eq!(at(1970, 0, 1, 0, 0, 0).timestamp(), 0);
}

#[test]
fn dates_without_a_timestamp() {
    assert_eq!(at(1969, 12, 31, 23, 59, 59).checked_timestamp(), None);
    assert_eq!(at(0, 1, 1, 0, 0, 0).checked_timestamp(), None);
    assert_eq!(at(1970, 14, 1, 0, 0, 0).checked_timestamp(), None);
    assert_eq!(at(1970, 1, 0, 0, 0, 0).checked_timestamp(), None);
    assert_eq!(at(9999, 1, 1, 0, 0, 0).checked_timestamp(), None);
}

#[test]
fn last_timestamp_that_fits() {
    assert_eq!(at(2106, 2, 7, 6, 28, 15).checked_timestamp(), Some(u32::MAX));
    assert_eq!(at(2106, 2, 7, 6, 28, 16).checked_timestamp(), None);
    assert_eq!(at(1970, 1, 1, 0, 0, u32::MAX).checked_timestamp(), Some(u32::MAX));
    assert_eq!(at(1970, 1, 1, 0, 1, u32::MAX).checked_timestamp(), None);
    assert_eq!(at(1970, 1, 1, u32::MAX, u32::MAX, u32::MAX).checked_timestamp(), None);
}
