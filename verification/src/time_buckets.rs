//! Time buckets of the service logger: which bucket a day falls in, whether
//! the next bucket is near, and whether the daily deletion window is open.
use chrono::Datelike;
use vstd::prelude::*;
use crate::text::{parse_unsigned, parsed_unsigned, str_eq};

verus! {

broadcast use vstd::string::group_string_axioms;

/// Days in a service-logger bucket.
pub const SL_BUCKET_SIZE_DAYS: u32 = 14;
/// Minutes before the next bucket when the next service logger is cloned.
pub const SL_MINUTES_BEFORE_BUCKET_TO_CLONE: i64 = 9;
/// Minutes after midnight during which old logs are deleted.
pub const SL_DELETING_LOG_WINDOW_SIZE_MINUTES: u32 = 10;
/// The year whose first day starts bucket 0.
pub const HOLO_EPOCH_YEAR: u16 = 2024;

/// A calendar day in UTC, counted as chrono's `num_days_from_ce` counts it:
/// January 1 of year 1 is day 1.
#[derive(Clone, Copy, Debug, PartialEq, Eq, Structural)]
pub struct UtcDate {
    pub days_from_ce: i32,
}

/// The day number (January 1 of year 1 being day 1) of January 1 of `year`,
/// in the proleptic Gregorian calendar.
pub open spec fn jan_first_days_from_ce(year: int) -> int {
    let y = year - 1;
    365 * y + y / 4 - y / 100 + y / 400 + 1
}

/// The day number of the first day of the Holo epoch.
pub open spec fn epoch_days() -> int {
    jan_first_days_from_ce(HOLO_EPOCH_YEAR as int)
}

/// `NaiveDate::from_ymd_opt(year, 1, 1)` and `num_days_from_ce` of chrono:
/// the day count of January 1 of `year`, which chrono documents as the count
/// of days of the proleptic Gregorian calendar with January 1 of year 1 as day 1.
/// January 1 exists in every year that chrono supports, which `requires` bounds.
#[verifier::external_body]
fn chrono_jan_first_days_from_ce(year: i32) -> (r: i32)
    requires
        1 <= year <= 262142,
    ensures
        r as int == jan_first_days_from_ce(year as int),
{
    chrono::NaiveDate::from_ymd_opt(year, 1, 1).unwrap().num_days_from_ce()
}

/// The day number of the first day of the Holo epoch (January 1, 2024).
pub fn epoch_start_days_from_ce() -> (r: i32)
    ensures
        r as int == epoch_days(),
{
    chrono_jan_first_days_from_ce(HOLO_EPOCH_YEAR as i32)
}

/// The bucket that a day belongs to.
pub open spec fn bucket_of(days_from_ce: int, days_in_bucket: int) -> int {
    (days_from_ce - epoch_days()) / days_in_bucket
}

/// Given the date in UTC, returns its bucket: the whole number of
/// `days_in_bucket`-day periods since the Holo epoch started.
pub fn time_bucket_from_date(date: UtcDate, days_in_bucket: u32) -> (r: u32)
    requires
        date.days_from_ce >= epoch_days(),
        days_in_bucket > 0,
    ensures
        r as int == bucket_of(date.days_from_ce as int, days_in_bucket as int),
{
    let epoch = epoch_start_days_from_ce();
    let days_since_epoch = (date.days_from_ce - epoch) as u32;
    days_since_epoch / days_in_bucket
}

/// The bucket to use now. In a test environment (`IS_TEST_ENV` set) it is
/// `SL_TEST_TIME_BUCKET` when that is set, else bucket 10.
pub open spec fn current_time_bucket_of(
    days_in_bucket: int,
    today: UtcDate,
    is_test_env: bool,
    test_time_bucket: Option<Seq<char>>,
) -> int {
    if is_test_env {
        match test_time_bucket {
            Some(t) => parsed_unsigned(t, u32::MAX as int)->Some_0,
            None => 10,
        }
    } else {
        bucket_of(today.days_from_ce as int, days_in_bucket)
    }
}

/// Returns the current time bucket in a deterministic way, so that every part
/// of the system that logs knows which service logger instance to talk to.
pub fn sl_get_current_time_bucket(
    days_in_bucket: u32,
    today: UtcDate,
    is_test_env: bool,
    test_time_bucket: Option<&str>,
) -> (r: u32)
    requires
        is_test_env && test_time_bucket is Some ==> parsed_unsigned(test_time_bucket->Some_0@, u32::MAX as int) is Some,
        !is_test_env ==> today.days_from_ce >= epoch_days() && days_in_bucket > 0,
    ensures
        r as int == current_time_bucket_of(days_in_bucket as int, today, is_test_env, match test_time_bucket {
            Some(t) => Some(t@),
            None => None,
        }),
{
    if is_test_env {
        match test_time_bucket {
            Some(t) => match parse_unsigned(t, u32::MAX as u64) {
                Some(v) => v as u32,
                None => 0,
            },
            None => 10,
        }
    } else {
        time_bucket_from_date(today, days_in_bucket)
    }
}

/// Returns whether the next bucket starts within the next few minutes: the day
/// a few minutes from now lies in another bucket than today. Always true when
/// the test flag `SL_TEST_IS_BEFORE_NEXT_BUCKET` is `true`.
pub fn sl_within_min_of_next_time_bucket(
    days_in_bucket: u32,
    today: UtcDate,
    day_in_a_few_minutes: UtcDate,
    test_flag: Option<&str>,
) -> (r: bool)
    requires
        !(test_flag matches Some(f) && f@ == "true"@) ==> {
            &&& days_in_bucket > 0
            &&& today.days_from_ce >= epoch_days()
            &&& day_in_a_few_minutes.days_from_ce >= epoch_days()
        },
    ensures
        r == ((test_flag matches Some(f) && f@ == "true"@)
            || bucket_of(today.days_from_ce as int, days_in_bucket as int)
                != bucket_of(day_in_a_few_minutes.days_from_ce as int, days_in_bucket as int)),
{
    if let Some(f) = test_flag {
        if str_eq(f, "true") {
            return true;
        }
    }
    let current = time_bucket_from_date(today, days_in_bucket);
    let soon = time_bucket_from_date(day_in_a_few_minutes, days_in_bucket);
    current != soon
}

/// Returns the bucket size, the current bucket and the number of whole
/// buckets in `days`. The bucket size is `SL_BUCKET_SIZE_DAYS` unless the
/// build environment sets another.
pub fn sl_get_bucket_range(bucket_size: u32, days: u32, current_time_bucket: u32) -> (r: (u32, u32, u32))
    requires
        bucket_size > 0,
    ensures
        r == (bucket_size, current_time_bucket, days / bucket_size),
{
    (bucket_size, current_time_bucket, days / bucket_size)
}

/// Returns whether the local time lies in the deletion window: between one
/// minute past midnight and `window_size` minutes past midnight. Always true
/// when the test flag `SL_TEST_IS_IN_DELETING_WINDOW` is `true`.
pub fn sl_within_deleting_check_window(window_size: u32, hour: u32, minute: u32, test_flag: Option<&str>) -> (r: bool)
    ensures
        r == ((test_flag matches Some(f) && f@ == "true"@) || (hour == 0 && 1 <= minute <= window_size)),
{
    if let Some(f) = test_flag {
        if str_eq(f, "true") {
            return true;
        }
    }
    hour == 0 && minute >= 1 && minute <= window_size
}

/// Law: buckets never go back: a later day is in the same or a later bucket.
pub proof fn buckets_are_monotonic(earlier: int, later: int, days_in_bucket: int)
    requires
        epoch_days() <= earlier <= later,
        days_in_bucket > 0,
    ensures
        bucket_of(earlier, days_in_bucket) <= bucket_of(later, days_in_bucket),
{
    vstd::arithmetic::div_mod::lemma_div_is_ordered(earlier - epoch_days(), later - epoch_days(), days_in_bucket);
}

/// Law: a bucket holds exactly `days_in_bucket` days: the day `days_in_bucket`
/// days later is in the next bucket.
pub proof fn bucket_advances_by_its_size(day: int, days_in_bucket: int)
    requires
        epoch_days() <= day,
        days_in_bucket > 0,
    ensures
        bucket_of(day + days_in_bucket, days_in_bucket) == bucket_of(day, days_in_bucket) + 1,
{
    vstd::arithmetic::div_mod::lemma_div_plus_one(day - epoch_days(), days_in_bucket);
    assert(day + days_in_bucket - epoch_days() == days_in_bucket + (day - epoch_days()));
}

} // verus!
