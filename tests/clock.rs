use spacing::clock::day_from_secs;
use spacing::clock::today_in_secs;
use spacing::clock::ClockError;
use spacing::clock::SECONDS_PER_DAY;

#[test]
fn day_boundaries() {
    assert_eq!(day_from_secs(0), Ok(0));
    assert_eq!(day_from_secs(86399), Ok(0));
    assert_eq!(day_from_secs(86400), Ok(1));
    assert_eq!(day_from_secs(17433 * 86400 + 43200), Ok(17433));
}

#[test]
fn last_representable_day() {
    let last = u32::MAX as u64 * SECONDS_PER_DAY;
    assert_eq!(day_from_secs(last), Ok(u32::MAX));
    assert_eq!(day_from_secs(last + SECONDS_PER_DAY - 1), Ok(u32::MAX));
}

#[test]
fn day_past_the_range_is_an_error() {
    let first_out = (u32::MAX as u64 + 1) * SECONDS_PER_DAY;
    assert_eq!(day_from_secs(first_out), Err(ClockError::DayOutOfRange));
    assert_eq!(day_from_secs(u64::MAX), Err(ClockError::DayOutOfRange));
}

#[test]
fn today_is_after_the_first_recorded_review_day() {
    let today = today_in_secs().unwrap();
    assert!(today > 17433);
    assert!(today < 100_000);
}
