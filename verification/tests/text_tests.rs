use battgui::text::{format_duration, format_seconds};
use std::time::Duration;

#[test]
fn format_duration_under_one_hour_shows_minutes_only() {
    assert_eq!(format_duration(Duration::from_secs(59)), "0m");
    assert_eq!(format_duration(Duration::from_secs(60)), "1m");
    assert_eq!(format_duration(Duration::from_secs(3599)), "59m");
}

#[test]
fn format_duration_with_hours_shows_both() {
    assert_eq!(format_duration(Duration::from_secs(3600)), "1h 0m");
    assert_eq!(format_duration(Duration::from_secs(3700)), "1h 1m");
    assert_eq!(format_duration(Duration::from_millis(7_265_999)), "2h 1m");
}

#[test]
fn format_seconds_handles_the_largest_count() {
    assert_eq!(format_seconds(u64::MAX), "5124095576030431h 0m");
}
