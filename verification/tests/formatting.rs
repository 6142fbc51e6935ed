use pastecore::models::ExpirationTime;
use pastecore::text::format_duration;

#[test]
fn zero_seconds_is_zero_minutes() {
    assert_eq!(format_duration(0), "0 minute");
}

#[test]
fn under_a_minute_is_still_zero_minutes() {
    assert_eq!(format_duration(59), "0 minute");
}

#[test]
fn one_minute_is_singular() {
    assert_eq!(format_duration(60), "1 minute");
}

#[test]
fn minutes_are_plural() {
    assert_eq!(format_duration(120), "2 minutes");
}

#[test]
fn a_whole_hour_omits_minutes() {
    assert_eq!(format_duration(3600), "1 hour");
}

#[test]
fn hour_and_minute() {
    assert_eq!(format_duration(3660), "1 hour, 1 minute");
}

#[test]
fn a_whole_day_stands_alone() {
    assert_eq!(format_duration(86400), "1 day");
}

#[test]
fn day_hour_minute_all_listed() {
    assert_eq!(format_duration(90061), "1 day, 1 hour, 1 minute");
}

#[test]
fn plurals_throughout() {
    assert_eq!(
        format_duration(2 * 86400 + 2 * 3600 + 2 * 60),
        "2 days, 2 hours, 2 minutes"
    );
}

#[test]
fn day_and_minutes_without_hours() {
    assert_eq!(format_duration(86400 + 300), "1 day, 5 minutes");
}

#[test]
fn expiration_durations_in_seconds() {
    assert_eq!(ExpirationTime::FiveMinutes.to_duration(), 300);
    assert_eq!(ExpirationTime::TenMinutes.to_duration(), 600);
    assert_eq!(ExpirationTime::ThirtyMinutes.to_duration(), 1800);
    assert_eq!(ExpirationTime::OneHour.to_duration(), 3600);
    assert_eq!(ExpirationTime::TwelveHours.to_duration(), 43200);
    assert_eq!(ExpirationTime::OneDay.to_duration(), 86400);
    assert_eq!(ExpirationTime::OneWeek.to_duration(), 604800);
    assert_eq!(ExpirationTime::TwoWeeks.to_duration(), 1209600);
    assert_eq!(ExpirationTime::OneMonth.to_duration(), 2592000);
}
