use my_hood::error::{HoodError, Rejection};
use my_hood::rules::{ReservationPeriod, ReservationRules};
use my_hood::time::{Instant, TimeOfDay};

fn at(s: &str) -> Instant {
    let t: chrono::DateTime<chrono::Utc> = s.parse().unwrap();
    Instant::from_unix_seconds(t.timestamp())
}

fn rules() -> ReservationRules {
    ReservationRules::new(TimeOfDay::from_hms(6, 0, 0).unwrap(), 60, 1, ReservationPeriod::Daily)
}

#[test]
fn time_of_day_components() {
    assert_eq!(TimeOfDay::from_hms(6, 0, 0).unwrap().secs(), 21600);
    assert_eq!(TimeOfDay::from_hms(23, 59, 59).unwrap().secs(), 86399);
    assert!(TimeOfDay::from_hms(24, 0, 0).is_none());
    assert!(TimeOfDay::from_hms(0, 60, 0).is_none());
    assert!(TimeOfDay::from_hms(0, 0, 60).is_none());
    assert_eq!(TimeOfDay::from_hms(0, 0, 0).unwrap().secs(), 0);
}

#[test]
fn date_and_time_of_instants() {
    let t = at("2024-01-01T07:00:00Z");
    assert_eq!(t.date(), 19723);
    assert_eq!(t.time().secs(), 7 * 3600);
    assert_eq!(t.start_of_day(), at("2024-01-01T00:00:00Z"));
    // Before the epoch the day still starts at midnight.
    let b = at("1969-12-31T23:00:00Z");
    assert_eq!(b.date(), -1);
    assert_eq!(b.time().secs(), 23 * 3600);
    assert_eq!(b.start_of_day(), at("1969-12-31T00:00:00Z"));
}

#[test]
fn cutoff_needs_same_day_and_opening_time() {
    let r = rules();
    let start = at("2024-01-01T10:00:00Z");
    assert!(r.is_within_cutoff(at("2024-01-01T07:00:00Z"), start));
    assert!(r.is_within_cutoff(at("2024-01-01T06:00:00Z"), start));
    assert!(!r.is_within_cutoff(at("2024-01-01T05:59:59Z"), start));
    assert!(!r.is_within_cutoff(at("2023-12-31T23:00:00Z"), start));
    assert!(r.is_same_period(at("2024-01-01T23:59:59Z"), start));
    assert!(!r.is_same_period(at("2024-01-02T00:00:00Z"), start));
    assert!(r.is_after_cutoff(at("2024-01-05T06:30:00Z")));
}

#[test]
fn duration_compares_the_whole_span() {
    let r = rules();
    let start = at("2024-01-01T10:00:00Z");
    assert!(r.is_within_max_duration(start, at("2024-01-01T11:00:00Z")));
    assert!(!r.is_within_max_duration(start, at("2024-01-01T11:00:01Z")));
    assert!(!r.is_within_max_duration(start, at("2024-01-01T11:00:30Z")));
    assert!(r.is_within_max_duration(start, start));
    let wide = ReservationRules::new(TimeOfDay::from_hms(0, 0, 0).unwrap(), u32::MAX, 1, ReservationPeriod::Daily);
    assert!(!wide.is_within_max_duration(Instant::from_unix_seconds(i64::MIN), Instant::from_unix_seconds(i64::MAX)));
    assert!(wide.is_within_max_duration(start, at("2100-01-01T00:00:00Z")));
}

#[test]
fn temporal_checks_in_order() {
    let r = rules();
    let start = at("2024-01-02T10:00:00Z");
    let end = at("2024-01-02T13:00:00Z");
    assert_eq!(r.check_temporal(start, end, at("2024-01-01T05:00:00Z")), Err(Rejection::WrongDay));
    assert_eq!(r.check_temporal(start, end, at("2024-01-02T05:00:00Z")), Err(Rejection::TooEarly));
    assert_eq!(r.check_temporal(start, end, at("2024-01-02T07:00:00Z")), Err(Rejection::DurationExceeded));
    assert_eq!(r.check_temporal(start, at("2024-01-02T10:30:00Z"), at("2024-01-02T07:00:00Z")), Ok(()));
}

#[test]
fn quota_check_on_a_count() {
    let r = rules();
    assert_eq!(r.check_quota(0), Ok(()));
    assert_eq!(r.check_quota(1), Err(Rejection::QuotaExceeded));
    assert_eq!(r.check_quota(u64::MAX), Err(Rejection::QuotaExceeded));
}

#[test]
fn period_window_is_the_day() {
    let (from, to) = rules().period_window(at("2024-01-01T07:00:00Z"));
    assert_eq!(from, at("2024-01-01T00:00:00Z"));
    assert_eq!(to, at("2024-01-02T00:00:00Z"));
}

#[test]
fn rejection_messages() {
    assert_eq!(Rejection::WrongDay.message(), "Reservations can only be made for today");
    assert_eq!(Rejection::SlotConflict.message(), "Field overlaps with another reservation");
    assert_eq!(
        HoodError::from_rejection(Rejection::QuotaExceeded).msg,
        "User has reached the maximum number of reservations for today"
    );
    let all = [
        Rejection::Unauthorized,
        Rejection::WrongDay,
        Rejection::TooEarly,
        Rejection::DurationExceeded,
        Rejection::SlotConflict,
        Rejection::QuotaExceeded,
        Rejection::PolicyParseError,
        Rejection::StorageError,
    ];
    for (i, a) in all.iter().enumerate() {
        for b in all.iter().skip(i + 1) {
            assert_ne!(a.message(), b.message());
        }
    }
}
