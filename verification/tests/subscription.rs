use onlyrust::subscription::{
    end_date_at, end_date_calculator, new_subscription, plan_length_days, subscribed_at,
};
use onlyrust::text::str_equal;
use onlyrust::time::{
    current_time, instant_from_clock, Timestamp, MAX_TIMESTAMP_SECS, MIN_TIMESTAMP_SECS,
    SECONDS_PER_DAY,
};

// 2024-01-15T12:30:00Z
const START: i64 = 1705321800;

#[test]
fn plan_lengths() {
    assert_eq!(plan_length_days("plan_a"), Some(30));
    assert_eq!(plan_length_days("plan_b"), Some(60));
    assert_eq!(plan_length_days("plan_c"), None);
    assert_eq!(plan_length_days("Plan_A"), None);
    assert_eq!(plan_length_days(""), None);
    assert_eq!(plan_length_days("plan_a "), None);
}

#[test]
fn plan_a_ends_thirty_days_later() {
    let start = Timestamp { secs: START, nanos: 250 };
    let end = end_date_calculator("plan_a", start).unwrap();
    // 2024-02-14T12:30:00Z
    assert_eq!(end, Timestamp { secs: 1707913800, nanos: 250 });
    assert_eq!(end.secs - start.secs, 30 * SECONDS_PER_DAY);
}

#[test]
fn plan_b_ends_sixty_days_later() {
    let start = Timestamp { secs: START, nanos: 0 };
    let end = end_date_calculator("plan_b", start).unwrap();
    // 2024-03-15T12:30:00Z
    assert_eq!(end, Timestamp { secs: 1710505800, nanos: 0 });
}

#[test]
fn leap_second_start_is_dropped() {
    // 2016-12-31T23:59:60.5Z
    let start = Timestamp { secs: 1483228799, nanos: 1_500_000_000 };
    let end = end_date_calculator("plan_a", start).unwrap();
    assert_eq!(end, Timestamp { secs: 1483228799 + 30 * 86400, nanos: 500_000_000 });
    assert_eq!(start.checked_plus_days(0), Some(start));
}

#[test]
fn unknown_plan_ends_now() {
    let start = Timestamp { secs: 0, nanos: 0 };
    let end = end_date_calculator("lifetime", start).unwrap();
    // Later than 2024-01-01, the clock reads the present.
    assert!(end.secs > 1704067200);
    assert!(end.nanos < 1_000_000_000);
}

#[test]
fn end_date_with_given_time() {
    let start = Timestamp { secs: START, nanos: 0 };
    let now = Timestamp { secs: 1_800_000_000, nanos: 42 };
    assert_eq!(end_date_at("lifetime", start, now), now);
    assert_eq!(end_date_at("plan_a", start, now), Timestamp { secs: 1707913800, nanos: 0 });
}

#[test]
fn latest_start_that_fits() {
    let start = Timestamp { secs: MAX_TIMESTAMP_SECS - 30 * SECONDS_PER_DAY, nanos: 7 };
    let end = end_date_calculator("plan_a", start).unwrap();
    assert_eq!(end, Timestamp { secs: MAX_TIMESTAMP_SECS, nanos: 7 });
}

#[test]
fn adding_days_past_the_range_fails() {
    let start = Timestamp { secs: MAX_TIMESTAMP_SECS - 10, nanos: 0 };
    assert_eq!(start.checked_plus_days(1), None);
    assert_eq!(start.checked_plus_days(0), Some(start));
    let early = Timestamp { secs: -86400, nanos: 3 };
    assert_eq!(early.checked_plus_days(2), Some(Timestamp { secs: 86400, nanos: 3 }));
}

#[test]
fn clock_readings() {
    assert_eq!(instant_from_clock(&Ok((5, 7))), Some(Timestamp { secs: 5, nanos: 7 }));
    assert_eq!(instant_from_clock(&Err((1, 5))), Some(Timestamp { secs: -2, nanos: 999_999_995 }));
    assert_eq!(instant_from_clock(&Err((3, 0))), Some(Timestamp { secs: -3, nanos: 0 }));
    assert_eq!(instant_from_clock(&Ok((MAX_TIMESTAMP_SECS as u64 + 1, 0))), None);
    assert_eq!(
        instant_from_clock(&Err(((-MIN_TIMESTAMP_SECS) as u64, 0))),
        Some(Timestamp { secs: MIN_TIMESTAMP_SECS, nanos: 0 })
    );
    assert_eq!(instant_from_clock(&Err(((-MIN_TIMESTAMP_SECS) as u64, 1))), None);
    let now = current_time().unwrap();
    assert!(now.secs > 1704067200);
}

#[test]
fn subscription_record_for_plan_b() {
    let start = Timestamp { secs: START, nanos: 0 };
    let rec = new_subscription(7, 11, "plan_b", start).unwrap();
    assert_eq!(rec.user_id, 7);
    assert_eq!(rec.user_unlocked, 11);
    assert_eq!(rec.plan_name, "plan_b");
    assert_eq!(rec.start_date, start);
    assert_eq!(rec.end_date, Timestamp { secs: 1710505800, nanos: 0 });
    assert_eq!(rec.start_date_text, "2024-01-15T12:30:00+00:00");
    assert_eq!(rec.end_date_text, "2024-03-15T12:30:00+00:00");
}

#[test]
fn stored_subscription_reads_back_as_running_until_its_end() {
    let start = Timestamp { secs: START, nanos: 123_000_000 };
    let rec = new_subscription(1, 2, "plan_a", start).unwrap();
    assert_eq!(rec.end_date_text, "2024-02-14T12:30:00.123+00:00");
    let stored = vec![Some(rec.end_date_text.clone())];
    assert!(subscribed_at(&stored, start));
    assert!(subscribed_at(&stored, Timestamp { secs: 1707913800, nanos: 122_999_999 }));
    assert!(!subscribed_at(&stored, rec.end_date));
    assert!(!subscribed_at(&stored, Timestamp { secs: 1707913801, nanos: 0 }));
}

#[test]
fn leap_second_text_reads_back() {
    // 2016-12-31T23:59:60.5Z, a start that is a leap second.
    let start = Timestamp { secs: 1483228799, nanos: 1_500_000_000 };
    let rec = new_subscription(1, 2, "plan_b", start).unwrap();
    assert_eq!(rec.start_date_text, "2016-12-31T23:59:60.500+00:00");
    let just_before = Timestamp { secs: 1483228799, nanos: 1_400_000_000 };
    assert!(subscribed_at(&vec![Some(rec.start_date_text.clone())], just_before));
    assert!(!subscribed_at(&vec![Some(rec.start_date_text)], start));
}

#[test]
fn subscribed_when_an_end_date_is_later() {
    // 2024-01-15T12:30:00Z
    let now = Timestamp { secs: START, nanos: 0 };
    let later = Some("2024-02-14T12:30:00+00:00".to_string());
    let earlier_same_day = Some("2024-01-15T08:00:00+00:00".to_string());
    let exactly_now = Some("2024-01-15T12:30:00Z".to_string());
    let offset_later = Some("2024-01-15T13:30:00.5+01:00".to_string());
    assert!(subscribed_at(&vec![later.clone()], now));
    assert!(subscribed_at(&vec![None, earlier_same_day.clone(), later], now));
    assert!(!subscribed_at(&vec![earlier_same_day], now));
    assert!(!subscribed_at(&vec![exactly_now], now));
    assert!(subscribed_at(&vec![offset_later], now));
    assert!(!subscribed_at(&vec![None, Some("soon".to_string())], now));
    assert!(!subscribed_at(&vec![], now));
}

#[test]
fn string_equality() {
    assert!(str_equal("plan_a", "plan_a"));
    assert!(str_equal("", ""));
    assert!(!str_equal("plan_a", "plan_b"));
    assert!(!str_equal("plan", "plan_a"));
    assert!(str_equal("💗ü", "💗ü"));
    assert!(!str_equal("ü", "u"));
}
