use hubdash::metrics::{deps_rate, format_duration, rate_class};

#[test]
fn freshness_rate_of_no_dependencies_is_100() {
    assert_eq!(deps_rate(0, 0), 100);
}

#[test]
fn freshness_rate_of_all_current_is_100() {
    assert_eq!(deps_rate(5, 5), 100);
    assert_eq!(deps_rate(156, 156), 100);
    assert_eq!(deps_rate(u32::MAX, u32::MAX), 100);
}

#[test]
fn freshness_rate_rounds_to_nearest() {
    assert_eq!(deps_rate(1, 3), 33);
    assert_eq!(deps_rate(2, 3), 67);
    assert_eq!(deps_rate(40, 42), 95);
    assert_eq!(deps_rate(65, 78), 83);
    assert_eq!(deps_rate(22, 34), 65);
    assert_eq!(deps_rate(31, 89), 35);
}

#[test]
fn freshness_rate_rounds_halves_up() {
    assert_eq!(deps_rate(1, 8), 13);
    assert_eq!(deps_rate(1, 200), 1);
    assert_eq!(deps_rate(3, 40), 8);
    assert_eq!(deps_rate(199, 200), 100);
    assert_eq!(deps_rate(23, 40), 58);
    assert_eq!(deps_rate(29, 200), 15);
}

#[test]
fn freshness_rate_of_none_current_is_0() {
    assert_eq!(deps_rate(0, 1), 0);
    assert_eq!(deps_rate(0, u32::MAX), 0);
    assert_eq!(deps_rate(1, u32::MAX), 0);
}

#[test]
fn freshness_rate_of_large_counts() {
    assert_eq!(deps_rate(u32::MAX - 1, u32::MAX), 100);
    assert_eq!(deps_rate(u32::MAX / 2, u32::MAX), 50);
}

#[test]
fn tier_boundaries() {
    assert_eq!(rate_class(100), "rate-excellent");
    assert_eq!(rate_class(90), "rate-excellent");
    assert_eq!(rate_class(89), "rate-good");
    assert_eq!(rate_class(75), "rate-good");
    assert_eq!(rate_class(74), "rate-warning");
    assert_eq!(rate_class(50), "rate-warning");
    assert_eq!(rate_class(49), "rate-critical");
    assert_eq!(rate_class(0), "rate-critical");
}

#[test]
fn tier_of_every_percentage() {
    for rate in 0..=100u8 {
        let expected = if rate >= 90 {
            "rate-excellent"
        } else if rate >= 75 {
            "rate-good"
        } else if rate >= 50 {
            "rate-warning"
        } else {
            "rate-critical"
        };
        assert_eq!(rate_class(rate), expected);
    }
}

#[test]
fn tier_above_100_is_critical() {
    assert_eq!(rate_class(101), "rate-critical");
    assert_eq!(rate_class(255), "rate-critical");
}

#[test]
fn duration_of_154_seconds() {
    assert_eq!(format_duration(Some(154)), "2m 34s");
}

#[test]
fn duration_absent_is_a_dash() {
    assert_eq!(format_duration(None), "\u{2014}");
}

#[test]
fn duration_pads_seconds_to_two_digits() {
    assert_eq!(format_duration(Some(0)), "0m 00s");
    assert_eq!(format_duration(Some(5)), "0m 05s");
    assert_eq!(format_duration(Some(60)), "1m 00s");
    assert_eq!(format_duration(Some(105)), "1m 45s");
    assert_eq!(format_duration(Some(202)), "3m 22s");
    assert_eq!(format_duration(Some(312)), "5m 12s");
}

#[test]
fn duration_of_an_hour_and_more_stays_in_minutes() {
    assert_eq!(format_duration(Some(3600)), "60m 00s");
    assert_eq!(format_duration(Some(4530)), "75m 30s");
    assert_eq!(format_duration(Some(86_399)), "1439m 59s");
}

#[test]
fn duration_of_the_longest_span() {
    assert_eq!(format_duration(Some(i64::MAX)), "153722867280912930m 07s");
}

#[test]
fn duration_below_zero_rounds_minutes_down() {
    assert_eq!(format_duration(Some(-1)), "-1m 59s");
    assert_eq!(format_duration(Some(-60)), "-1m 00s");
    assert_eq!(format_duration(Some(-90)), "-2m 30s");
    assert_eq!(format_duration(Some(i64::MIN)), "-153722867280912931m 52s");
}
