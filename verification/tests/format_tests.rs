use daneel_dashboard::client::ws_url;
use daneel_dashboard::fmt::{format_duration, format_fixed2, format_number, format_percent, u64_to_string};

#[test]
fn duration_with_hours() {
    assert_eq!(format_duration(3725), "1h 2m 5s");
}

#[test]
fn duration_with_minutes_only() {
    assert_eq!(format_duration(65), "1m 5s");
}

#[test]
fn duration_with_seconds_only() {
    assert_eq!(format_duration(9), "9s");
}

#[test]
fn duration_zero() {
    assert_eq!(format_duration(0), "0s");
}

#[test]
fn duration_exact_hour() {
    assert_eq!(format_duration(3600), "1h 0m 0s");
}

#[test]
fn duration_exact_minute() {
    assert_eq!(format_duration(60), "1m 0s");
}

#[test]
fn duration_large() {
    // 2 days, 3 hours, 4 minutes, 5 seconds
    assert_eq!(format_duration(2 * 86400 + 3 * 3600 + 4 * 60 + 5), "51h 4m 5s");
}

#[test]
fn number_grouping() {
    assert_eq!(format_number(1234567), "1,234,567");
}

#[test]
fn number_small_unchanged() {
    assert_eq!(format_number(42), "42");
    assert_eq!(format_number(0), "0");
    assert_eq!(format_number(999), "999");
}

#[test]
fn number_boundary() {
    assert_eq!(format_number(1000), "1,000");
    assert_eq!(format_number(1000000), "1,000,000");
    assert_eq!(format_number(1001), "1,001");
}

#[test]
fn number_largest() {
    assert_eq!(format_number(u64::MAX), "18,446,744,073,709,551,615");
}

#[test]
fn number_grouping_idempotent_on_stripped_digits() {
    let grouped = format_number(1234567);
    let stripped: String = grouped.chars().filter(|c| *c != ',').collect();
    assert_eq!(stripped, "1234567");
    let reparsed: u64 = stripped.parse().unwrap();
    assert_eq!(format_number(reparsed), grouped);
}

#[test]
fn decimal_rendering() {
    assert_eq!(u64_to_string(0), "0");
    assert_eq!(u64_to_string(7), "7");
    assert_eq!(u64_to_string(12345), "12345");
}

#[test]
fn percent_truncates() {
    // 0.73 of a unit, held in ten-thousandths
    assert_eq!(format_percent(7300), "73%");
    // 0.7399 still truncates down
    assert_eq!(format_percent(7399), "73%");
}

#[test]
fn percent_bounds() {
    assert_eq!(format_percent(0), "0%");
    assert_eq!(format_percent(10000), "100%");
    // negative values saturate at zero, as the unsigned display cast did
    assert_eq!(format_percent(-2500), "0%");
}

#[test]
fn fixed2_rounds() {
    // 0.7361 rounds to 0.74
    assert_eq!(format_fixed2(7361), "0.74");
    // 0.005 rounds half away from zero
    assert_eq!(format_fixed2(50), "0.01");
}

#[test]
fn fixed2_signs_and_zero() {
    assert_eq!(format_fixed2(0), "0.00");
    assert_eq!(format_fixed2(10000), "1.00");
    assert_eq!(format_fixed2(-2500), "-0.25");
    assert_eq!(format_fixed2(-10000), "-1.00");
}

#[test]
fn ws_url_secure_page() {
    assert_eq!(ws_url(true, "example.com"), "wss://example.com/ws");
}

#[test]
fn ws_url_insecure_page() {
    assert_eq!(ws_url(false, "localhost:3000"), "ws://localhost:3000/ws");
}
