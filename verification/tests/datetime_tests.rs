use snowsched::datetime::compute_delay_ms;
use snowsched::datetime::days_in_month;
use snowsched::datetime::is_leap_year;
use snowsched::datetime::parse_datetime;

#[test]
fn test_parse_valid_datetime() {
    let p = parse_datetime("2024-02-29 12:30:45").unwrap();
    assert_eq!(p.year, 2024);
    assert_eq!(p.month, 2);
    assert_eq!(p.day, 29);
    assert_eq!(p.hour, 12);
    assert_eq!(p.minute, 30);
    assert_eq!(p.second, 45);
}

#[test]
fn test_parse_rejects_wrong_shape() {
    assert!(parse_datetime("").is_none());
    assert!(parse_datetime("2024-02-29").is_none());
    assert!(parse_datetime("2024-02-29 12:30:45 ").is_none());
    assert!(parse_datetime("2024/02/29 12:30:45").is_none());
    assert!(parse_datetime("2024-02-29T12:30:45").is_none());
    assert!(parse_datetime("2024-02-2a 12:30:45").is_none());
}

#[test]
fn test_parse_rejects_bad_calendar_fields() {
    assert!(parse_datetime("2024-13-01 00:00:00").is_none());
    assert!(parse_datetime("2024-00-01 00:00:00").is_none());
    assert!(parse_datetime("2024-04-31 00:00:00").is_none());
    assert!(parse_datetime("2024-01-00 00:00:00").is_none());
    assert!(parse_datetime("2023-02-29 00:00:00").is_none());
    assert!(parse_datetime("2024-01-01 24:00:00").is_none());
    assert!(parse_datetime("2024-01-01 00:60:00").is_none());
    assert!(parse_datetime("2024-01-01 00:00:60").is_none());
}

#[test]
fn test_parse_edge_days() {
    assert!(parse_datetime("2024-01-31 23:59:59").is_some());
    assert!(parse_datetime("2024-04-30 00:00:00").is_some());
    assert!(parse_datetime("2000-02-29 00:00:00").is_some());
    assert!(parse_datetime("1900-02-29 00:00:00").is_none());
}

#[test]
fn test_leap_year_rule() {
    assert!(is_leap_year(2024));
    assert!(!is_leap_year(2023));
    assert!(is_leap_year(2000));
    assert!(!is_leap_year(1900));
    assert_eq!(days_in_month(2024, 2), 29);
    assert_eq!(days_in_month(2023, 2), 28);
    assert_eq!(days_in_month(2024, 4), 30);
    assert_eq!(days_in_month(2024, 12), 31);
}

#[test]
fn test_compute_delay_exact() {
    assert_eq!(compute_delay_ms(1_000, 400), 600);
    assert_eq!(compute_delay_ms(400, 1_000), 0);
    assert_eq!(compute_delay_ms(1_000, 1_000), 0);
    assert_eq!(compute_delay_ms(i64::MAX, i64::MIN), u64::MAX);
    assert_eq!(compute_delay_ms(-100, -400), 300);
}
