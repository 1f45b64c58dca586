use vac::utils::{
    days_in_month, days_in_year, expand_tilde, expand_tilde_with, format_time, is_leap_year,
    EPOCH_YEAR, SECONDS_PER_DAY,
};

#[test]
fn format_time_formats_date_without_clock() {
    assert_eq!(format_time(SECONDS_PER_DAY, false), "1970-01-02");
}

#[test]
fn format_time_formats_date_with_clock() {
    assert_eq!(format_time(SECONDS_PER_DAY + 3_661, true), "1970-01-02 01:01:01");
}

#[test]
fn expand_tilde_keeps_plain_path() {
    assert_eq!(expand_tilde("/tmp"), "/tmp");
}

#[test]
fn format_time_knows_the_calendar() {
    assert_eq!(EPOCH_YEAR, 1970);
    assert_eq!(format_time(0, true), "1970-01-01 00:00:00");
    assert_eq!(format_time(86_399, true), "1970-01-01 23:59:59");
    assert_eq!(format_time(951_782_400, false), "2000-02-29");
    assert_eq!(format_time(951_868_800, false), "2000-03-01");
    assert_eq!(format_time(1_709_210_096, true), "2024-02-29 12:34:56");
    assert_eq!(format_time(1_735_689_599, true), "2024-12-31 23:59:59");
    assert_eq!(format_time(1_735_689_600, true), "2025-01-01 00:00:00");
    assert_eq!(format_time(4_107_542_400, false), "2100-03-01");
    assert_eq!(format_time(253_402_300_800, false), "10000-01-01");
}

#[test]
fn leap_years_follow_the_gregorian_rule() {
    assert!(is_leap_year(2000));
    assert!(is_leap_year(2024));
    assert!(!is_leap_year(1900));
    assert!(!is_leap_year(2023));
    assert_eq!(days_in_year(2024), 366);
    assert_eq!(days_in_year(2100), 365);
    assert_eq!(days_in_month(2024, 2), 29);
    assert_eq!(days_in_month(2023, 2), 28);
    assert_eq!(days_in_month(2023, 4), 30);
    assert_eq!(days_in_month(2023, 12), 31);
}

#[test]
fn tilde_expands_only_in_front_and_only_with_home() {
    assert_eq!(expand_tilde_with("~/Documents", Some("/home/alice")), "/home/alice/Documents");
    assert_eq!(expand_tilde_with("~", Some("/home/alice")), "/home/alice");
    assert_eq!(expand_tilde_with("~/a~b", Some("/h")), "/h/a~b");
    assert_eq!(expand_tilde_with("/a/~/b", Some("/home/alice")), "/a/~/b");
    assert_eq!(expand_tilde_with("~/Documents", None), "~/Documents");
    assert_eq!(expand_tilde_with("", Some("/home/alice")), "");
}
