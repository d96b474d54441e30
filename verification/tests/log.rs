use chrono::{Datelike, NaiveDate};
use dld::common::log::{cleanup_old_logs, format_console_line, format_file_line, is_expired_log, Logger};
use dld::common::paths::Paths;

#[test]
fn test_format_file_line() {
    let line = format_file_line("14:30:00", "开始乐斗", "完成");
    assert_eq!(line, "14:30:00 | 开始乐斗：完成");
}

#[test]
fn test_format_console_line() {
    let line = format_console_line("2026-06-15 14:30:00", "123456", "开始乐斗", "完成");
    assert_eq!(line, "2026-06-15 14:30:00 | 123456 | 开始乐斗：完成");
}

#[test]
fn logger_lines_carry_its_qq() {
    let logger = Logger::new("/tmp/dld/logs", "123456");
    assert_eq!(logger.qq(), "123456");
    assert_eq!(logger.logs_dir(), "/tmp/dld/logs");
    assert_eq!(logger.console_line("t", "乐斗", "ok"), "t | 123456 | 乐斗：ok");
    assert_eq!(logger.file_line("t", "乐斗", "ok"), "t | 乐斗：ok");
}

fn day(y: i32, m: u32, d: u32) -> i32 {
    NaiveDate::from_ymd_opt(y, m, d).unwrap().num_days_from_ce()
}

#[test]
fn cleanup_keeps_the_retention_window() {
    let today = day(2026, 6, 15);
    let stems = vec![
        "2026-06-05".to_string(),
        "2026-06-13".to_string(),
        "2026-06-12".to_string(),
        "notes".to_string(),
    ];
    // 3 days: today and the 2 days before are kept
    assert_eq!(cleanup_old_logs(&stems, today, 3), vec![true, false, true, false]);
}

#[test]
fn cleanup_retention_one_deletes_yesterday() {
    let today = day(2026, 6, 15);
    assert!(is_expired_log("2026-06-14", today, 1));
    assert!(!is_expired_log("2026-06-15", today, 1));
    assert!(!is_expired_log("2026-13-01", today, 1));
}

#[test]
fn paths_under_data_dir() {
    let p = Paths::with_data_dir("/data");
    assert_eq!(p.data_dir(), "/data");
    assert_eq!(p.logs_dir(), "/data/logs");
    assert_eq!(p.config_dir(), "/data/config");
    assert_eq!(p.cookies_file(), "/data/cookies.json");
    assert_eq!(p.global_config_file(), "/data/global_config.json");
}
