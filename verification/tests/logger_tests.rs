use panorama_mail::logger::{Level, Logger, LoguruLogger};
use std::cell::RefCell;

#[test]
fn lines_without_colour() {
    let l = LoguruLogger::with_options(Level::Info, false);
    assert_eq!(l.render(Level::Debug, "T", "m"), None);
    assert_eq!(l.render(Level::Info, "T", "m").as_deref(), Some("T | INFO  | panorama-mail | m"));
    assert_eq!(l.render(Level::Warn, "T", "m").as_deref(), Some("T | WARN  | panorama-mail | m"));
    assert_eq!(l.render(Level::Error, "T", "m").as_deref(), Some("T | ERROR | panorama-mail | m"));
}

#[test]
fn lines_with_colour() {
    let l = LoguruLogger::with_options(Level::Debug, true);
    assert_eq!(
        l.render(Level::Debug, "2026-05-08 14:30:00.123", "hi").as_deref(),
        Some("2026-05-08 14:30:00.123 | \x1b[36mDEBUG\x1b[0m | panorama-mail | hi")
    );
    assert_eq!(
        l.render(Level::Error, "T", "x").as_deref(),
        Some("T | \x1b[31mERROR\x1b[0m | panorama-mail | x")
    );
}

#[test]
fn levels_are_ordered() {
    assert_eq!(Level::Debug.rank(), 0);
    assert_eq!(Level::Error.rank(), 3);
    assert!(Level::Info.is_below(&Level::Warn));
    assert!(!Level::Warn.is_below(&Level::Warn));
    assert!(Level::Debug < Level::Info && Level::Warn < Level::Error);
    let l = LoguruLogger::with_options(Level::Error, false);
    assert!(l.render(Level::Warn, "T", "m").is_none());
}

struct Recorder(RefCell<Vec<(Level, String)>>);

impl Logger for Recorder {
    fn log(&self, level: Level, message: &str) {
        self.0.borrow_mut().push((level, message.to_string()));
    }
}

#[test]
fn helpers_pass_their_level() {
    let r = Recorder(RefCell::new(vec![]));
    r.debug("a");
    r.info("b");
    r.warn("c");
    r.error("d");
    assert_eq!(
        r.0.into_inner(),
        vec![
            (Level::Debug, "a".to_string()),
            (Level::Info, "b".to_string()),
            (Level::Warn, "c".to_string()),
            (Level::Error, "d".to_string()),
        ]
    );
}

#[test]
fn default_logger_logs_everything() {
    let l = LoguruLogger::default();
    l.debug("visible on stderr");
    let n = LoguruLogger::new();
    let _ = n;
}

use chrono::{Datelike, NaiveDate, Timelike};
use panorama_mail::logger::loguru::{format_timestamp, LocalDateTime};

fn stamp(year: i32, month: u32, day: u32, hour: u32, minute: u32, second: u32, nanosecond: u32) -> LocalDateTime {
    LocalDateTime { year, month, day, hour, minute, second, nanosecond }
}

#[test]
fn timestamps() {
    assert_eq!(format_timestamp(&stamp(2026, 5, 8, 14, 30, 0, 123_456_789)), "2026-05-08 14:30:00.123");
    assert_eq!(format_timestamp(&stamp(7, 1, 2, 3, 4, 5, 6_000_000)), "0007-01-02 03:04:05.006");
    assert_eq!(format_timestamp(&stamp(10000, 12, 31, 23, 59, 59, 1_999_000_000)), "+10000-12-31 23:59:60.999");
    assert_eq!(format_timestamp(&stamp(-5, 1, 1, 0, 0, 0, 0)), "-0005-01-01 00:00:00.000");
}

#[test]
fn timestamps_agree_with_chrono() {
    for (y, mo, d, h, mi, s, ms) in [(2026, 5, 8, 14, 30, 0, 123), (1999, 12, 31, 23, 59, 59, 999), (1, 1, 1, 0, 0, 0, 0), (-44, 3, 15, 12, 0, 7, 50)] {
        let dt = NaiveDate::from_ymd_opt(y, mo, d).unwrap().and_hms_milli_opt(h, mi, s, ms).unwrap();
        let ours = format_timestamp(&stamp(dt.year(), dt.month(), dt.day(), dt.hour(), dt.minute(), dt.second(), dt.nanosecond()));
        assert_eq!(ours, dt.format("%Y-%m-%d %H:%M:%S%.3f").to_string());
    }
}
