use chrono::{Datelike, NaiveDate, NaiveTime, Timelike};
use lumina::clock::{LocalDateTime, FIRST_DAY_NUMBER, LAST_DAY_NUMBER};
use lumina::config::{AppConfig, ConfigError};

fn configured(value: &str) -> Result<u32, ConfigError> {
    let config = AppConfig { light_time: value.to_owned(), ..AppConfig::default() };
    config.light_time().map(|t| t.secs)
}

#[test]
fn time_parsing_agrees_with_chrono() {
    let samples = [
        "07:00", "7:00", "7:5", " 7:05", "07: 05", "\u{3000}07:00", "23:59", "24:00", "25:00",
        "12:60", "007:00", "07:000", "07:00 ", "07-00", "", ":", "7", "07:", ":05", "+7:00",
        "٠٧:٠٠", "0:0", "19:7",
    ];
    for s in samples {
        let ours = configured(s).ok();
        let theirs = NaiveTime::parse_from_str(s, "%H:%M").ok().map(|t| t.num_seconds_from_midnight());
        assert_eq!(ours, theirs, "input {:?}", s);
    }
}

#[test]
fn out_of_range_times_are_rejected() {
    assert!(matches!(configured("25:00"), Err(ConfigError::InvalidTime { field: "light_time", .. })));
    assert!(matches!(configured("18:60"), Err(ConfigError::InvalidTime { .. })));
    assert!(matches!(configured("noon"), Err(ConfigError::InvalidTime { .. })));
}

#[test]
fn calendar_ends_match_chrono() {
    assert_eq!(NaiveDate::MIN.num_days_from_ce(), FIRST_DAY_NUMBER);
    assert_eq!(NaiveDate::MAX.num_days_from_ce(), LAST_DAY_NUMBER);
    let last = LocalDateTime::from_ymd_hms_opt(262142, 12, 31, 0, 0, 0).unwrap();
    assert_eq!(last.days, LAST_DAY_NUMBER);
    assert!(last.next_day().is_none());
    let before_last = LocalDateTime { days: LAST_DAY_NUMBER - 1, time: last.time };
    assert_eq!(before_last.next_day().unwrap(), last);
    let first = LocalDateTime::from_ymd_hms_opt(-262143, 1, 1, 0, 0, 0).unwrap();
    assert_eq!(first.days, FIRST_DAY_NUMBER);
    assert_eq!(first.next_day().unwrap().days, FIRST_DAY_NUMBER + 1);
    assert!(LocalDateTime { days: FIRST_DAY_NUMBER - 1, time: last.time }.next_day().is_none());
}

#[test]
fn calendar_day_numbers_agree_with_chrono() {
    let years = [-262144, -262143, -400, -4, -1, 0, 1, 4, 100, 1900, 2000, 2024, 2026, 2100, 262142, 262143];
    for year in years {
        for month in 0..=13u32 {
            for day in [0u32, 1, 15, 28, 29, 30, 31, 32] {
                let ours = LocalDateTime::from_ymd_hms_opt(year, month, day, 0, 0, 0).map(|t| t.days);
                let theirs = NaiveDate::from_ymd_opt(year, month, day).map(|d| d.num_days_from_ce());
                assert_eq!(ours, theirs, "date {}-{}-{}", year, month, day);
            }
        }
    }
}
