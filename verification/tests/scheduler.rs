use lumina::clock::{ClockTime, LocalDateTime};
use lumina::config::{AppConfig, ScheduleMode};
use lumina::scheduler::{evaluate_now, strategy, ScheduleStrategy, SchedulerError, TimeSchedule};
use lumina::theme::Theme;

fn on(day: u32, hour: u32, minute: u32) -> LocalDateTime {
    LocalDateTime::from_ymd_hms_opt(2026, 6, day, hour, minute, 0).unwrap()
}

fn at(hour: u32, minute: u32) -> LocalDateTime {
    on(27, hour, minute)
}

fn schedule(light: (u32, u32), dark: (u32, u32)) -> TimeSchedule {
    TimeSchedule::new(
        ClockTime::from_hms_opt(light.0, light.1, 0).unwrap(),
        ClockTime::from_hms_opt(dark.0, dark.1, 0).unwrap(),
    )
    .unwrap()
}

#[test]
fn daytime_schedule_selects_light_inside_window() {
    let decision = schedule((7, 0), (18, 30)).evaluate(at(12, 0)).unwrap();
    assert_eq!(decision.target_theme, Theme::Light);
    assert_eq!(decision.next_change, at(18, 30));
}

#[test]
fn daytime_schedule_selects_dark_after_window() {
    let decision = schedule((7, 0), (18, 30)).evaluate(at(20, 0)).unwrap();
    assert_eq!(decision.target_theme, Theme::Dark);
    assert_eq!(decision.next_change, at(7, 0).next_day().unwrap());
}

#[test]
fn supports_light_windows_crossing_midnight() {
    assert_eq!(schedule((18, 0), (6, 0)).evaluate(at(23, 0)).unwrap().target_theme, Theme::Light);
    assert_eq!(schedule((18, 0), (6, 0)).evaluate(at(12, 0)).unwrap().target_theme, Theme::Dark);
}

#[test]
fn boundary_switches_to_new_theme() {
    assert_eq!(schedule((7, 0), (18, 30)).evaluate(at(18, 30)).unwrap().target_theme, Theme::Dark);
}

#[test]
fn next_day_is_the_following_calendar_day() {
    assert_eq!(at(7, 0).next_day().unwrap(), on(28, 7, 0));
    let new_year = LocalDateTime::from_ymd_hms_opt(2026, 12, 31, 9, 0, 0).unwrap();
    assert_eq!(
        new_year.next_day().unwrap(),
        LocalDateTime::from_ymd_hms_opt(2027, 1, 1, 9, 0, 0).unwrap()
    );
}

#[test]
fn calendar_rejects_impossible_dates() {
    assert!(LocalDateTime::from_ymd_hms_opt(2026, 2, 30, 9, 0, 0).is_none());
    assert!(LocalDateTime::from_ymd_hms_opt(2026, 6, 27, 24, 0, 0).is_none());
    assert!(ClockTime::from_hms_opt(23, 60, 0).is_none());
}

#[test]
fn early_morning_waits_for_light_today() {
    let decision = schedule((7, 0), (18, 30)).evaluate(at(3, 0)).unwrap();
    assert_eq!(decision.target_theme, Theme::Dark);
    assert_eq!(decision.next_change, at(7, 0));
}

#[test]
fn at_light_time_the_next_change_is_dark_today() {
    let decision = schedule((7, 0), (18, 30)).evaluate(at(7, 0)).unwrap();
    assert_eq!(decision.target_theme, Theme::Light);
    assert_eq!(decision.next_change, at(18, 30));
}

#[test]
fn midnight_window_changes_on_the_next_morning() {
    let decision = schedule((18, 0), (6, 0)).evaluate(at(23, 0)).unwrap();
    assert_eq!(decision.next_change, on(28, 6, 0));
    let decision = schedule((18, 0), (6, 0)).evaluate(at(12, 0)).unwrap();
    assert_eq!(decision.next_change, at(18, 0));
}

#[test]
fn the_next_change_brings_the_other_theme() {
    let s = schedule((7, 0), (18, 30));
    for (h, m) in [(0, 0), (6, 59), (7, 0), (12, 0), (18, 29), (18, 30), (23, 59)] {
        let now = at(h, m);
        let decision = s.evaluate(now).unwrap();
        let after = s.evaluate(decision.next_change).unwrap();
        assert_ne!(after.target_theme, decision.target_theme);
    }
}

#[test]
fn equal_times_are_rejected() {
    let t = ClockTime::from_hms_opt(7, 0, 0).unwrap();
    assert!(matches!(TimeSchedule::new(t, t), Err(SchedulerError::EqualTimes)));
}

#[test]
fn reserved_modes_are_unsupported() {
    let config = AppConfig { mode: ScheduleMode::Weather, ..AppConfig::default() };
    assert!(matches!(strategy(&config), Err(SchedulerError::UnsupportedMode(ScheduleMode::Weather))));
    assert!(matches!(evaluate_now(&config), Err(SchedulerError::UnsupportedMode(ScheduleMode::Weather))));
}

#[test]
fn invalid_configuration_is_a_config_error() {
    let config = AppConfig { dark_time: "noon".to_owned(), ..AppConfig::default() };
    assert!(matches!(TimeSchedule::from_config(&config), Err(SchedulerError::Config(_))));
}

#[test]
fn evaluating_now_gives_a_change_within_a_day() {
    let decision = evaluate_now(&AppConfig::default()).unwrap();
    let t = decision.next_change.time;
    assert!((t.hour(), t.minute()) == (7, 0) || (t.hour(), t.minute()) == (18, 30));
}

#[test]
fn the_theme_holds_until_the_next_change() {
    let s = schedule((7, 0), (18, 30));
    let now = at(20, 0);
    let decision = s.evaluate(now).unwrap();
    let mut t = now;
    while t.lt(&decision.next_change) {
        assert_eq!(s.evaluate(t).unwrap().target_theme, decision.target_theme);
        let secs = t.time.secs + 600;
        t = if secs >= 86400 {
            LocalDateTime { days: t.days + 1, time: ClockTime { secs: secs - 86400, nanos: 0 } }
        } else {
            LocalDateTime { days: t.days, time: ClockTime { secs, nanos: 0 } }
        };
    }
}
