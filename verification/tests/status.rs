use lumina::clock::ClockTime;
use lumina::config::{AppConfig, ScheduleMode};
use lumina::status::{clock_label, status_lines, status_report};
use lumina::theme::Theme;

#[test]
fn clock_labels_are_zero_padded() {
    assert_eq!(clock_label(ClockTime::from_hms_opt(18, 30, 0).unwrap()), "18:30");
    assert_eq!(clock_label(ClockTime::from_hms_opt(7, 5, 59).unwrap()), "07:05");
    assert_eq!(clock_label(ClockTime::from_hms_opt(0, 0, 0).unwrap()), "00:00");
}

#[test]
fn status_lines_follow_the_documented_layout() {
    let config = AppConfig::default();
    let lines = status_lines(Theme::Dark, &config, ClockTime::from_hms_opt(18, 30, 0));
    assert_eq!(
        lines,
        vec!["Current Theme: Dark", "Automation: Enabled", "Mode: Time", "Next Change: 18:30"]
    );
}

#[test]
fn disabled_automation_has_no_next_change() {
    let config = AppConfig { automation: false, mode: ScheduleMode::Sunrise, ..AppConfig::default() };
    let lines = status_report(Theme::Light, &config).unwrap();
    assert_eq!(
        lines,
        vec!["Current Theme: Light", "Automation: Disabled", "Mode: Sunrise", "Next Change: Disabled"]
    );
}

#[test]
fn enabled_automation_reports_a_scheduled_time() {
    let lines = status_report(Theme::Light, &AppConfig::default()).unwrap();
    assert!(lines[3] == "Next Change: 07:00" || lines[3] == "Next Change: 18:30");
}
