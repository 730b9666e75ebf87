use lumina::clock::LocalDateTime;
use lumina::config::{AppConfig, ScheduleMode};
use lumina::scheduler::{ScheduleStrategy, TimeSchedule};
use lumina::theme::Theme;
use toml::{Table, Value};

/// The document the program stores for a configuration: its fields as a TOML table,
/// written by `toml` after validation.
fn stored_document(config: &AppConfig) -> String {
    config.validate().unwrap();
    let mut table = Table::new();
    let theme = if config.theme == Theme::Dark { "dark" } else { "light" };
    let mode = if config.mode == ScheduleMode::Time { "time" } else { "rules" };
    table.insert("theme".to_owned(), Value::String(theme.to_owned()));
    table.insert("auto".to_owned(), Value::Boolean(config.automation));
    table.insert("mode".to_owned(), Value::String(mode.to_owned()));
    table.insert("light_time".to_owned(), Value::String(config.light_time.clone()));
    table.insert("dark_time".to_owned(), Value::String(config.dark_time.clone()));
    toml::to_string_pretty(&table).unwrap()
}

#[test]
fn persisted_configuration_drives_scheduler() {
    let config = AppConfig {
        light_time: "08:15".to_owned(),
        dark_time: "20:45".to_owned(),
        ..AppConfig::default()
    };
    let stored = stored_document(&config);

    let loaded = AppConfig::parse(&stored).unwrap();
    assert_eq!(loaded, config);
    let schedule = TimeSchedule::from_config(&loaded).unwrap();
    let noon = LocalDateTime::from_ymd_hms_opt(2026, 6, 27, 12, 0, 0).unwrap();
    assert_eq!(schedule.evaluate(noon).unwrap().target_theme, Theme::Light);
}
