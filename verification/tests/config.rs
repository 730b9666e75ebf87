use lumina::config::{AppConfig, ConfigError, ConfigStore, ScheduleMode, TomlScalar};
use lumina::theme::Theme;

#[test]
fn parses_documented_configuration() {
    let config = AppConfig::parse(
        "theme = \"dark\"\nauto = true\nmode = \"time\"\nlight_time = \"07:00\"\ndark_time = \"18:30\"\n",
    )
    .unwrap();
    assert_eq!(config, AppConfig::default());
}

#[test]
fn fills_future_compatible_missing_fields_with_defaults() {
    let config = AppConfig::parse("auto = false\n").unwrap();
    assert!(!config.automation);
    assert_eq!(config.light_time, "07:00");
}

#[test]
fn rejects_invalid_time() {
    assert!(matches!(
        AppConfig::parse("light_time = \"25:00\""),
        Err(ConfigError::InvalidTime { field: "light_time", .. })
    ));
}

#[test]
fn default_configuration_is_valid() {
    let config = AppConfig::default();
    assert!(config.validate().is_ok());
    assert_eq!(config.theme, Theme::Dark);
    assert!(config.automation);
    assert_eq!(config.mode, ScheduleMode::Time);
    assert_eq!(config.dark_time, "18:30");
}

#[test]
fn rejects_equal_schedule_times() {
    assert!(matches!(
        AppConfig::parse("light_time = \"08:00\"\ndark_time = \"08:00\"\n"),
        Err(ConfigError::EqualScheduleTimes)
    ));
    // "8:00" and "08:00" name the same time of day.
    assert!(matches!(
        AppConfig::parse("light_time = \"8:00\"\ndark_time = \"08:00\"\n"),
        Err(ConfigError::EqualScheduleTimes)
    ));
}

#[test]
fn reports_the_invalid_dark_time() {
    match AppConfig::parse("dark_time = \"18:60\"") {
        Err(ConfigError::InvalidTime { field, value }) => {
            assert_eq!(field, "dark_time");
            assert_eq!(value, "18:60");
        }
        other => panic!("unexpected result {:?}", other),
    }
}

#[test]
fn rejects_malformed_toml() {
    assert!(matches!(AppConfig::parse("theme = "), Err(ConfigError::Parse(_))));
}

#[test]
fn rejects_values_of_the_wrong_kind() {
    assert!(matches!(AppConfig::parse("auto = \"yes\""), Err(ConfigError::Parse(_))));
    assert!(matches!(AppConfig::parse("theme = \"Dark\""), Err(ConfigError::Parse(_))));
    assert!(matches!(AppConfig::parse("mode = 3"), Err(ConfigError::Parse(_))));
    match AppConfig::parse("theme = \"blue\"") {
        Err(ConfigError::Parse(message)) => assert_eq!(message, "invalid value for theme"),
        other => panic!("unexpected result {:?}", other),
    }
}

#[test]
fn reads_every_field_and_ignores_unknown_keys() {
    let config = AppConfig::parse(
        "theme = \"light\"\nauto = false\nmode = \"sunset\"\nlight_time = \"06:15\"\ndark_time = \"21:05\"\ncolor = \"red\"\n",
    )
    .unwrap();
    assert_eq!(config.theme, Theme::Light);
    assert!(!config.automation);
    assert_eq!(config.mode, ScheduleMode::Sunset);
    assert_eq!(config.light_time, "06:15");
    assert_eq!(config.dark_time, "21:05");
}

#[test]
fn reads_all_schedule_mode_words() {
    let cases = [
        ("time", ScheduleMode::Time),
        ("sunrise", ScheduleMode::Sunrise),
        ("sunset", ScheduleMode::Sunset),
        ("battery", ScheduleMode::Battery),
        ("weather", ScheduleMode::Weather),
        ("rules", ScheduleMode::Rules),
    ];
    for (word, mode) in cases {
        let config = AppConfig::parse(&format!("mode = \"{word}\"")).unwrap();
        assert_eq!(config.mode, mode);
    }
}

#[test]
fn schedule_mode_names() {
    assert_eq!(ScheduleMode::Time.name(), "Time");
    assert_eq!(ScheduleMode::Rules.name(), "Rules");
    assert_eq!(ScheduleMode::Sunrise.name(), "Sunrise");
}

#[test]
fn from_entries_applies_entries_in_order() {
    let entries = vec![
        ("auto".to_owned(), TomlScalar::Boolean(false)),
        ("light_time".to_owned(), TomlScalar::Text("05:00".to_owned())),
        ("other".to_owned(), TomlScalar::Other),
    ];
    let config = AppConfig::from_entries(&entries).unwrap();
    assert!(!config.automation);
    assert_eq!(config.light_time, "05:00");
    assert_eq!(config.dark_time, "18:30");
    let bad = vec![("light_time".to_owned(), TomlScalar::Other)];
    assert!(matches!(AppConfig::from_entries(&bad), Err(ConfigError::Parse(_))));
}

#[test]
fn clock_times_are_read_from_the_configuration() {
    let config = AppConfig::default();
    let light = config.light_time().unwrap();
    assert_eq!((light.secs, light.nanos), (7 * 3600, 0));
    let dark = config.dark_time().unwrap();
    assert_eq!((dark.hour(), dark.minute()), (18, 30));
    let relaxed = AppConfig { light_time: " 7:5".to_owned(), ..AppConfig::default() };
    assert_eq!(relaxed.light_time().unwrap().secs, 7 * 3600 + 5 * 60);
}

#[test]
fn store_keeps_its_path() {
    let store = ConfigStore::at("/tmp/lumina-test/config.toml".to_owned());
    assert_eq!(store.path(), "/tmp/lumina-test/config.toml");
}

#[test]
fn standard_store_lives_under_lumina() {
    if let Ok(store) = ConfigStore::standard() {
        assert!(store.path().ends_with("/lumina/config.toml"));
    }
}
