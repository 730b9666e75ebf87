use lumina::cli::{Cli, Command, DaemonCommand};
use lumina::notifications::LibnotifyService;
use lumina::text::{join_path, parse_i32, str_eq, strip, trim, StripPattern};
use lumina::theme::Theme;
use lumina::config::ConfigError;
use lumina::utils::paths::{config_file_from, config_file_in, state_dir_from, state_dir_in};

#[test]
fn trim_removes_unicode_whitespace() {
    assert_eq!(trim("  \t value \n"), "value");
    assert_eq!(trim("\u{a0}\u{3000}x\u{2028}"), "x");
    assert_eq!(trim("   "), "");
    assert_eq!(trim("a b"), "a b");
}

#[test]
fn strip_removes_a_character_from_both_ends() {
    assert_eq!(strip("''x''", StripPattern::Char('\'')), "x");
    assert_eq!(strip("'x'y'", StripPattern::Char('\'')), "x'y");
}

#[test]
fn parse_i32_matches_std() {
    for s in ["0", "-0", "+12", "-2147483648", "2147483647", "2147483648", "", "-", "+", "1a", " 1", "007"] {
        assert_eq!(parse_i32(s), s.parse::<i32>().ok(), "input {:?}", s);
    }
}

#[test]
fn paths_are_joined_with_one_separator() {
    assert_eq!(join_path("/home/u/.config", "lumina"), "/home/u/.config/lumina");
    assert_eq!(join_path("/home/u/.config/", "lumina"), "/home/u/.config/lumina");
    assert_eq!(join_path("", "lumina"), "lumina");
    assert_eq!(config_file_in("/home/u/.config"), "/home/u/.config/lumina/config.toml");
    assert_eq!(state_dir_in("/home/u/.local/state"), "/home/u/.local/state/lumina");
}

#[test]
fn strings_compare_by_characters() {
    assert!(str_eq("dark", "dark"));
    assert!(!str_eq("dark", "darker"));
    assert!(!str_eq("Dark", "dark"));
}

#[test]
fn only_daemon_run_is_the_daemon_process() {
    assert!(Cli { command: Command::Daemon { command: DaemonCommand::Run } }.is_daemon_process());
    assert!(!Cli { command: Command::Daemon { command: DaemonCommand::Start } }.is_daemon_process());
    assert!(!Cli { command: Command::Toggle }.is_daemon_process());
}

#[test]
fn theme_change_notice() {
    let notice = LibnotifyService.theme_changed_notice(Theme::Dark);
    assert_eq!(notice.summary, "Lumina");
    assert_eq!(notice.body, "Switched to Dark mode");
    assert_eq!(notice.icon, "preferences-desktop-theme");
    assert_eq!(LibnotifyService.theme_changed_notice(Theme::Light).body, "Switched to Light mode");
}

#[test]
fn missing_directories_are_reported_or_replaced() {
    assert_eq!(config_file_from(Some("/c".to_owned())).unwrap(), "/c/lumina/config.toml");
    assert!(matches!(config_file_from(None), Err(ConfigError::MissingConfigDirectory)));
    assert_eq!(state_dir_from(Some("/s".to_owned()), Some("/d".to_owned())).unwrap(), "/s/lumina");
    assert_eq!(state_dir_from(None, Some("/d".to_owned())).unwrap(), "/d/lumina");
    assert!(state_dir_from(None, None).is_none());
}
