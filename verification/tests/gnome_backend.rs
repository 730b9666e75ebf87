use std::collections::VecDeque;
use std::sync::Mutex;

use lumina::backends::gnome::{
    get_args, parse_theme, scheme_value, set_args, set_outcome, theme_from_output, CommandOutput,
    CommandRunner,
};
use lumina::backends::{BackendError, GnomeBackend};
use lumina::theme::{Theme, ThemeBackend};

struct FakeRunner {
    outputs: Mutex<VecDeque<CommandOutput>>,
    calls: Mutex<Vec<(String, Vec<String>)>>,
}

impl CommandRunner for FakeRunner {
    fn run(&self, program: &str, args: &[&str]) -> Result<CommandOutput, BackendError> {
        self.calls
            .lock()
            .unwrap()
            .push((program.to_owned(), args.iter().map(|a| a.to_string()).collect()));
        Ok(self.outputs.lock().unwrap().pop_front().unwrap())
    }
}

fn runner_with(outputs: Vec<CommandOutput>) -> FakeRunner {
    FakeRunner { outputs: Mutex::new(VecDeque::from(outputs)), calls: Mutex::new(Vec::new()) }
}

fn ok_output(stdout: &str) -> CommandOutput {
    CommandOutput { success: true, stdout: stdout.to_owned(), stderr: String::new() }
}

fn backend_with(stdout: &str) -> GnomeBackend<FakeRunner> {
    GnomeBackend::new(runner_with(vec![ok_output(stdout)]))
}

#[test]
fn detects_dark_theme_from_gsettings_output() {
    assert_eq!(backend_with("'prefer-dark'\n").current_theme().unwrap(), Theme::Dark);
}

#[test]
fn detects_light_theme_from_gsettings_output() {
    assert_eq!(backend_with("'default'\n").current_theme().unwrap(), Theme::Light);
}

#[test]
fn rejects_unknown_gsettings_value() {
    assert!(matches!(
        backend_with("'unexpected'").current_theme(),
        Err(BackendError::UnsupportedTheme(_))
    ));
}

#[test]
fn unsupported_value_is_reported_without_quotes_or_whitespace() {
    match parse_theme("  'prefer-light'\n") {
        Err(BackendError::UnsupportedTheme(value)) => assert_eq!(value, "prefer-light"),
        other => panic!("unexpected result {:?}", other),
    }
}

#[test]
fn parse_theme_accepts_bare_values() {
    assert_eq!(parse_theme("prefer-dark").unwrap(), Theme::Dark);
    assert_eq!(parse_theme("default").unwrap(), Theme::Light);
    assert!(parse_theme("").is_err());
    assert!(parse_theme("Default").is_err());
}

#[test]
fn written_value_reads_back_as_the_same_theme() {
    for theme in [Theme::Light, Theme::Dark] {
        let printed = format!("'{}'\n", scheme_value(theme));
        assert_eq!(parse_theme(&printed).unwrap(), theme);
    }
}

#[test]
fn failed_get_reports_trimmed_stderr() {
    let backend = GnomeBackend::new(runner_with(vec![CommandOutput {
        success: false,
        stdout: String::new(),
        stderr: "  No such schema\n".to_owned(),
    }]));
    match backend.current_theme() {
        Err(BackendError::CommandFailed { program, message }) => {
            assert_eq!(program, "gsettings");
            assert_eq!(message, "No such schema");
        }
        other => panic!("unexpected result {:?}", other),
    }
}

#[test]
fn set_outcome_follows_the_exit_status() {
    assert!(set_outcome(ok_output("")).is_ok());
    let failed = CommandOutput { success: false, stdout: String::new(), stderr: "denied\n".to_owned() };
    assert!(matches!(
        set_outcome(failed),
        Err(BackendError::CommandFailed { ref message, .. }) if message == "denied"
    ));
}

#[test]
fn setting_a_theme_writes_the_gsettings_key() {
    let backend = GnomeBackend::new(runner_with(vec![ok_output(""), ok_output("")]));
    backend.set_theme(Theme::Dark).unwrap();
    backend.set_theme(Theme::Light).unwrap();
    let runner_calls = backend_calls(&backend);
    assert_eq!(
        runner_calls,
        vec![
            ("gsettings".to_owned(), vec!["set", "org.gnome.desktop.interface", "color-scheme", "prefer-dark"]
                .into_iter().map(String::from).collect::<Vec<_>>()),
            ("gsettings".to_owned(), vec!["set", "org.gnome.desktop.interface", "color-scheme", "default"]
                .into_iter().map(String::from).collect::<Vec<_>>()),
        ]
    );
}

fn backend_calls(backend: &GnomeBackend<FakeRunner>) -> Vec<(String, Vec<String>)> {
    backend.runner().calls.lock().unwrap().clone()
}

#[test]
fn toggle_reads_then_writes_the_opposite() {
    let backend = GnomeBackend::new(runner_with(vec![ok_output("'default'\n"), ok_output("")]));
    assert_eq!(backend.toggle().unwrap(), Theme::Dark);
    let calls = backend_calls(&backend);
    assert_eq!(calls.len(), 2);
    assert_eq!(calls[0].1, vec!["get", "org.gnome.desktop.interface", "color-scheme"]);
    assert_eq!(calls[1].1[3], "prefer-dark");
}

#[test]
fn gsettings_arguments_name_the_color_scheme_key() {
    assert_eq!(set_args("default"), ["set", "org.gnome.desktop.interface", "color-scheme", "default"]);
    assert_eq!(get_args(), ["get", "org.gnome.desktop.interface", "color-scheme"]);
    assert_eq!(scheme_value(Theme::Dark), "prefer-dark");
    assert_eq!(scheme_value(Theme::Light), "default");
}

#[test]
fn output_of_a_successful_get_is_parsed() {
    assert_eq!(theme_from_output(ok_output("'prefer-dark'\n")).unwrap(), Theme::Dark);
    let failed = CommandOutput { success: false, stdout: "'default'\n".to_owned(), stderr: String::new() };
    assert!(matches!(theme_from_output(failed), Err(BackendError::CommandFailed { .. })));
}

#[derive(Default)]
struct SilentRunner;

impl CommandRunner for SilentRunner {
    fn run(&self, _program: &str, _args: &[&str]) -> Result<CommandOutput, BackendError> {
        Ok(CommandOutput { success: true, stdout: "'default'\n".to_owned(), stderr: String::new() })
    }
}

#[test]
fn default_backend_uses_the_default_runner() {
    let backend: GnomeBackend<SilentRunner> = GnomeBackend::default();
    assert_eq!(backend.current_theme().unwrap(), Theme::Light);
}
