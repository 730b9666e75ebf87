//! GNOME backend: reads and writes the `color-scheme` key through `gsettings`.

use vstd::prelude::*;

use crate::backends::{self, BackendError, BackendErrorView};
use crate::text::{self, str_eq, strip, trim, StripPattern};
use crate::theme::{Theme, ThemeBackend};

verus! {

/// The GSettings schema that holds the desktop color scheme.
pub const SCHEMA: &'static str = "org.gnome.desktop.interface";

/// The key of the color scheme within [`SCHEMA`].
pub const KEY: &'static str = "color-scheme";

/// The program that reads and writes GSettings keys.
pub const PROGRAM: &'static str = "gsettings";

/// What a finished program reported: whether it succeeded, and its decoded output streams.
#[derive(Debug, Clone, PartialEq, Eq)]
pub struct CommandOutput {
    pub success: bool,
    pub stdout: String,
    pub stderr: String,
}

/// Runs external programs on behalf of a backend.
///
/// What a program prints is up to the system it runs on, so nothing is promised of the result.
pub trait CommandRunner: Send + Sync {
    fn run(&self, program: &str, args: &[&str]) -> Result<CommandOutput, BackendError>;
}

/// The `color-scheme` value that selects a theme.
pub open spec fn spec_scheme_value(theme: Theme) -> Seq<char> {
    match theme {
        Theme::Dark => "prefer-dark"@,
        Theme::Light => "default"@,
    }
}

/// The theme that a bare `color-scheme` value selects, if any.
pub open spec fn spec_theme_of_scheme(value: Seq<char>) -> Option<Theme> {
    if value == "prefer-dark"@ {
        Some(Theme::Dark)
    } else if value == "default"@ {
        Some(Theme::Light)
    } else {
        None
    }
}

/// A value as `gsettings get` prints it, with surrounding whitespace and quotes removed.
pub open spec fn spec_clean_scheme(value: Seq<char>) -> Seq<char> {
    text::strip_both(text::spec_trim(value), StripPattern::Char('\''))
}

/// The program name reported in errors.
pub open spec fn is_program_name(s: Seq<char>) -> bool {
    s == "gsettings"@
}

proof fn lemma_clean_scheme_of(t: Theme, printed: Seq<char>, v: Seq<char>)
    requires
        v == spec_scheme_value(t),
        printed == seq!['\''] + v + seq!['\'', '\n'] || printed == v,
    ensures
        spec_clean_scheme(printed) == v,
{
    reveal_strlit("prefer-dark");
    reveal_strlit("default");
    let q = StripPattern::Char('\'');
    let w = StripPattern::Whitespace;
    assert(v.len() > 0 && !w.spec_matches(v[0]) && !w.spec_matches(v.last()));
    assert(!q.spec_matches(v[0]) && !q.spec_matches(v.last()));
    if printed == v {
        assert(text::strip_start(v, w) == v);
        assert(text::strip_end(v, w) == v);
        assert(text::strip_start(v, q) == v);
        assert(text::strip_end(v, q) == v);
    } else {
        let quoted = seq!['\''] + v + seq!['\''];
        assert(printed[0] == '\'');
        assert(text::strip_start(printed, w) == printed);
        assert(printed.drop_last() =~= quoted);
        assert(text::strip_end(quoted, w) == quoted);
        assert(text::strip_end(printed, w) == quoted);
        assert(quoted.drop_first() =~= v + seq!['\'']);
        assert((v + seq!['\''])[0] == v[0]);
        assert(text::strip_start(v + seq!['\''], q) == v + seq!['\'']);
        assert(text::strip_start(quoted, q) == v + seq!['\'']);
        assert((v + seq!['\'']).drop_last() =~= v);
        assert(text::strip_end(v, q) == v);
        assert(text::strip_end(v + seq!['\''], q) == v);
    }
}

/// A theme written through the backend reads back as the same theme, whether `gsettings`
/// prints the value bare or, as it does, single-quoted with a trailing newline.
pub proof fn lemma_written_scheme_reads_back(t: Theme)
    ensures
        spec_theme_of_scheme(spec_clean_scheme(spec_scheme_value(t))) == Some(t),
        spec_theme_of_scheme(
            spec_clean_scheme(seq!['\''] + spec_scheme_value(t) + seq!['\'', '\n']),
        ) == Some(t),
{
    reveal_strlit("prefer-dark");
    reveal_strlit("default");
    let v = spec_scheme_value(t);
    lemma_clean_scheme_of(t, v, v);
    lemma_clean_scheme_of(t, seq!['\''] + v + seq!['\'', '\n'], v);
    assert("prefer-dark"@ != "default"@) by {
        assert("prefer-dark"@.len() != "default"@.len());
    }
}

/// A `gsettings get` that prints a value written for `t`, as `gsettings` prints it
/// (single-quoted, with a trailing newline), reads back as `t`.
pub proof fn lemma_get_reads_back_written_value(t: Theme, output: CommandOutput)
    requires
        output.success,
        output.stdout@ == seq!['\''] + spec_scheme_value(t) + seq!['\'', '\n'],
    ensures
        spec_get_outcome(output) == Ok::<Theme, BackendErrorView>(t),
{
    lemma_written_scheme_reads_back(t);
}

/// The arguments of `gsettings set` that write `value` to the color-scheme key.
pub fn set_args<'a>(value: &'a str) -> (r: [&'a str; 4])
    ensures
        r@.map_values(|a: &str| a@) == seq!["set"@, SCHEMA@, KEY@, value@],
{
    let r = ["set", SCHEMA, KEY, value];
    assert(r@.map_values(|a: &str| a@) =~= seq!["set"@, SCHEMA@, KEY@, value@]);
    r
}

/// The arguments of `gsettings get` that read the color-scheme key.
pub fn get_args() -> (r: [&'static str; 3])
    ensures
        r@.map_values(|a: &str| a@) == seq!["get"@, SCHEMA@, KEY@],
{
    let r = ["get", SCHEMA, KEY];
    assert(r@.map_values(|a: &str| a@) =~= seq!["get"@, SCHEMA@, KEY@]);
    r
}

/// Returns the `color-scheme` value that selects `theme`.
pub fn scheme_value(theme: Theme) -> (r: &'static str)
    ensures
        r@ == spec_scheme_value(theme),
{
    match theme {
        Theme::Dark => "prefer-dark",
        Theme::Light => "default",
    }
}

/// Maps a `color-scheme` value as printed by `gsettings get` to a theme.
pub fn parse_theme(value: &str) -> (r: Result<Theme, BackendError>)
    ensures
        match r {
            Ok(t) => spec_theme_of_scheme(spec_clean_scheme(value@)) == Some(t),
            Err(BackendError::UnsupportedTheme(other)) => {
                &&& spec_theme_of_scheme(spec_clean_scheme(value@)) is None
                &&& other@ == spec_clean_scheme(value@)
            },
            Err(_) => false,
        },
{
    let cleaned = strip(trim(value), StripPattern::Char('\''));
    if str_eq(cleaned, "prefer-dark") {
        Ok(Theme::Dark)
    } else if str_eq(cleaned, "default") {
        Ok(Theme::Light)
    } else {
        Err(BackendError::UnsupportedTheme(cleaned.to_owned()))
    }
}

/// The error reported when `gsettings` ran but failed.
fn command_failed(output: &CommandOutput) -> (r: BackendError)
    ensures
        r matches BackendError::CommandFailed { program, message } && is_program_name(program@)
            && message@ == text::spec_trim(output.stderr@),
{
    proof {
        reveal_strlit("gsettings");
    }
    BackendError::CommandFailed {
        program: PROGRAM.to_owned(),
        message: trim(output.stderr.as_str()).to_owned(),
    }
}

/// The error for a `gsettings` run that reported failure: its trimmed standard error.
pub open spec fn spec_command_failed(output: CommandOutput) -> BackendErrorView {
    BackendErrorView::CommandFailed { program: "gsettings"@, message: text::spec_trim(output.stderr@) }
}

/// What the output of `gsettings set` means.
pub open spec fn spec_set_outcome(output: CommandOutput) -> Result<(), BackendErrorView> {
    if output.success {
        Ok(())
    } else {
        Err(spec_command_failed(output))
    }
}

/// What the output of `gsettings get` means.
pub open spec fn spec_get_outcome(output: CommandOutput) -> Result<Theme, BackendErrorView> {
    if !output.success {
        Err(spec_command_failed(output))
    } else {
        match spec_theme_of_scheme(spec_clean_scheme(output.stdout@)) {
            Some(t) => Ok(t),
            None => Err(BackendErrorView::UnsupportedTheme(spec_clean_scheme(output.stdout@))),
        }
    }
}

/// Interprets the output of `gsettings set`.
pub fn set_outcome(output: CommandOutput) -> (r: Result<(), BackendError>)
    ensures
        backends::backend_result(r) == spec_set_outcome(output),
{
    proof {
        reveal_strlit("gsettings");
    }
    if output.success {
        Ok(())
    } else {
        Err(command_failed(&output))
    }
}

/// Interprets the output of `gsettings get`.
pub fn theme_from_output(output: CommandOutput) -> (r: Result<Theme, BackendError>)
    ensures
        backends::backend_result(r) == spec_get_outcome(output),
{
    proof {
        reveal_strlit("gsettings");
    }
    if !output.success {
        return Err(command_failed(&output));
    }
    parse_theme(output.stdout.as_str())
}

/// GNOME implementation backed by the `gsettings` command, run through `runner`.
pub struct GnomeBackend<R> {
    runner: R,
}

impl<R: CommandRunner> GnomeBackend<R> {
    /// The runner that executes `gsettings`.
    pub closed spec fn spec_runner(&self) -> R {
        self.runner
    }

    /// Creates a backend that runs `gsettings` through `runner`.
    pub fn new(runner: R) -> (b: Self)
        ensures
            b.spec_runner() == runner,
    {
        GnomeBackend { runner }
    }

    /// The runner that executes `gsettings`.
    pub fn runner(&self) -> (r: &R)
        ensures
            *r == self.spec_runner(),
    {
        &self.runner
    }

    /// `r` is what one run of `gsettings set` writing `value` to the color-scheme key means:
    /// the runner's answer read by `spec_set_outcome`, or the runner's own error.
    pub open spec fn spec_sets_scheme(&self, value: Seq<char>, r: Result<(), BackendError>) -> bool {
        exists|args: &[&str], ran: Result<CommandOutput, BackendError>|
            call_ensures(R::run, (&self.spec_runner(), PROGRAM, args), ran) && args@.map_values(
                |a: &str| a@,
            ) == seq!["set"@, SCHEMA@, KEY@, value] && match ran {
                Ok(output) => backends::backend_result(r) == spec_set_outcome(output),
                Err(e) => r == Err::<(), BackendError>(e),
            }
    }

    /// `r` is what one run of `gsettings get` on the color-scheme key means: the runner's
    /// answer read by `spec_get_outcome`, or the runner's own error.
    pub open spec fn spec_reads_scheme(&self, r: Result<Theme, BackendError>) -> bool {
        exists|args: &[&str], ran: Result<CommandOutput, BackendError>|
            call_ensures(R::run, (&self.spec_runner(), PROGRAM, args), ran) && args@.map_values(
                |a: &str| a@,
            ) == seq!["get"@, SCHEMA@, KEY@] && match ran {
                Ok(output) => backends::backend_result(r) == spec_get_outcome(output),
                Err(e) => r == Err::<Theme, BackendError>(e),
            }
    }

    /// Writes `value` to the GNOME color-scheme key.
    fn set_color_scheme(&self, value: &str) -> (r: Result<(), BackendError>)
        ensures
            self.spec_sets_scheme(value@, r),
    {
        let args = set_args(value);
        let slice: &[&str] = &args;
        let ran = self.runner.run(PROGRAM, slice);
        assert(slice@ == args@);
        match ran {
            Ok(output) => set_outcome(output),
            Err(e) => Err(e),
        }
    }
}

impl<R: CommandRunner + Default> Default for GnomeBackend<R> {
    /// A backend whose runner is the runner type's default one.
    fn default() -> (b: Self)
        ensures
            call_ensures(R::default, (), b.spec_runner()),
    {
        GnomeBackend::new(R::default())
    }
}

impl<R: CommandRunner> ThemeBackend for GnomeBackend<R> {
    fn set_dark(&self) -> (r: Result<(), BackendError>)
        ensures
            self.spec_sets_scheme(spec_scheme_value(Theme::Dark), r),
    {
        self.set_color_scheme(scheme_value(Theme::Dark))
    }

    fn set_light(&self) -> (r: Result<(), BackendError>)
        ensures
            self.spec_sets_scheme(spec_scheme_value(Theme::Light), r),
    {
        self.set_color_scheme(scheme_value(Theme::Light))
    }

    fn current_theme(&self) -> (r: Result<Theme, BackendError>)
        ensures
            self.spec_reads_scheme(r),
    {
        let args = get_args();
        let slice: &[&str] = &args;
        let ran = self.runner.run(PROGRAM, slice);
        assert(slice@ == args@);
        match ran {
            Ok(output) => theme_from_output(output),
            Err(e) => Err(e),
        }
    }
}

} // verus!
