//! User preferences: the configuration document, its validation, and where it is stored.

use vstd::prelude::*;

use crate::clock::{self, ClockTime};
use crate::text::str_eq;
use crate::theme::Theme;
use crate::utils::paths;

verus! {

/// Automation strategy selected in the configuration file.
#[derive(Debug, Clone, Copy, PartialEq, Eq, Structural)]
pub enum ScheduleMode {
    Time,
    Sunrise,
    Sunset,
    Battery,
    Weather,
    Rules,
}

impl ScheduleMode {
    /// The name shown to users.
    pub open spec fn spec_name(self) -> Seq<char> {
        match self {
            ScheduleMode::Time => "Time"@,
            ScheduleMode::Sunrise => "Sunrise"@,
            ScheduleMode::Sunset => "Sunset"@,
            ScheduleMode::Battery => "Battery"@,
            ScheduleMode::Weather => "Weather"@,
            ScheduleMode::Rules => "Rules"@,
        }
    }

    /// Returns the name shown to users, such as "Time".
    pub fn name(self) -> (r: &'static str)
        ensures
            r@ == self.spec_name(),
    {
        match self {
            ScheduleMode::Time => "Time",
            ScheduleMode::Sunrise => "Sunrise",
            ScheduleMode::Sunset => "Sunset",
            ScheduleMode::Battery => "Battery",
            ScheduleMode::Weather => "Weather",
            ScheduleMode::Rules => "Rules",
        }
    }
}

/// The lowercase word that names a theme in the configuration file.
pub open spec fn spec_theme_word(w: Seq<char>) -> Option<Theme> {
    if w == "light"@ {
        Some(Theme::Light)
    } else if w == "dark"@ {
        Some(Theme::Dark)
    } else {
        None
    }
}

/// The lowercase word that names a schedule mode in the configuration file.
pub open spec fn spec_mode_word(w: Seq<char>) -> Option<ScheduleMode> {
    if w == "time"@ {
        Some(ScheduleMode::Time)
    } else if w == "sunrise"@ {
        Some(ScheduleMode::Sunrise)
    } else if w == "sunset"@ {
        Some(ScheduleMode::Sunset)
    } else if w == "battery"@ {
        Some(ScheduleMode::Battery)
    } else if w == "weather"@ {
        Some(ScheduleMode::Weather)
    } else if w == "rules"@ {
        Some(ScheduleMode::Rules)
    } else {
        None
    }
}

fn theme_word(w: &str) -> (r: Option<Theme>)
    ensures
        r == spec_theme_word(w@),
{
    if str_eq(w, "light") {
        Some(Theme::Light)
    } else if str_eq(w, "dark") {
        Some(Theme::Dark)
    } else {
        None
    }
}

fn mode_word(w: &str) -> (r: Option<ScheduleMode>)
    ensures
        r == spec_mode_word(w@),
{
    if str_eq(w, "time") {
        Some(ScheduleMode::Time)
    } else if str_eq(w, "sunrise") {
        Some(ScheduleMode::Sunrise)
    } else if str_eq(w, "sunset") {
        Some(ScheduleMode::Sunset)
    } else if str_eq(w, "battery") {
        Some(ScheduleMode::Battery)
    } else if str_eq(w, "weather") {
        Some(ScheduleMode::Weather)
    } else if str_eq(w, "rules") {
        Some(ScheduleMode::Rules)
    } else {
        None
    }
}

/// Persistent Lumina user preferences.
#[derive(Debug, Clone, PartialEq, Eq)]
pub struct AppConfig {
    pub theme: Theme,
    /// Stored under the key `auto`.
    pub automation: bool,
    pub mode: ScheduleMode,
    pub light_time: String,
    pub dark_time: String,
}

/// The mathematical value of an [`AppConfig`].
pub struct AppConfigView {
    pub theme: Theme,
    pub automation: bool,
    pub mode: ScheduleMode,
    pub light_time: Seq<char>,
    pub dark_time: Seq<char>,
}

impl View for AppConfig {
    type V = AppConfigView;

    open spec fn view(&self) -> AppConfigView {
        AppConfigView {
            theme: self.theme,
            automation: self.automation,
            mode: self.mode,
            light_time: self.light_time@,
            dark_time: self.dark_time@,
        }
    }
}

/// The configuration that Lumina writes on first use.
pub open spec fn spec_default_config() -> AppConfigView {
    AppConfigView {
        theme: Theme::Dark,
        automation: true,
        mode: ScheduleMode::Time,
        light_time: "07:00"@,
        dark_time: "18:30"@,
    }
}

impl Default for AppConfig {
    fn default() -> (r: Self)
        ensures
            r@ == spec_default_config(),
    {
        AppConfig {
            theme: Theme::Dark,
            automation: true,
            mode: ScheduleMode::Time,
            light_time: String::from_str("07:00"),
            dark_time: String::from_str("18:30"),
        }
    }
}

/// Failures in reading, writing or interpreting the configuration.
#[derive(Debug, Clone)]
pub enum ConfigError {
    MissingConfigDirectory,
    InvalidPath(String),
    Read { path: String, message: String },
    Write { path: String, message: String },
    /// The document is not TOML, or a field holds a value of the wrong kind.
    Parse(String),
    Serialize(String),
    /// A clock time is not in 24-hour `HH:MM` form.
    InvalidTime { field: &'static str, value: String },
    /// `light_time` and `dark_time` name the same time of day.
    EqualScheduleTimes,
}

/// The mathematical value of a [`ConfigError`].
pub enum ConfigErrorView {
    MissingConfigDirectory,
    InvalidPath(Seq<char>),
    Read { path: Seq<char>, message: Seq<char> },
    Write { path: Seq<char>, message: Seq<char> },
    Parse(Seq<char>),
    Serialize(Seq<char>),
    InvalidTime { field: Seq<char>, value: Seq<char> },
    EqualScheduleTimes,
}

impl View for ConfigError {
    type V = ConfigErrorView;

    open spec fn view(&self) -> ConfigErrorView {
        match self {
            ConfigError::MissingConfigDirectory => ConfigErrorView::MissingConfigDirectory,
            ConfigError::InvalidPath(p) => ConfigErrorView::InvalidPath(p@),
            ConfigError::Read { path, message } => ConfigErrorView::Read {
                path: path@,
                message: message@,
            },
            ConfigError::Write { path, message } => ConfigErrorView::Write {
                path: path@,
                message: message@,
            },
            ConfigError::Parse(m) => ConfigErrorView::Parse(m@),
            ConfigError::Serialize(m) => ConfigErrorView::Serialize(m@),
            ConfigError::InvalidTime { field, value } => ConfigErrorView::InvalidTime {
                field: field@,
                value: value@,
            },
            ConfigError::EqualScheduleTimes => ConfigErrorView::EqualScheduleTimes,
        }
    }
}

/// A result with its error taken by its view.
pub open spec fn config_result<T>(r: Result<T, ConfigError>) -> Result<T, ConfigErrorView> {
    match r {
        Ok(v) => Ok(v),
        Err(e) => Err(e@),
    }
}

/// The time of day that a configured `HH:MM` value denotes, as `chrono` reads it.
pub open spec fn spec_clock_time(value: Seq<char>) -> Option<ClockTime> {
    clock::spec_parse_hh_mm(value)
}

/// Reading one configured clock time.
pub open spec fn spec_parse_time(field: Seq<char>, value: Seq<char>) -> Result<ClockTime, ConfigErrorView> {
    match spec_clock_time(value) {
        Some(t) => Ok(t),
        None => Err(ConfigErrorView::InvalidTime { field, value }),
    }
}

/// What validation decides of a configuration: both times must parse and differ.
pub open spec fn spec_validate(c: AppConfigView) -> Result<(), ConfigErrorView> {
    match spec_parse_time("light_time"@, c.light_time) {
        Err(e) => Err(e),
        Ok(light) => match spec_parse_time("dark_time"@, c.dark_time) {
            Err(e) => Err(e),
            Ok(dark) => if light == dark {
                Err(ConfigErrorView::EqualScheduleTimes)
            } else {
                Ok(())
            },
        },
    }
}

fn parse_time(field: &'static str, value: &str) -> (r: Result<ClockTime, ConfigError>)
    ensures
        config_result(r) == spec_parse_time(field@, value@),
        r matches Ok(t) ==> t.wf(),
        clock::is_canonical_hh_mm(value@) ==> r == Ok::<ClockTime, ConfigError>(
            ClockTime {
                secs: (clock::two_digits_at(value@, 0) * 3600 + clock::two_digits_at(value@, 3)
                    * 60) as u32,
                nanos: 0,
            },
        ),
{
    proof {
        clock::lemma_parsed_time_in_range(value@);
        if clock::is_canonical_hh_mm(value@) {
            clock::lemma_canonical_hh_mm_parses(value@);
        }
    }
    match clock::parse_hh_mm(value) {
        Some(t) => Ok(t),
        None => Err(ConfigError::InvalidTime { field, value: value.to_owned() }),
    }
}

impl AppConfig {
    /// Ensures configured clock times are valid and non-ambiguous.
    pub fn validate(&self) -> (r: Result<(), ConfigError>)
        ensures
            config_result(r) == spec_validate(self@),
            clock::is_canonical_hh_mm(self.light_time@) && clock::is_canonical_hh_mm(
                self.dark_time@,
            ) && self.light_time@ != self.dark_time@ ==> r is Ok,
    {
        let light = self.light_time()?;
        let dark = self.dark_time()?;
        proof {
            if clock::is_canonical_hh_mm(self.light_time@) && clock::is_canonical_hh_mm(
                self.dark_time@,
            ) && self.light_time@ != self.dark_time@ {
                lemma_canonical_times_differ(self.light_time@, self.dark_time@);
            }
        }
        if light.secs == dark.secs && light.nanos == dark.nanos {
            return Err(ConfigError::EqualScheduleTimes);
        }
        Ok(())
    }

    /// The configured light time.
    pub fn light_time(&self) -> (r: Result<ClockTime, ConfigError>)
        ensures
            config_result(r) == spec_parse_time("light_time"@, self.light_time@),
            r matches Ok(t) ==> t.wf(),
            clock::is_canonical_hh_mm(self.light_time@) ==> r == Ok::<ClockTime, ConfigError>(
                ClockTime {
                    secs: (clock::two_digits_at(self.light_time@, 0) * 3600 + clock::two_digits_at(
                        self.light_time@,
                        3,
                    ) * 60) as u32,
                    nanos: 0,
                },
            ),
    {
        proof {
            reveal_strlit("light_time");
        }
        parse_time("light_time", self.light_time.as_str())
    }

    /// The configured dark time.
    pub fn dark_time(&self) -> (r: Result<ClockTime, ConfigError>)
        ensures
            config_result(r) == spec_parse_time("dark_time"@, self.dark_time@),
            r matches Ok(t) ==> t.wf(),
            clock::is_canonical_hh_mm(self.dark_time@) ==> r == Ok::<ClockTime, ConfigError>(
                ClockTime {
                    secs: (clock::two_digits_at(self.dark_time@, 0) * 3600 + clock::two_digits_at(
                        self.dark_time@,
                        3,
                    ) * 60) as u32,
                    nanos: 0,
                },
            ),
    {
        proof {
            reveal_strlit("dark_time");
        }
        parse_time("dark_time", self.dark_time.as_str())
    }
}

/// A configuration that parsing returns has passed validation.
pub proof fn lemma_parsed_config_is_valid(document: Seq<char>)
    ensures
        spec_parse_config(document) matches Ok(c) ==> spec_validate(c) is Ok,
{
}

/// The default light and dark times are both in `HH:MM` form and differ, so the default
/// configuration passes validation (see [`AppConfig::validate`]).
pub proof fn lemma_default_times_are_canonical()
    ensures
        clock::is_canonical_hh_mm(spec_default_config().light_time),
        clock::is_canonical_hh_mm(spec_default_config().dark_time),
        spec_default_config().light_time != spec_default_config().dark_time,
{
    reveal_strlit("07:00");
    reveal_strlit("18:30");
    assert(spec_default_config().light_time[0] != spec_default_config().dark_time[0]);
}

/// Two different `HH:MM` strings name different times of day.
proof fn lemma_canonical_times_differ(a: Seq<char>, b: Seq<char>)
    requires
        clock::is_canonical_hh_mm(a),
        clock::is_canonical_hh_mm(b),
        a != b,
    ensures
        clock::two_digits_at(a, 0) * 3600 + clock::two_digits_at(a, 3) * 60 != clock::two_digits_at(
            b,
            0,
        ) * 3600 + clock::two_digits_at(b, 3) * 60,
{
    if clock::two_digits_at(a, 0) == clock::two_digits_at(b, 0) && clock::two_digits_at(a, 3)
        == clock::two_digits_at(b, 3) {
        assert(a[0] == b[0] && a[1] == b[1] && a[3] == b[3] && a[4] == b[4]);
        assert(a =~= b);
    }
}


/// Reads and writes the Lumina configuration file.
#[derive(Debug, Clone)]
pub struct ConfigStore {
    path: String,
}

impl ConfigStore {
    /// Where the store keeps the configuration.
    pub closed spec fn spec_path(&self) -> Seq<char> {
        self.path@
    }

    /// Uses `~/.config/lumina/config.toml` on Linux.
    pub fn standard() -> (r: Result<Self, ConfigError>)
        ensures
            r matches Ok(store) ==> exists|dir: Seq<char>| store.spec_path()
                == paths::spec_config_file_in(dir),
            r matches Err(e) ==> e is MissingConfigDirectory,
            exists|dir: Option<String>|
                paths::is_reported_config_dir(dir) && match dir {
                    Some(d) => r matches Ok(store) && store.spec_path() == paths::spec_config_file_in(
                        d@,
                    ),
                    None => r matches Err(e) && e is MissingConfigDirectory,
                },
    {
        let path = paths::config_file()?;
        Ok(Self::at(path))
    }

    /// Creates a store at an explicit path, primarily for tests and embedding.
    pub fn at(path: String) -> (r: Self)
        ensures
            r.spec_path() == path@,
    {
        ConfigStore { path }
    }

    /// The path of the configuration file.
    pub fn path(&self) -> (r: &str)
        ensures
            r@ == self.spec_path(),
    {
        self.path.as_str()
    }
}


/// A top-level TOML value, reduced to what the configuration reads: strings and booleans.
#[derive(Debug, Clone)]
pub enum TomlScalar {
    Text(String),
    Boolean(bool),
    /// An integer, float, date-time, array or table.
    Other,
}

/// The mathematical value of a [`TomlScalar`].
pub enum TomlScalarView {
    Text(Seq<char>),
    Boolean(bool),
    Other,
}

impl View for TomlScalar {
    type V = TomlScalarView;

    open spec fn view(&self) -> TomlScalarView {
        match self {
            TomlScalar::Text(s) => TomlScalarView::Text(s@),
            TomlScalar::Boolean(b) => TomlScalarView::Boolean(*b),
            TomlScalar::Other => TomlScalarView::Other,
        }
    }
}

/// Top-level key/value pairs taken by their views.
pub open spec fn entries_view(entries: Seq<(String, TomlScalar)>) -> Seq<(Seq<char>, TomlScalarView)> {
    entries.map_values(|e: (String, TomlScalar)| (e.0@, e.1@))
}

/// The top-level key/value pairs of a TOML document in the order `toml::Table` yields them,
/// or the text of the error that `toml` reports for a malformed document.
pub uninterp spec fn toml_top_level(document: Seq<char>) -> Result<Seq<(Seq<char>, TomlScalarView)>, Seq<char>>;

/// Parses `document` with `toml::from_str::<toml::Table>` and lists its top-level entries,
/// converting each value to a [`TomlScalar`] and an error to its message. What `toml` accepts,
/// and the order of the entries, are named, not stated.
#[verifier::external_body]
fn toml_entries(document: &str) -> (r: Result<Vec<(String, TomlScalar)>, String>)
    ensures
        match r {
            Ok(entries) => toml_top_level(document@) == Ok::<_, Seq<char>>(entries_view(entries@)),
            Err(message) => toml_top_level(document@) == Err::<Seq<(Seq<char>, TomlScalarView)>,
                Seq<char>>(message@),
        },
{
    let table: toml::Table = toml::from_str(document).map_err(|error| error.to_string())?;
    let mut entries = Vec::new();
    for (key, value) in table {
        entries.push((key, match value {
            toml::Value::String(text) => TomlScalar::Text(text),
            toml::Value::Boolean(flag) => TomlScalar::Boolean(flag),
            toml::Value::Integer(_) => TomlScalar::Other,
            toml::Value::Float(_) => TomlScalar::Other,
            toml::Value::Datetime(_) => TomlScalar::Other,
            toml::Value::Array(_) => TomlScalar::Other,
            toml::Value::Table(_) => TomlScalar::Other,
        }));
    }
    Ok(entries)
}

/// The error for a field whose value has the wrong kind or is not an accepted word.
pub open spec fn spec_field_error(key: Seq<char>) -> ConfigErrorView {
    ConfigErrorView::Parse("invalid value for "@ + key)
}

/// The configuration after reading one top-level entry: known keys set their field,
/// other keys are ignored.
pub open spec fn spec_apply_entry(c: AppConfigView, key: Seq<char>, value: TomlScalarView) -> Result<
    AppConfigView,
    ConfigErrorView,
> {
    if key == "theme"@ {
        match value {
            TomlScalarView::Text(w) => match spec_theme_word(w) {
                Some(t) => Ok(AppConfigView { theme: t, ..c }),
                None => Err(spec_field_error(key)),
            },
            _ => Err(spec_field_error(key)),
        }
    } else if key == "auto"@ {
        match value {
            TomlScalarView::Boolean(b) => Ok(AppConfigView { automation: b, ..c }),
            _ => Err(spec_field_error(key)),
        }
    } else if key == "mode"@ {
        match value {
            TomlScalarView::Text(w) => match spec_mode_word(w) {
                Some(m) => Ok(AppConfigView { mode: m, ..c }),
                None => Err(spec_field_error(key)),
            },
            _ => Err(spec_field_error(key)),
        }
    } else if key == "light_time"@ {
        match value {
            TomlScalarView::Text(s) => Ok(AppConfigView { light_time: s, ..c }),
            _ => Err(spec_field_error(key)),
        }
    } else if key == "dark_time"@ {
        match value {
            TomlScalarView::Text(s) => Ok(AppConfigView { dark_time: s, ..c }),
            _ => Err(spec_field_error(key)),
        }
    } else {
        Ok(c)
    }
}

/// The configuration after reading `entries` in order, starting from `c`; the first
/// entry that cannot be read decides the error.
pub open spec fn spec_apply_entries(c: AppConfigView, entries: Seq<(Seq<char>, TomlScalarView)>) -> Result<
    AppConfigView,
    ConfigErrorView,
>
    decreases entries.len(),
{
    if entries.len() == 0 {
        Ok(c)
    } else {
        match spec_apply_entry(c, entries[0].0, entries[0].1) {
            Ok(next) => spec_apply_entries(next, entries.drop_first()),
            Err(e) => Err(e),
        }
    }
}

/// What reading a configuration document gives: its entries over the defaults, validated.
pub open spec fn spec_parse_config(document: Seq<char>) -> Result<AppConfigView, ConfigErrorView> {
    match toml_top_level(document) {
        Err(message) => Err(ConfigErrorView::Parse(message)),
        Ok(entries) => match spec_apply_entries(spec_default_config(), entries) {
            Err(e) => Err(e),
            Ok(c) => match spec_validate(c) {
                Err(e) => Err(e),
                Ok(()) => Ok(c),
            },
        },
    }
}

fn field_error(key: &str) -> (r: ConfigError)
    ensures
        r@ == spec_field_error(key@),
{
    let mut message = String::from_str("invalid value for ");
    message.append(key);
    ConfigError::Parse(message)
}

/// Reads one top-level entry into `config`.
fn apply_entry(config: &mut AppConfig, key: &str, value: &TomlScalar) -> (r: Result<(), ConfigError>)
    ensures
        match spec_apply_entry(old(config)@, key@, value@) {
            Ok(c) => r is Ok && final(config)@ == c,
            Err(e) => r matches Err(err) && err@ == e,
        },
{
    if str_eq(key, "theme") {
        match value {
            TomlScalar::Text(w) => match theme_word(w.as_str()) {
                Some(t) => {
                    config.theme = t;
                    Ok(())
                },
                None => Err(field_error(key)),
            },
            _ => Err(field_error(key)),
        }
    } else if str_eq(key, "auto") {
        match value {
            TomlScalar::Boolean(b) => {
                config.automation = *b;
                Ok(())
            },
            _ => Err(field_error(key)),
        }
    } else if str_eq(key, "mode") {
        match value {
            TomlScalar::Text(w) => match mode_word(w.as_str()) {
                Some(m) => {
                    config.mode = m;
                    Ok(())
                },
                None => Err(field_error(key)),
            },
            _ => Err(field_error(key)),
        }
    } else if str_eq(key, "light_time") {
        match value {
            TomlScalar::Text(s) => {
                config.light_time = s.clone();
                Ok(())
            },
            _ => Err(field_error(key)),
        }
    } else if str_eq(key, "dark_time") {
        match value {
            TomlScalar::Text(s) => {
                config.dark_time = s.clone();
                Ok(())
            },
            _ => Err(field_error(key)),
        }
    } else {
        Ok(())
    }
}

impl AppConfig {
    /// Reads top-level TOML entries over the default configuration. Each known key sets its
    /// field; other keys are ignored; the configuration is not validated here.
    pub fn from_entries(entries: &Vec<(String, TomlScalar)>) -> (r: Result<AppConfig, ConfigError>)
        ensures
            match r {
                Ok(c) => spec_apply_entries(spec_default_config(), entries_view(entries@)) == Ok::<
                    AppConfigView,
                    ConfigErrorView,
                >(c@),
                Err(e) => spec_apply_entries(spec_default_config(), entries_view(entries@))
                    == Err::<AppConfigView, ConfigErrorView>(e@),
            },
    {
        let mut config = AppConfig::default();
        let ghost all = entries_view(entries@);
        let mut i: usize = 0;
        proof {
            assert(all.subrange(0, all.len() as int) =~= all);
        }
        while i < entries.len()
            invariant
                i <= entries.len(),
                all == entries_view(entries@),
                all.len() == entries.len(),
                spec_apply_entries(spec_default_config(), all) == spec_apply_entries(
                    config@,
                    all.subrange(i as int, all.len() as int),
                ),
            decreases entries.len() - i,
        {
            let entry = &entries[i];
            let ghost rest = all.subrange(i as int, all.len() as int);
            proof {
                assert(rest[0] == (entry.0@, entry.1@));
                assert(rest.drop_first() =~= all.subrange(i + 1, all.len() as int));
            }
            apply_entry(&mut config, entry.0.as_str(), &entry.1)?;
            i = i + 1;
        }
        proof {
            assert(all.subrange(i as int, all.len() as int) =~= Seq::<(Seq<char>, TomlScalarView)>::empty());
        }
        Ok(config)
    }

    /// Parses and validates a TOML configuration document. Missing fields take their default
    /// values and unknown keys are ignored.
    pub fn parse(contents: &str) -> (r: Result<AppConfig, ConfigError>)
        ensures
            match r {
                Ok(c) => spec_parse_config(contents@) == Ok::<AppConfigView, ConfigErrorView>(c@),
                Err(e) => spec_parse_config(contents@) == Err::<AppConfigView, ConfigErrorView>(e@),
            },
    {
        let entries = match toml_entries(contents) {
            Ok(entries) => entries,
            Err(message) => return Err(ConfigError::Parse(message)),
        };
        let config = AppConfig::from_entries(&entries)?;
        config.validate()?;
        Ok(config)
    }
}

} // verus!
