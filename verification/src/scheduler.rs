//! Scheduling policy: which theme a daily light/dark clock schedule selects at a given
//! moment, and when it next changes.

use vstd::prelude::*;

use crate::clock::{self, ClockTime, LocalDateTime};
use crate::config::{self, AppConfig, ConfigError, ConfigErrorView, ScheduleMode};
use crate::theme::Theme;

verus! {

/// Result of evaluating an automation schedule.
#[derive(Debug, Clone, Copy, PartialEq, Eq, Structural)]
pub struct ScheduleDecision {
    pub target_theme: Theme,
    pub next_change: LocalDateTime,
}

/// Failures in building or evaluating a schedule.
#[derive(Debug, Clone)]
pub enum SchedulerError {
    Config(ConfigError),
    /// The light and dark times are the same time of day.
    EqualTimes,
    /// The mode is reserved but has no strategy yet.
    UnsupportedMode(ScheduleMode),
    /// The next change would fall outside the calendar's range.
    DateOverflow,
}

/// The mathematical value of a [`SchedulerError`].
pub enum SchedulerErrorView {
    Config(ConfigErrorView),
    EqualTimes,
    UnsupportedMode(ScheduleMode),
    DateOverflow,
}

impl View for SchedulerError {
    type V = SchedulerErrorView;

    open spec fn view(&self) -> SchedulerErrorView {
        match self {
            SchedulerError::Config(e) => SchedulerErrorView::Config(e@),
            SchedulerError::EqualTimes => SchedulerErrorView::EqualTimes,
            SchedulerError::UnsupportedMode(m) => SchedulerErrorView::UnsupportedMode(*m),
            SchedulerError::DateOverflow => SchedulerErrorView::DateOverflow,
        }
    }
}

/// A result with its error taken by its view.
pub open spec fn schedule_result<T>(r: Result<T, SchedulerError>) -> Result<T, SchedulerErrorView> {
    match r {
        Ok(v) => Ok(v),
        Err(e) => Err(e@),
    }
}

/// Pluggable source of schedule decisions.
pub trait ScheduleStrategy: Send + Sync {
    fn evaluate(&self, now: LocalDateTime) -> Result<ScheduleDecision, SchedulerError>;
}

/// Whether the light theme is due at `time`: from the light time (inclusive) to the dark time
/// (exclusive), across midnight when the light time is the later one.
pub open spec fn spec_is_light_at(light: ClockTime, dark: ClockTime, time: ClockTime) -> bool {
    if light.spec_lt(dark) {
        !time.spec_lt(light) && time.spec_lt(dark)
    } else {
        !time.spec_lt(light) || time.spec_lt(dark)
    }
}

/// The theme that the schedule selects at `time`.
pub open spec fn spec_target(light: ClockTime, dark: ClockTime, time: ClockTime) -> Theme {
    if spec_is_light_at(light, dark, time) {
        Theme::Light
    } else {
        Theme::Dark
    }
}

/// The first moment strictly after `now` whose time of day is `time`: today if still ahead,
/// else tomorrow, when tomorrow is within the calendar.
pub open spec fn spec_next_occurrence(now: LocalDateTime, time: ClockTime) -> Option<LocalDateTime> {
    let today = LocalDateTime { days: now.days, time };
    if now.spec_lt(today) {
        Some(today)
    } else {
        match clock::spec_day_after(now.days) {
            Some(d) => Some(LocalDateTime { days: d, time }),
            None => None,
        }
    }
}

/// The earlier of two moments; the first when they are equal.
pub open spec fn spec_earlier(a: LocalDateTime, b: LocalDateTime) -> LocalDateTime {
    if b.spec_lt(a) {
        b
    } else {
        a
    }
}

/// What a daily schedule decides at `now`.
pub open spec fn spec_evaluate(light: ClockTime, dark: ClockTime, now: LocalDateTime) -> Result<
    ScheduleDecision,
    SchedulerErrorView,
> {
    match (spec_next_occurrence(now, light), spec_next_occurrence(now, dark)) {
        (Some(next_light), Some(next_dark)) => Ok(
            ScheduleDecision {
                target_theme: spec_target(light, dark, now.time),
                next_change: spec_earlier(next_light, next_dark),
            },
        ),
        _ => Err(SchedulerErrorView::DateOverflow),
    }
}

/// The light and dark times that a configuration selects, or why it selects none.
pub open spec fn spec_schedule_times(c: config::AppConfigView) -> Result<(ClockTime, ClockTime), SchedulerErrorView> {
    match config::spec_parse_time("light_time"@, c.light_time) {
        Err(e) => Err(SchedulerErrorView::Config(e)),
        Ok(light) => match config::spec_parse_time("dark_time"@, c.dark_time) {
            Err(e) => Err(SchedulerErrorView::Config(e)),
            Ok(dark) => if light == dark {
                Err(SchedulerErrorView::EqualTimes)
            } else {
                Ok((light, dark))
            },
        },
    }
}

/// The schedule that a configuration's mode selects, or why there is none.
pub open spec fn spec_strategy(c: config::AppConfigView) -> Result<(ClockTime, ClockTime), SchedulerErrorView> {
    match c.mode {
        ScheduleMode::Time => spec_schedule_times(c),
        mode => Err(SchedulerErrorView::UnsupportedMode(mode)),
    }
}

/// A decision that the configured schedule takes at some valid moment.
pub open spec fn spec_possible_decision(c: config::AppConfigView, d: ScheduleDecision) -> bool {
    spec_strategy(c) matches Ok(times) && exists|now: LocalDateTime|
        now.wf() && #[trigger] spec_evaluate(times.0, times.1, now) == Ok::<
            ScheduleDecision,
            SchedulerErrorView,
        >(d)
}

/// Daily light/dark clock schedule.
#[derive(Debug, Clone, Copy)]
pub struct TimeSchedule {
    light_time: ClockTime,
    dark_time: ClockTime,
}

impl TimeSchedule {
    /// The time of day at which the light theme begins.
    pub closed spec fn spec_light(self) -> ClockTime {
        self.light_time
    }

    /// The time of day at which the dark theme begins.
    pub closed spec fn spec_dark(self) -> ClockTime {
        self.dark_time
    }

    /// A schedule switching to light at `light_time` and to dark at `dark_time`;
    /// the two must differ.
    pub fn new(light_time: ClockTime, dark_time: ClockTime) -> (r: Result<Self, SchedulerError>)
        ensures
            light_time == dark_time ==> r matches Err(SchedulerError::EqualTimes),
            light_time != dark_time ==> (r matches Ok(s) && s.spec_light() == light_time
                && s.spec_dark() == dark_time),
    {
        if light_time.secs == dark_time.secs && light_time.nanos == dark_time.nanos {
            return Err(SchedulerError::EqualTimes);
        }
        Ok(TimeSchedule { light_time, dark_time })
    }

    /// The schedule that a configuration's light and dark times describe.
    pub fn from_config(config: &AppConfig) -> (r: Result<Self, SchedulerError>)
        ensures
            match r {
                Ok(s) => spec_schedule_times(config@) == Ok::<_, SchedulerErrorView>(
                    (s.spec_light(), s.spec_dark()),
                ),
                Err(e) => spec_schedule_times(config@) == Err::<(ClockTime, ClockTime), _>(e@),
            },
            r matches Ok(s) ==> s.spec_light().wf() && s.spec_dark().wf(),
    {
        let light = match config.light_time() {
            Ok(t) => t,
            Err(e) => return Err(SchedulerError::Config(e)),
        };
        let dark = match config.dark_time() {
            Ok(t) => t,
            Err(e) => return Err(SchedulerError::Config(e)),
        };
        Self::new(light, dark)
    }

    fn is_light_at(&self, time: ClockTime) -> (r: bool)
        ensures
            r == spec_is_light_at(self.light_time, self.dark_time, time),
    {
        if self.light_time.lt(&self.dark_time) {
            !time.lt(&self.light_time) && time.lt(&self.dark_time)
        } else {
            !time.lt(&self.light_time) || time.lt(&self.dark_time)
        }
    }

    fn next_occurrence(now: LocalDateTime, time: ClockTime) -> (r: Result<LocalDateTime, SchedulerError>)
        ensures
            match spec_next_occurrence(now, time) {
                Some(t) => r == Ok::<LocalDateTime, SchedulerError>(t),
                None => r matches Err(SchedulerError::DateOverflow),
            },
    {
        let today = LocalDateTime { days: now.days, time };
        if now.lt(&today) {
            Ok(today)
        } else {
            match today.next_day() {
                Some(tomorrow) => Ok(tomorrow),
                None => Err(SchedulerError::DateOverflow),
            }
        }
    }
}

impl ScheduleStrategy for TimeSchedule {
    fn evaluate(&self, now: LocalDateTime) -> (r: Result<ScheduleDecision, SchedulerError>)
        ensures
            schedule_result(r) == spec_evaluate(self.spec_light(), self.spec_dark(), now),
            self.spec_light().wf() && self.spec_dark().wf() ==> (r matches Ok(d)
                ==> d.next_change.time.wf()),
    {
        let target_theme = if self.is_light_at(now.time) {
            Theme::Light
        } else {
            Theme::Dark
        };
        let next_light = Self::next_occurrence(now, self.light_time)?;
        let next_dark = Self::next_occurrence(now, self.dark_time)?;
        let next_change = if next_dark.lt(&next_light) {
            next_dark
        } else {
            next_light
        };
        Ok(ScheduleDecision { target_theme, next_change })
    }
}

/// Builds the automation strategy that a configuration selects. Only the clock schedule
/// exists; the other modes are reserved.
pub fn strategy(config: &AppConfig) -> (r: Result<TimeSchedule, SchedulerError>)
    ensures
        match r {
            Ok(s) => spec_strategy(config@) == Ok::<_, SchedulerErrorView>(
                (s.spec_light(), s.spec_dark()),
            ),
            Err(e) => spec_strategy(config@) == Err::<(ClockTime, ClockTime), _>(e@),
        },
        r matches Ok(s) ==> s.spec_light().wf() && s.spec_dark().wf(),
{
    match config.mode {
        ScheduleMode::Time => TimeSchedule::from_config(config),
        mode => Err(SchedulerError::UnsupportedMode(mode)),
    }
}

/// Evaluates the configured strategy at the local wall-clock time.
pub fn evaluate_now(config: &AppConfig) -> (r: Result<ScheduleDecision, SchedulerError>)
    ensures
        spec_strategy(config@) matches Err(e) ==> (r matches Err(err) && err@ == e),
        spec_strategy(config@) matches Ok(times) ==> exists|now: LocalDateTime|
            now.wf() && clock::is_clock_reading(now) && #[trigger] spec_evaluate(
                times.0,
                times.1,
                now,
            ) == schedule_result(r),
        r matches Ok(d) ==> d.next_change.wf(),
{
    let schedule = strategy(config)?;
    let now = clock::local_now();
    proof {
        clock::lemma_read_clock(now);
    }
    let r = schedule.evaluate(now);
    assert(spec_strategy(config@) matches Ok(times) && times.0 == schedule.spec_light() && times.1 == schedule.spec_dark());
    r
}


/// The next change lies ahead of `now`, falls on the light or dark time of day, today or
/// tomorrow, and brings the other theme.
pub proof fn lemma_next_change_switches_theme(light: ClockTime, dark: ClockTime, now: LocalDateTime)
    requires
        light.wf(),
        dark.wf(),
        light != dark,
        now.wf(),
        spec_evaluate(light, dark, now) is Ok,
    ensures
        spec_evaluate(light, dark, now) matches Ok(decision) && {
            let next = decision.next_change;
            &&& now.spec_lt(next)
            &&& next.time == light || next.time == dark
            &&& (next.days == now.days && now.time.spec_lt(next.time)) || (next.days == now.days + 1
                && !now.time.spec_lt(next.time))
            &&& decision.target_theme == spec_target(light, dark, now.time)
            &&& spec_target(light, dark, next.time) != decision.target_theme
        },
{
}

/// With the light time earlier in the day than the dark time, the light theme is due exactly
/// from the light time up to, not including, the dark time; with the light time later, exactly
/// from the light time on or before the dark time. Times of day are compared by their count of
/// nanoseconds since midnight (a leap second counting past the whole second it extends).
pub proof fn lemma_target_follows_light_window(light: ClockTime, dark: ClockTime, now: LocalDateTime)
    requires
        light.wf(),
        dark.wf(),
        now.wf(),
        light != dark,
        spec_evaluate(light, dark, now) is Ok,
    ensures
        ({
            let l = light.secs * 2_000_000_000 + light.nanos;
            let d = dark.secs * 2_000_000_000 + dark.nanos;
            let t = now.time.secs * 2_000_000_000 + now.time.nanos;
            spec_evaluate(light, dark, now) matches Ok(decision) && (l < d ==> (decision.target_theme
                == Theme::Light <==> l <= t < d)) && (d < l ==> (decision.target_theme
                == Theme::Light <==> (t >= l || t < d)))
        }),
{
}

/// At the light time the schedule selects the light theme, and at the dark time the dark one.
pub proof fn lemma_boundaries_select_their_theme(light: ClockTime, dark: ClockTime, now: LocalDateTime)
    requires
        light != dark,
        spec_evaluate(light, dark, now) is Ok,
    ensures
        now.time == light ==> spec_evaluate(light, dark, now)->Ok_0.target_theme == Theme::Light,
        now.time == dark ==> spec_evaluate(light, dark, now)->Ok_0.target_theme == Theme::Dark,
{
}

/// A configuration's schedule switches to light at its parsed `light_time` and to dark at its
/// parsed `dark_time`, and exists only in time mode.
pub proof fn lemma_strategy_uses_configured_times(c: config::AppConfigView)
    ensures
        spec_schedule_times(c) matches Ok(times) ==> clock::spec_parse_hh_mm(c.light_time) == Some(
            times.0,
        ) && clock::spec_parse_hh_mm(c.dark_time) == Some(times.1),
        spec_strategy(c) matches Ok(times) ==> c.mode == ScheduleMode::Time
            && clock::spec_parse_hh_mm(c.light_time) == Some(times.0) && clock::spec_parse_hh_mm(
            c.dark_time,
        ) == Some(times.1),
{
}

/// At the configured light time a configuration's schedule selects the light theme, and at the
/// configured dark time the dark theme.
pub proof fn lemma_configured_times_select_their_theme(c: config::AppConfigView, now: LocalDateTime)
    requires
        spec_strategy(c) is Ok,
        spec_evaluate(spec_strategy(c)->Ok_0.0, spec_strategy(c)->Ok_0.1, now) is Ok,
    ensures
        clock::spec_parse_hh_mm(c.light_time) == Some(now.time) ==> spec_evaluate(
            spec_strategy(c)->Ok_0.0,
            spec_strategy(c)->Ok_0.1,
            now,
        )->Ok_0.target_theme == Theme::Light,
        clock::spec_parse_hh_mm(c.dark_time) == Some(now.time) ==> spec_evaluate(
            spec_strategy(c)->Ok_0.0,
            spec_strategy(c)->Ok_0.1,
            now,
        )->Ok_0.target_theme == Theme::Dark,
{
    let times = spec_strategy(c)->Ok_0;
    lemma_strategy_uses_configured_times(c);
    lemma_boundaries_select_their_theme(times.0, times.1, now);
}

/// Swapping the light and dark times selects the other theme at every moment and keeps the
/// moment of the next change.
pub proof fn lemma_swapped_times_complement(light: ClockTime, dark: ClockTime, now: LocalDateTime)
    requires
        light != dark,
    ensures
        spec_evaluate(light, dark, now) is Ok <==> spec_evaluate(dark, light, now) is Ok,
        spec_evaluate(light, dark, now) matches Ok(a) ==> (spec_evaluate(dark, light, now) matches Ok(b)
            && a.target_theme != b.target_theme && a.next_change == b.next_change),
{
}

/// On every day of the calendar but its last, a schedule can be evaluated.
pub proof fn lemma_evaluation_succeeds_within_calendar(
    light: ClockTime,
    dark: ClockTime,
    now: LocalDateTime,
)
    requires
        clock::FIRST_DAY_NUMBER <= now.days < clock::LAST_DAY_NUMBER,
    ensures
        spec_evaluate(light, dark, now) is Ok,
{
}

/// Between `now` and the next change the schedule keeps selecting the same theme.
pub proof fn lemma_theme_constant_until_next_change(
    light: ClockTime,
    dark: ClockTime,
    now: LocalDateTime,
    t: LocalDateTime,
)
    requires
        light.wf(),
        dark.wf(),
        light != dark,
        now.wf(),
        t.wf(),
        spec_evaluate(light, dark, now) matches Ok(decision) && !t.spec_lt(now) && t.spec_lt(
            decision.next_change,
        ),
    ensures
        spec_target(light, dark, t.time) == spec_target(light, dark, now.time),
{
}


/// A configuration yields a clock schedule exactly when it passes validation, and when it
/// does not, for the same reason.
pub proof fn lemma_schedule_times_agree_with_validation(c: config::AppConfigView)
    ensures
        match config::spec_validate(c) {
            Ok(()) => spec_schedule_times(c) == Ok::<_, SchedulerErrorView>(
                (
                    config::spec_clock_time(c.light_time).unwrap(),
                    config::spec_clock_time(c.dark_time).unwrap(),
                ),
            ),
            Err(ConfigErrorView::EqualScheduleTimes) => spec_schedule_times(c) == Err::<
                (ClockTime, ClockTime),
                _,
            >(SchedulerErrorView::EqualTimes),
            Err(e) => spec_schedule_times(c) == Err::<(ClockTime, ClockTime), _>(
                SchedulerErrorView::Config(e),
            ),
        },
{
}

} // verus!
