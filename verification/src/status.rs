//! The report that the `status` command prints.

use vstd::prelude::*;
use vstd::string::*;

use crate::clock::{ClockTime, LocalDateTime};
use crate::config::AppConfig;
use crate::scheduler::{self, SchedulerError};
use crate::theme::Theme;

verus! {

/// The decimal digit characters, indexed by their value.
pub open spec fn digit_char(d: int) -> char {
    "0123456789"@[d]
}

/// A number below 100 as two decimal digits, zero-padded.
pub open spec fn two_digit_text(n: int) -> Seq<char> {
    seq![digit_char(n / 10), digit_char(n % 10)]
}

/// A time of day as `HH:MM` (what `chrono` prints for `%H:%M`).
pub open spec fn spec_clock_label(t: ClockTime) -> Seq<char> {
    two_digit_text((t.secs / 3600) as int) + seq![':'] + two_digit_text(((t.secs / 60) % 60) as int)
}

/// Each digit character stands for its value: its code is that many past `'0'`.
pub proof fn lemma_digit_char_value(d: int)
    requires
        0 <= d < 10,
    ensures
        digit_char(d) as int - '0' as int == d,
{
    reveal_strlit("0123456789");
}

/// The label of a valid time of day reads back, as `%H:%M`, to that time's hour and minute.
pub proof fn lemma_clock_label_reads_back(t: ClockTime)
    requires
        t.wf(),
    ensures
        crate::clock::spec_parse_hh_mm(spec_clock_label(t)) == Some(
            ClockTime {
                secs: ((t.secs / 3600) * 3600 + ((t.secs / 60) % 60) * 60) as u32,
                nanos: 0,
            },
        ),
{
    let h = (t.secs / 3600) as int;
    let m = ((t.secs / 60) % 60) as int;
    let label = spec_clock_label(t);
    lemma_digit_char_value(h / 10);
    lemma_digit_char_value(h % 10);
    lemma_digit_char_value(m / 10);
    lemma_digit_char_value(m % 10);
    assert(label.len() == 5);
    assert(label[0] == digit_char(h / 10) && label[1] == digit_char(h % 10));
    assert(label[2] == ':');
    assert(label[3] == digit_char(m / 10) && label[4] == digit_char(m % 10));
    assert(crate::clock::two_digits_at(label, 0) == h);
    assert(crate::clock::two_digits_at(label, 3) == m);
    crate::clock::lemma_canonical_hh_mm_parses(label);
}

/// "Enabled" or "Disabled".
pub open spec fn spec_switch_label(on: bool) -> Seq<char> {
    if on {
        "Enabled"@
    } else {
        "Disabled"@
    }
}

/// The four lines of the status report.
pub open spec fn spec_status_lines(
    current: Theme,
    automation: bool,
    mode_name: Seq<char>,
    next_change: Option<ClockTime>,
) -> Seq<Seq<char>> {
    seq![
        "Current Theme: "@ + current.spec_name(),
        "Automation: "@ + spec_switch_label(automation),
        "Mode: "@ + mode_name,
        "Next Change: "@ + match next_change {
            Some(t) => spec_clock_label(t),
            None => "Disabled"@,
        },
    ]
}

fn push_two_digits(s: &mut String, n: u32)
    requires
        n < 100,
    ensures
        final(s)@ == old(s)@ + two_digit_text(n as int),
{
    let digits = "0123456789";
    proof {
        reveal_strlit("0123456789");
    }
    s.append(digits.substring_char((n / 10) as usize, (n / 10 + 1) as usize));
    s.append(digits.substring_char((n % 10) as usize, (n % 10 + 1) as usize));
    assert(final(s)@ =~= old(s)@ + two_digit_text(n as int));
}

/// Formats a time of day as `HH:MM`.
pub fn clock_label(t: ClockTime) -> (r: String)
    requires
        t.wf(),
    ensures
        r@ == spec_clock_label(t),
{
    let mut s = String::new();
    push_two_digits(&mut s, t.secs / 3600);
    s.append(":");
    proof {
        reveal_strlit(":");
    }
    push_two_digits(&mut s, (t.secs / 60) % 60);
    assert(s@ =~= spec_clock_label(t));
    s
}

fn labelled(label: &str, value: &str) -> (r: String)
    ensures
        r@ == label@ + value@,
{
    let mut s = String::from_str(label);
    s.append(value);
    s
}

/// The status report for the theme the desktop shows, the configuration, and the time of the
/// next scheduled change (`None` when automation is off).
pub fn status_lines(current: Theme, config: &AppConfig, next_change: Option<ClockTime>) -> (r: Vec<String>)
    requires
        next_change matches Some(t) ==> t.wf(),
    ensures
        r@.map_values(|line: String| line@) == spec_status_lines(
            current,
            config.automation,
            config.mode.spec_name(),
            next_change,
        ),
{
    let mut lines: Vec<String> = Vec::new();
    lines.push(labelled("Current Theme: ", current.name()));
    let automation = if config.automation {
        "Enabled"
    } else {
        "Disabled"
    };
    lines.push(labelled("Automation: ", automation));
    lines.push(labelled("Mode: ", config.mode.name()));
    let next = match next_change {
        Some(t) => labelled("Next Change: ", clock_label(t).as_str()),
        None => labelled("Next Change: ", "Disabled"),
    };
    lines.push(next);
    assert(lines@.map_values(|line: String| line@) =~= spec_status_lines(
        current,
        config.automation,
        config.mode.spec_name(),
        next_change,
    ));
    lines
}

/// The status report for the theme the desktop shows and the configuration: when automation
/// is on, the schedule is evaluated at the local time to find the next change.
pub fn status_report(current: Theme, config: &AppConfig) -> (r: Result<Vec<String>, SchedulerError>)
    ensures
        !config.automation ==> (r matches Ok(lines) && lines@.map_values(|line: String| line@)
            == spec_status_lines(current, false, config.mode.spec_name(), None)),
        config.automation ==> match scheduler::spec_strategy(config@) {
            Err(e) => r matches Err(err) && err@ == e,
            Ok(times) => exists|now: LocalDateTime|
                now.wf() && crate::clock::is_clock_reading(now) && match #[trigger] scheduler::spec_evaluate(times.0, times.1, now) {
                    Ok(d) => r matches Ok(lines) && lines@.map_values(|line: String| line@)
                        == spec_status_lines(
                        current,
                        true,
                        config.mode.spec_name(),
                        Some(d.next_change.time),
                    ),
                    Err(e) => r matches Err(err) && err@ == e,
                },
        },
{
    if !config.automation {
        return Ok(status_lines(current, config, None));
    }
    let evaluated = scheduler::evaluate_now(config);
    let ghost times = scheduler::spec_strategy(config@)->Ok_0;
    let ghost now = choose|now: LocalDateTime|
        now.wf() && crate::clock::is_clock_reading(now) && #[trigger] scheduler::spec_evaluate(times.0, times.1, now)
            == scheduler::schedule_result(evaluated);
    let decision = match evaluated {
        Ok(d) => d,
        Err(e) => return Err(e),
    };
    let lines = status_lines(current, config, Some(decision.next_change.time));
    Ok(lines)
}

} // verus!
