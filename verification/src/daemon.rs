//! The background scheduler's decisions: where it keeps its PID file, how that file is read,
//! when startup and shutdown have succeeded or timed out, and what one scheduling cycle does.

use vstd::prelude::*;

use crate::backends::BackendError;
use crate::clock::LocalDateTime;
use crate::config::{AppConfig, ConfigError};
use crate::scheduler::{self, ScheduleDecision, SchedulerError};
use crate::text::{self, join_path, parse_i32, trim};
use crate::theme::{Theme, ThemeBackend};
use crate::utils::paths;

verus! {

/// How many times startup and shutdown are checked, 50 ms apart, before giving up.
pub const POLL_ATTEMPTS: u32 = 40;

/// Failures of the daemon and of its lifecycle commands.
#[derive(Debug, Clone)]
pub enum DaemonError {
    MissingStateDirectory,
    AlreadyRunning(i32),
    NotRunning,
    PidFileExists,
    InvalidPidFile,
    PidFile(String),
    CurrentExecutable(String),
    Spawn(String),
    /// The daemon exited during startup; the exit status as the system describes it.
    ExitedEarly(String),
    StartTimeout,
    StopTimeout(i32),
    Signal(String),
    SignalSetup(String),
    Logging(String),
    UnsupportedPlatform,
    Config(ConfigError),
    Scheduler(SchedulerError),
    Backend(BackendError),
    Notification(String),
}

/// The name of the PID file inside the state directory.
pub open spec fn spec_pid_file_in(state_dir: Seq<char>) -> Seq<char> {
    text::spec_join_path(state_dir, "lumina.pid"@)
}

/// The directory that holds the daemon's PID file and log.
pub fn state_dir() -> (r: Result<String, DaemonError>)
    ensures
        r matches Ok(p) ==> exists|dir: Seq<char>| p@ == paths::spec_state_dir_in(dir),
        r matches Err(e) ==> e is MissingStateDirectory,
        exists|state: Option<String>, data_local: Option<String>|
            paths::is_reported_state_dir(state) && paths::is_reported_data_local_dir(data_local)
                && match paths::spec_state_dir_choice(state, data_local) {
                Some(p) => r matches Ok(q) && q@ == p,
                None => r matches Err(e) && e is MissingStateDirectory,
            },
{
    match paths::state_dir() {
        Some(dir) => Ok(dir),
        None => Err(DaemonError::MissingStateDirectory),
    }
}

/// The daemon's PID file.
pub fn pid_file() -> (r: Result<String, DaemonError>)
    ensures
        r matches Ok(p) ==> exists|dir: Seq<char>| p@ == spec_pid_file_in(
            paths::spec_state_dir_in(dir),
        ),
        r matches Err(e) ==> e is MissingStateDirectory,
        exists|state: Option<String>, data_local: Option<String>|
            paths::is_reported_state_dir(state) && paths::is_reported_data_local_dir(data_local)
                && match paths::spec_state_dir_choice(state, data_local) {
                Some(p) => r matches Ok(q) && q@ == spec_pid_file_in(p),
                None => r matches Err(e) && e is MissingStateDirectory,
            },
{
    let dir = state_dir()?;
    Ok(join_path(dir.as_str(), "lumina.pid"))
}

/// The PID that a PID file records: a positive decimal `i32`, surrounded by any whitespace.
pub open spec fn spec_pid_in(contents: Seq<char>) -> Option<i32> {
    match text::spec_parse_i32(text::spec_trim(contents)) {
        Some(pid) => if pid > 0 {
            Some(pid)
        } else {
            None
        },
        None => None,
    }
}

/// Reads the PID recorded in the contents of a PID file.
pub fn pid_from_contents(contents: &str) -> (r: Result<i32, DaemonError>)
    ensures
        match spec_pid_in(contents@) {
            Some(pid) => r == Ok::<i32, DaemonError>(pid),
            None => r matches Err(DaemonError::InvalidPidFile),
        },
{
    match parse_i32(trim(contents)) {
        Some(pid) => if pid > 0 {
            Ok(pid)
        } else {
            Err(DaemonError::InvalidPidFile)
        },
        None => Err(DaemonError::InvalidPidFile),
    }
}

/// What one look at a starting daemon decides.
#[derive(Debug, Clone, PartialEq, Eq)]
pub enum StartupStep {
    /// The daemon wrote its PID file: it is running.
    Ready,
    /// The daemon exited before it was ready, with this status.
    Exited(String),
    /// Not ready yet: wait and look again.
    Retry,
}

/// Counts the looks at a starting daemon.
#[derive(Debug, Clone, Copy)]
pub struct StartupWatch {
    looks: u32,
}

impl StartupWatch {
    /// How many looks ended in [`StartupStep::Retry`].
    pub closed spec fn spec_looks(self) -> nat {
        self.looks as nat
    }

    pub fn new() -> (r: Self)
        ensures
            r.spec_looks() == 0,
    {
        StartupWatch { looks: 0 }
    }

    /// Whether all looks are used up, so that the start has timed out.
    pub fn exhausted(&self) -> (r: bool)
        ensures
            r == (self.spec_looks() >= POLL_ATTEMPTS),
    {
        self.looks >= POLL_ATTEMPTS
    }

    /// Decides from one look: ready once the PID file exists, failed once the process has
    /// exited, otherwise wait.
    pub fn observe(&mut self, pid_file_exists: bool, exit_status: Option<String>) -> (r: StartupStep)
        requires
            old(self).spec_looks() < POLL_ATTEMPTS,
        ensures
            pid_file_exists ==> (r == StartupStep::Ready
                && final(self).spec_looks() == old(self).spec_looks()),
            !pid_file_exists && exit_status is Some ==> (r matches StartupStep::Exited(s)
                && s == exit_status->0 && final(self).spec_looks() == old(self).spec_looks()),
            !pid_file_exists && exit_status is None ==> (r == StartupStep::Retry
                && final(self).spec_looks() == old(self).spec_looks() + 1),
    {
        if pid_file_exists {
            return StartupStep::Ready;
        }
        match exit_status {
            Some(status) => StartupStep::Exited(status),
            None => {
                self.looks = self.looks + 1;
                StartupStep::Retry
            },
        }
    }
}

/// Counts the looks at a daemon that was asked to stop.
#[derive(Debug, Clone, Copy)]
pub struct ShutdownWatch {
    looks: u32,
}

impl ShutdownWatch {
    /// How many looks found the process still alive.
    pub closed spec fn spec_looks(self) -> nat {
        self.looks as nat
    }

    pub fn new() -> (r: Self)
        ensures
            r.spec_looks() == 0,
    {
        ShutdownWatch { looks: 0 }
    }

    /// Whether all looks are used up, so that the stop has timed out.
    pub fn exhausted(&self) -> (r: bool)
        ensures
            r == (self.spec_looks() >= POLL_ATTEMPTS),
    {
        self.looks >= POLL_ATTEMPTS
    }

    /// Decides from one look: stopped once the process is gone, otherwise wait.
    pub fn observe(&mut self, process_alive: bool) -> (stopped: bool)
        requires
            old(self).spec_looks() < POLL_ATTEMPTS,
        ensures
            stopped == !process_alive,
            process_alive ==> final(self).spec_looks() == old(self).spec_looks() + 1,
            !process_alive ==> final(self).spec_looks() == old(self).spec_looks(),
    {
        if !process_alive {
            return true;
        }
        self.looks = self.looks + 1;
        false
    }
}

/// What a scheduling cycle did.
#[derive(Debug, Clone, Copy, PartialEq, Eq, Structural)]
pub enum CycleOutcome {
    /// Automation is switched off in the configuration; nothing was evaluated.
    AutomationDisabled,
    /// The desktop already showed the scheduled theme.
    Unchanged(ScheduleDecision),
    /// The desktop was switched to the scheduled theme.
    Switched(ScheduleDecision),
}

/// The schedule decision that a cycle acted on, if it evaluated the schedule.
pub open spec fn cycle_decision(r: Result<CycleOutcome, DaemonError>) -> Option<ScheduleDecision> {
    match r {
        Ok(CycleOutcome::Unchanged(d)) => Some(d),
        Ok(CycleOutcome::Switched(d)) => Some(d),
        _ => None,
    }
}

/// The theme to switch to, if the desktop does not already show the scheduled one.
pub open spec fn spec_cycle_action(target: Theme, current: Theme) -> Option<Theme> {
    if current == target {
        None
    } else {
        Some(target)
    }
}

/// Decides whether a cycle must switch the desktop.
pub fn cycle_action(target: Theme, current: Theme) -> (r: Option<Theme>)
    ensures
        r == spec_cycle_action(target, current),
{
    if current == target {
        None
    } else {
        Some(target)
    }
}

/// Once a cycle has applied its action, a second cycle with the same decision does nothing.
pub proof fn lemma_cycle_settles(target: Theme, current: Theme)
    ensures
        ({
            let after = match spec_cycle_action(target, current) {
                Some(t) => t,
                None => current,
            };
            &&& after == target
            &&& spec_cycle_action(target, after) is None
        }),
{
}

/// What a cycle with automation on gives once the schedule decided `d`: the desktop theme is
/// read once; a read error is reported; the same theme leaves the desktop unchanged; another
/// theme is replaced through one `set_theme(d.target_theme)`, whose error is reported.
pub open spec fn spec_cycle_after_decision<B: ThemeBackend>(
    backend: &B,
    d: ScheduleDecision,
    r: Result<CycleOutcome, DaemonError>,
) -> bool {
    exists|read: Result<Theme, BackendError>|
        call_ensures(B::current_theme, (backend,), read) && match read {
            Err(e) => r == Err::<CycleOutcome, DaemonError>(DaemonError::Backend(e)),
            Ok(c) => if c == d.target_theme {
                r == Ok::<CycleOutcome, DaemonError>(CycleOutcome::Unchanged(d))
            } else {
                exists|applied: Result<(), BackendError>|
                    call_ensures(B::set_theme, (backend, d.target_theme), applied) && match applied {
                        Ok(_) => r == Ok::<CycleOutcome, DaemonError>(CycleOutcome::Switched(d)),
                        Err(e) => r == Err::<CycleOutcome, DaemonError>(DaemonError::Backend(e)),
                    }
            },
        }
}

/// One scheduling cycle with an already loaded configuration: evaluates the schedule at the
/// current local time and switches the desktop when it shows the other theme.
pub fn run_schedule_cycle<B: ThemeBackend>(config: &AppConfig, backend: &B) -> (r: Result<
    CycleOutcome,
    DaemonError,
>)
    ensures
        (r == Ok::<CycleOutcome, DaemonError>(CycleOutcome::AutomationDisabled))
            <==> !config.automation,
        config.automation ==> match scheduler::spec_strategy(config@) {
            Err(e) => r matches Err(DaemonError::Scheduler(se)) && se@ == e,
            Ok(times) => exists|now: LocalDateTime|
                now.wf() && crate::clock::is_clock_reading(now) && match #[trigger] scheduler::spec_evaluate(times.0, times.1, now) {
                    Err(e) => r matches Err(DaemonError::Scheduler(se)) && se@ == e,
                    Ok(d) => spec_cycle_after_decision(backend, d, r),
                },
        },
        cycle_decision(r) matches Some(d) ==> (config.automation
            && scheduler::spec_possible_decision(config@, d)),
{
    if !config.automation {
        return Ok(CycleOutcome::AutomationDisabled);
    }
    let evaluated = scheduler::evaluate_now(config);
    let ghost times = scheduler::spec_strategy(config@)->Ok_0;
    let ghost now = choose|now: LocalDateTime|
        now.wf() && crate::clock::is_clock_reading(now) && #[trigger] scheduler::spec_evaluate(times.0, times.1, now)
            == scheduler::schedule_result(evaluated);
    let decision = match evaluated {
        Ok(d) => d,
        Err(e) => return Err(DaemonError::Scheduler(e)),
    };
    let read = backend.current_theme();
    let current = match read {
        Ok(t) => t,
        Err(e) => {
            let r = Err(DaemonError::Backend(e));
            assert(spec_cycle_after_decision(backend, decision, r));
            return r;
        },
    };
    match cycle_action(decision.target_theme, current) {
        None => {
            let r = Ok(CycleOutcome::Unchanged(decision));
            assert(spec_cycle_after_decision(backend, decision, r));
            r
        },
        Some(target) => {
            let applied = backend.set_theme(target);
            let r = match applied {
                Ok(()) => Ok(CycleOutcome::Switched(decision)),
                Err(e) => Err(DaemonError::Backend(e)),
            };
            assert(spec_cycle_after_decision(backend, decision, r));
            r
        },
    }
}

} // verus!
