//! The commands that the command line accepts.

use vstd::prelude::*;

verus! {

/// Lightweight Linux desktop theme control: one parsed command line.
#[derive(Debug, Clone, Copy, PartialEq, Eq, Structural)]
pub struct Cli {
    pub command: Command,
}

/// A top-level command.
#[derive(Debug, Clone, Copy, PartialEq, Eq, Structural)]
pub enum Command {
    /// Switch to the light color scheme.
    Light,
    /// Switch to the dark color scheme.
    Dark,
    /// Switch to the opposite color scheme.
    Toggle,
    /// Display theme and automation state.
    Status,
    /// Manage the background scheduler.
    Daemon { command: DaemonCommand },
}

/// A `daemon` subcommand.
#[derive(Debug, Clone, Copy, PartialEq, Eq, Structural)]
pub enum DaemonCommand {
    /// Start the scheduler in the background.
    Start,
    /// Stop the background scheduler.
    Stop,
    /// Internal foreground entry point used by `daemon start`.
    Run,
}

impl Cli {
    /// Whether this invocation is the background daemon itself (`daemon run`).
    pub fn is_daemon_process(&self) -> (r: bool)
        ensures
            r == (self.command == Command::Daemon { command: DaemonCommand::Run }),
    {
        match self.command {
            Command::Daemon { command: DaemonCommand::Run } => true,
            _ => false,
        }
    }
}

} // verus!
