//! The bounded command executor's data model.
//!
//! The executor runs one external command with a wall-clock bound: it races
//! the command against the deadline and kills the process when the deadline
//! wins. Spawning, waiting and killing are the binary's job; this module
//! holds the plain-value model: the command to run, what the race can come
//! back with, and the classification of that result into the one outcome
//! the rest of the system consumes.

use vstd::prelude::*;

verus! {

/// One external command: an executable name plus its argument vector, never
/// a raw shell string (a remote shell invocation carries its remote command
/// as one argument).
#[derive(Debug, Clone, PartialEq, Eq)]
pub struct CommandSpec {
    pub program: String,
    pub args: Vec<String>,
}

/// The mathematical model of a `CommandSpec`.
#[verifier::ext_equal]
pub struct CommandSpecView {
    pub program: Seq<char>,
    pub args: Seq<Seq<char>>,
}

impl View for CommandSpec {
    type V = CommandSpecView;

    open spec fn view(&self) -> CommandSpecView {
        CommandSpecView { program: self.program@, args: self.args.deep_view() }
    }
}

impl DeepView for CommandSpec {
    type V = CommandSpecView;

    open spec fn deep_view(&self) -> CommandSpecView {
        self.view()
    }
}

/// What a finished command left behind: its exit classification and its
/// captured output streams.
#[derive(Debug, Clone, PartialEq, Eq)]
pub struct CapturedOutput {
    pub exit_success: bool,
    pub stdout: String,
    pub stderr: String,
}

/// The outcome of one bounded command execution.
#[derive(Debug, Clone, PartialEq, Eq)]
pub enum CommandOutcome {
    /// The command finished before the bound.
    Completed { exit_success: bool, stdout: String, stderr: String },
    /// The bound elapsed first; the underlying process was killed, not
    /// abandoned.
    TimedOut,
    /// The process could not be started at all.
    LaunchFailed { error: String },
}

/// The mathematical model of a `CommandOutcome`.
#[verifier::ext_equal]
pub enum CommandOutcomeView {
    Completed { exit_success: bool, stdout: Seq<char>, stderr: Seq<char> },
    TimedOut,
    LaunchFailed { error: Seq<char> },
}

impl View for CommandOutcome {
    type V = CommandOutcomeView;

    open spec fn view(&self) -> CommandOutcomeView {
        match self {
            CommandOutcome::Completed { exit_success, stdout, stderr } => CommandOutcomeView::Completed {
                exit_success: *exit_success,
                stdout: stdout@,
                stderr: stderr@,
            },
            CommandOutcome::TimedOut => CommandOutcomeView::TimedOut,
            CommandOutcome::LaunchFailed { error } => CommandOutcomeView::LaunchFailed {
                error: error@,
            },
        }
    }
}

impl DeepView for CommandOutcome {
    type V = CommandOutcomeView;

    open spec fn deep_view(&self) -> CommandOutcomeView {
        self.view()
    }
}

/// The model of the race classification: a command that finished is
/// `Completed` with its captured streams, a deadline that fired first is
/// `TimedOut`, and a command that never started is `LaunchFailed` with the
/// launch error.
pub open spec fn spec_outcome_from_race(race: Result<Option<CapturedOutput>, String>) -> CommandOutcomeView {
    match race {
        Ok(Some(output)) => CommandOutcomeView::Completed {
            exit_success: output.exit_success,
            stdout: output.stdout@,
            stderr: output.stderr@,
        },
        Ok(None) => CommandOutcomeView::TimedOut,
        Err(error) => CommandOutcomeView::LaunchFailed { error: error@ },
    }
}

/// Classifies what the race between a command and its deadline came back
/// with. The binary hands in the raced result; every case maps to exactly
/// one outcome.
pub fn outcome_from_race(race: Result<Option<CapturedOutput>, String>) -> (o: CommandOutcome)
    ensures
        o@ == spec_outcome_from_race(race),
{
    match race {
        Ok(Some(output)) => CommandOutcome::Completed {
            exit_success: output.exit_success,
            stdout: output.stdout,
            stderr: output.stderr,
        },
        Ok(None) => CommandOutcome::TimedOut,
        Err(error) => CommandOutcome::LaunchFailed { error },
    }
}

} // verus!
