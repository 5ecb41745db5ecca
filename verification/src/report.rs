//! Classification of finished commands: what the result reporter logs,
//! and at which level, for each way a wait on a child process can end.

use vstd::prelude::*;

verus! {

/// How waiting on a launched command ended, as plain values: the exit
/// status code when the command exited normally, `None` for a code when
/// it was ended otherwise (by a signal), and `WaitFailed` when completion
/// could not even be observed.
#[derive(Debug, Clone, Copy, PartialEq, Eq)]
pub enum WaitOutcome {
    Exited { code: Option<i32> },
    WaitFailed,
}

/// The level at which a report entry is logged.
#[derive(Debug, Clone, Copy, PartialEq, Eq, Structural)]
pub enum LogLevel {
    Debug,
    Error,
}

/// One report about a finished command.
#[derive(Debug, Clone, Copy, PartialEq, Eq)]
pub enum Report {
    /// The command exited with status zero.
    Success,
    /// The command exited unsuccessfully; `code` is its status code when
    /// it exited normally, `None` when it was ended by a signal.
    Failure { code: Option<i32> },
    /// Waiting for the command to finish failed.
    WaitFailed,
}

/// The report owed for a wait outcome: a zero exit status is a success,
/// any other exit is a failure carrying the status code, and a failed
/// wait is reported as such.
pub open spec fn spec_classify(outcome: WaitOutcome) -> Report {
    match outcome {
        WaitOutcome::Exited { code } => if code == Some(0i32) {
            Report::Success
        } else {
            Report::Failure { code }
        },
        WaitOutcome::WaitFailed => Report::WaitFailed,
    }
}

/// Classifies a wait outcome. One outcome is consumed per launched
/// command; a failure never affects other pending or future commands.
pub fn classify_wait(outcome: &WaitOutcome) -> (r: Report)
    ensures
        r == spec_classify(*outcome),
        (r == Report::Success) <==> (*outcome matches WaitOutcome::Exited { code } && code
            == Some(0i32)),
{
    match outcome {
        WaitOutcome::Exited { code } => match code {
            Some(c) => {
                if *c == 0 {
                    Report::Success
                } else {
                    Report::Failure { code: Some(*c) }
                }
            },
            None => Report::Failure { code: None },
        },
        WaitOutcome::WaitFailed => Report::WaitFailed,
    }
}

/// The level at which a report is logged: only a success is quiet, at
/// debug level; every failure, of the command or of the wait, is an
/// error.
pub fn report_level(r: &Report) -> (l: LogLevel)
    ensures
        (l == LogLevel::Debug) <==> (*r == Report::Success),
{
    match r {
        Report::Success => LogLevel::Debug,
        Report::Failure { .. } => LogLevel::Error,
        Report::WaitFailed => LogLevel::Error,
    }
}

} // verus!
