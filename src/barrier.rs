//! The per-step completion barrier: a step's outcome is handed over only once
//! both output streams have ended and the exit status is known.

use vstd::prelude::*;

verus! {

/// How a step's process ended.
#[derive(Clone, Copy, Debug, PartialEq, Eq)]
pub enum CommandResult {
    /// The process exited with status zero.
    Success,
    /// The process exited otherwise; the exit code, where one is known.
    Failure { exit_code: Option<i32> },
}

/// The signals that a running step has received so far.
#[derive(Clone, Copy, Debug)]
pub struct RunningContext {
    pub stdout_done: bool,
    pub stderr_done: bool,
    pub exit_result: Option<CommandResult>,
    pub delivered: bool,
}

impl RunningContext {
    /// A step that has received no signal yet.
    pub open spec fn fresh() -> Self {
        RunningContext {
            stdout_done: false,
            stderr_done: false,
            exit_result: None,
            delivered: false,
        }
    }

    /// Hands over the recorded outcome if all three signals have arrived and
    /// it has not been handed over before.
    pub open spec fn finalize_spec(self) -> (Self, Option<CommandResult>) {
        if self.stdout_done && self.stderr_done && self.exit_result is Some && !self.delivered {
            (RunningContext { exit_result: None, delivered: true, ..self }, self.exit_result)
        } else {
            (self, None)
        }
    }

    /// Records the end of one output stream, then tries to hand over.
    pub open spec fn stream_done_spec(self, is_error_stream: bool) -> (Self, Option<
        CommandResult,
    >) {
        if is_error_stream {
            RunningContext { stderr_done: true, ..self }.finalize_spec()
        } else {
            RunningContext { stdout_done: true, ..self }.finalize_spec()
        }
    }

    /// Records how the process ended, then tries to hand over.
    pub open spec fn exit_spec(self, result: CommandResult) -> (Self, Option<CommandResult>) {
        RunningContext { exit_result: Some(result), ..self }.finalize_spec()
    }

    /// A step that has received no signal yet.
    pub fn new() -> (r: Self)
        ensures
            r == Self::fresh(),
    {
        RunningContext { stdout_done: false, stderr_done: false, exit_result: None, delivered: false }
    }

    /// Records the end of the standard output stream, or of the standard
    /// error stream, and returns the outcome if it is now to be handed over.
    pub fn mark_stream_done(&mut self, is_error_stream: bool) -> (r: Option<CommandResult>)
        ensures
            (*final(self), r) == old(self).stream_done_spec(is_error_stream),
    {
        if is_error_stream {
            self.stderr_done = true;
        } else {
            self.stdout_done = true;
        }
        self.try_finalize()
    }

    /// Records how the process ended and returns the outcome if it is now to
    /// be handed over.
    pub fn set_exit_result(&mut self, result: CommandResult) -> (r: Option<CommandResult>)
        ensures
            (*final(self), r) == old(self).exit_spec(result),
    {
        self.exit_result = Some(result);
        self.try_finalize()
    }

    /// Hands over the recorded outcome, once, when both streams have ended and
    /// the exit status is known.
    pub fn try_finalize(&mut self) -> (r: Option<CommandResult>)
        ensures
            (*final(self), r) == old(self).finalize_spec(),
    {
        if !(self.stdout_done && self.stderr_done) || self.delivered {
            return None;
        }
        let result = self.exit_result;
        if result.is_some() {
            self.exit_result = None;
            self.delivered = true;
        }
        result
    }
}

} // verus!
