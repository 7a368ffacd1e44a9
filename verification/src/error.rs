//! The outcome of an action that may fail without a reason to give.

use vstd::prelude::*;
use crate::sys_log::{record_for, Log, LogLevel, LogRecord};

verus! {

/// What the log is told of an action that failed.
pub const RESOLVE_ERROR_MESSAGE: &'static str = "Action resolved in an Error!";

/// The outcome of an action: its value, or the bare fact that it failed.
#[derive(Debug, PartialEq, Eq)]
pub enum ResaResult<T> {
    Success(T),
    Failure(),
}

/// How badly an action failed.
#[derive(Clone, Copy, Debug, PartialEq, Eq, Structural)]
pub enum ResaError {
    InitFailed,
    CallFailed,
    NonCriticalError,
}

impl<T> ResaResult<T> {
    /// The value of a successful action, if the action was one.
    pub open spec fn resolved(self) -> Option<T> {
        match self {
            ResaResult::Success(t) => Some(t),
            ResaResult::Failure() => None,
        }
    }

    /// Turns the outcome into an `Option`, keeping the value of a success.
    /// For a failure, hands back beside it what the log is to write: the
    /// error `RESOLVE_ERROR_MESSAGE`, made now. A success leaves nothing to
    /// be written.
    pub fn resolve(self, log: &Log) -> (outcome: (Option<T>, Option<LogRecord>))
        ensures
            outcome.0 == self.resolved(),
            self is Success ==> outcome.1 is None,
            self is Failure ==> outcome.1 is Some && exists|timestamp: Seq<char>|
                outcome.1->Some_0@ == #[trigger] record_for(
                    log.flags,
                    LogLevel::Error,
                    timestamp,
                    RESOLVE_ERROR_MESSAGE@,
                ),
    {
        match self {
            ResaResult::Success(t) => (Some(t), None),
            ResaResult::Failure() => (None, Some(log.write_error(RESOLVE_ERROR_MESSAGE))),
        }
    }
}

} // verus!
