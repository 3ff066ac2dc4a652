//! Turning the end of a supervised startup task into a result: a value, a
//! returned error, or an abnormal end, never a fault passed on to the caller.

use crate::error::BootstrapError;
use vstd::prelude::*;

verus! {

/// The message of an abnormal end of the logging installation that left none.
pub const LOGGER_PANIC_FALLBACK: &'static str = "panicked setting logger";

/// The message of an abnormal end of the service's construction that left none.
pub const MAIN_PANIC_FALLBACK: &'static str = "panicked calling main";

/// The message of an abnormal end of the bind that left none.
pub const BIND_PANIC_FALLBACK: &'static str = "panicked binding service";

/// How a supervised task ended, as seen by the task that awaited it.
pub enum TaskOutcome<T> {
    /// The work ran to its end and returned this.
    Finished(T),
    /// The work ended abnormally, with the text it left, if any.
    Panicked(Option<String>),
    /// The task was stopped from outside before it ended; holds a description.
    Cancelled(String),
}

/// Converts the end of a supervised task. A value passes through; an error
/// that the work returned becomes `TaskFailed`; an abnormal end becomes
/// `TaskPanicked` with its message, or with `fallback` where it left none; a
/// task stopped from outside becomes `TaskFailed` with its description.
pub fn supervised_result<T>(outcome: TaskOutcome<Result<T, String>>, fallback: &str) -> (r: Result<
    T,
    BootstrapError,
>)
    ensures
        match outcome {
            TaskOutcome::Finished(Ok(v)) => r == Ok::<T, BootstrapError>(v),
            TaskOutcome::Finished(Err(e)) => r == Err::<T, BootstrapError>(
                BootstrapError::TaskFailed(e),
            ),
            TaskOutcome::Panicked(Some(m)) => r == Err::<T, BootstrapError>(
                BootstrapError::TaskPanicked(m),
            ),
            TaskOutcome::Panicked(None) => match r {
                Err(BootstrapError::TaskPanicked(m)) => m@ == fallback@,
                _ => false,
            },
            TaskOutcome::Cancelled(d) => r == Err::<T, BootstrapError>(
                BootstrapError::TaskFailed(d),
            ),
        },
{
    match outcome {
        TaskOutcome::Finished(Ok(v)) => Ok(v),
        TaskOutcome::Finished(Err(e)) => Err(BootstrapError::TaskFailed(e)),
        TaskOutcome::Panicked(Some(m)) => Err(BootstrapError::TaskPanicked(m)),
        TaskOutcome::Panicked(None) => Err(BootstrapError::TaskPanicked(fallback.to_owned())),
        TaskOutcome::Cancelled(d) => Err(BootstrapError::TaskFailed(d)),
    }
}

} // verus!
