//! Errors of the scheduler's operations.

use vstd::prelude::*;

use crate::runtime::{id_text, id_to_string};
use crate::types::TaskId;

verus! {

/// Why an operation of the scheduler did not succeed.
#[derive(Debug)]
pub enum SchedulerError {
    /// No task has this id.
    JobNotFound(TaskId),
    /// No run instance has this id.
    RunInstanceNotFound(TaskId),
    /// The expression is not a valid cron schedule.
    InvalidCronExpression(String),
    /// The trigger engine failed.
    SchedulerError(String),
    /// The executor failed.
    ExecutionError(String),
    /// The task has no executor registered.
    ExecutorMissing(TaskId),
    /// The durable store failed.
    StorageError(String),
    /// An argument is malformed.
    InvalidParameter(String),
    /// The operation does not apply to the record's current state.
    InvalidState(String),
    /// The operating-system trigger adapter failed.
    SystemError(String),
}

impl SchedulerError {
    /// The message of the error.
    pub open spec fn text(&self) -> Seq<char> {
        match self {
            SchedulerError::JobNotFound(id) => "Job not found: "@ + id_text(*id),
            SchedulerError::RunInstanceNotFound(id) => "Run instance not found: "@ + id_text(*id),
            SchedulerError::InvalidCronExpression(m) => "Invalid cron expression: "@ + m@,
            SchedulerError::SchedulerError(m) => "Scheduler error: "@ + m@,
            SchedulerError::ExecutionError(m) => "Job execution error: "@ + m@,
            SchedulerError::ExecutorMissing(id) => "Executor not found: "@ + id_text(*id),
            SchedulerError::StorageError(m) => "Storage error: "@ + m@,
            SchedulerError::InvalidParameter(m) => "Invalid parameter: "@ + m@,
            SchedulerError::InvalidState(m) => "Invalid state: "@ + m@,
            SchedulerError::SystemError(m) => "System scheduler error: "@ + m@,
        }
    }

    pub fn to_string(&self) -> (r: String)
        ensures
            r@ == self.text(),
    {
        match self {
            SchedulerError::JobNotFound(id) => String::from_str("Job not found: ").concat(id_to_string(*id).as_str()),
            SchedulerError::RunInstanceNotFound(id) => String::from_str("Run instance not found: ").concat(
                id_to_string(*id).as_str(),
            ),
            SchedulerError::InvalidCronExpression(m) => String::from_str("Invalid cron expression: ").concat(m.as_str()),
            SchedulerError::SchedulerError(m) => String::from_str("Scheduler error: ").concat(m.as_str()),
            SchedulerError::ExecutionError(m) => String::from_str("Job execution error: ").concat(m.as_str()),
            SchedulerError::ExecutorMissing(id) => String::from_str("Executor not found: ").concat(id_to_string(*id).as_str()),
            SchedulerError::StorageError(m) => String::from_str("Storage error: ").concat(m.as_str()),
            SchedulerError::InvalidParameter(m) => String::from_str("Invalid parameter: ").concat(m.as_str()),
            SchedulerError::InvalidState(m) => String::from_str("Invalid state: ").concat(m.as_str()),
            SchedulerError::SystemError(m) => String::from_str("System scheduler error: ").concat(m.as_str()),
        }
    }
}

} // verus!
