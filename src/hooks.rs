//! The hook pipeline: what observers are handed around an execution, which
//! hook points fire after a run, and how the observers' answers combine.

use vstd::prelude::*;

use crate::types::{clone_opt_string, clone_params, ScheduledTask, TaskExecutionResult, TaskId, TaskStatus};

verus! {

/// Why an observer failed.
#[derive(Debug)]
pub enum HookError {
    CallbackError(String),
    HookNotFound(String),
}

/// What an on-error observer proposes after an executor failure.
pub struct ErrorRecoverySuggestion {
    pub description: String,
    pub fix_command: Option<String>,
    pub create_recovery_task: bool,
    pub recovery_cron: Option<String>,
}

impl ErrorRecoverySuggestion {
    /// The suggestion that says nothing, returned when no observer is registered.
    pub open spec fn is_empty(self) -> bool {
        self.description@.len() == 0 && self.fix_command is None && !self.create_recovery_task
            && self.recovery_cron is None
    }

    pub fn empty() -> (r: Self)
        ensures
            r.is_empty(),
    {
        ErrorRecoverySuggestion {
            description: String::new(),
            fix_command: None,
            create_recovery_task: false,
            recovery_cron: None,
        }
    }
}

/// A point of the pipeline at which observers are called.
#[derive(Debug, Clone, Copy, PartialEq, Eq, Structural)]
pub enum HookPoint {
    BeforeRun,
    AfterRun,
    OnSuccess,
    OnFailure,
    OnError,
}

/// The hook points that fire, in order, once a run has ended with `status`:
/// after-run always, then the one that matches the outcome.
pub open spec fn points_after(status: TaskStatus) -> Seq<HookPoint> {
    match status {
        TaskStatus::Completed => seq![HookPoint::AfterRun, HookPoint::OnSuccess],
        TaskStatus::Failed => seq![HookPoint::AfterRun, HookPoint::OnFailure],
        TaskStatus::Error => seq![HookPoint::AfterRun, HookPoint::OnError],
        _ => seq![HookPoint::AfterRun],
    }
}

pub fn hook_points_after(status: TaskStatus) -> (r: Vec<HookPoint>)
    ensures
        r@ == points_after(status),
{
    let mut r: Vec<HookPoint> = Vec::new();
    r.push(HookPoint::AfterRun);
    match status {
        TaskStatus::Completed => r.push(HookPoint::OnSuccess),
        TaskStatus::Failed => r.push(HookPoint::OnFailure),
        TaskStatus::Error => r.push(HookPoint::OnError),
        _ => {},
    }
    proof {
        assert(r@ =~= points_after(status));
    }
    r
}

/// The index of the first failure among `results`, if any.
pub open spec fn first_failure<T>(results: Seq<Result<T, HookError>>) -> Option<int>
    decreases results.len(),
{
    if results.len() == 0 {
        None
    } else if results[0] is Err {
        Some(0)
    } else {
        match first_failure(results.drop_first()) {
            Some(i) => Some(i + 1),
            None => None,
        }
    }
}

proof fn lemma_first_failure<T>(results: Seq<Result<T, HookError>>, i: int)
    requires
        0 <= i <= results.len(),
        forall|k: int| 0 <= k < i ==> results[k] is Ok,
    ensures
        i < results.len() && results[i] is Err ==> first_failure(results) == Some(i),
        i == results.len() ==> first_failure(results) is None,
    decreases i,
{
    if i > 0 {
        let d = results.drop_first();
        assert forall|k: int| 0 <= k < i - 1 implies d[k] is Ok by {
            assert(d[k] == results[k + 1]);
        }
        lemma_first_failure(d, i - 1);
    }
}

/// The answer of the before-run observers, called in registration order
/// until one fails: the first failure aborts the run, else the run goes on.
pub fn settle_before_run(results: Vec<Result<(), HookError>>) -> (r: Result<(), HookError>)
    ensures
        match first_failure(results@) {
            Some(i) => r == results@[i],
            None => r is Ok,
        },
{
    let ghost all = results@;
    let mut rest = results;
    let mut i: usize = 0;
    let total = rest.len();
    while rest.len() > 0
        invariant
            i <= all.len() == total,
            all == results@,
            rest@ == all.subrange(i as int, all.len() as int),
            forall|k: int| 0 <= k < i ==> all[k] is Ok,
        decreases rest@.len(),
    {
        let x = rest.remove(0);
        proof {
            assert(x == all[i as int]);
        }
        if x.is_err() {
            proof {
                lemma_first_failure(all, i as int);
                assert(first_failure(all) == Some(i as int));
            }
            return x;
        }
        i = i + 1;
        proof {
            assert(rest@ =~= all.subrange(i as int, all.len() as int));
        }
    }
    proof {
        lemma_first_failure(all, i as int);
    }
    Ok(())
}

/// The answer of the on-error observers, called in registration order until
/// one fails: the first failure, else the last observer's suggestion, else
/// the empty suggestion.
pub fn settle_on_error(results: Vec<Result<ErrorRecoverySuggestion, HookError>>) -> (r: Result<ErrorRecoverySuggestion, HookError>)
    ensures
        match first_failure(results@) {
            Some(i) => r == results@[i],
            None => if results@.len() == 0 {
                r matches Ok(s) && s.is_empty()
            } else {
                r == results@.last()
            },
        },
{
    let ghost all = results@;
    let mut rest = results;
    let mut i: usize = 0;
    let total = rest.len();
    let mut last = ErrorRecoverySuggestion::empty();
    while rest.len() > 0
        invariant
            i <= all.len() == total,
            all == results@,
            rest@ == all.subrange(i as int, all.len() as int),
            forall|k: int| 0 <= k < i ==> all[k] is Ok,
            i == 0 ==> last.is_empty(),
            i > 0 ==> all[i - 1] == Ok::<ErrorRecoverySuggestion, HookError>(last),
        decreases rest@.len(),
    {
        let x = rest.remove(0);
        proof {
            assert(x == all[i as int]);
        }
        match x {
            Err(e) => {
                proof {
                    lemma_first_failure(all, i as int);
                }
                return Err(e);
            },
            Ok(s) => {
                last = s;
            },
        }
        i = i + 1;
        proof {
            assert(rest@ =~= all.subrange(i as int, all.len() as int));
        }
    }
    proof {
        lemma_first_failure(all, i as int);
    }
    Ok(last)
}

/// What the before-run observers are given.
pub struct TaskExecutionContext {
    pub task_id: TaskId,
    pub title: String,
    pub name: String,
    pub description: Option<String>,
    pub content: Option<String>,
    pub cron_expression: String,
    pub user_params: Vec<(String, String)>,
    pub run_count: u64,
    pub last_result: Option<TaskExecutionResult>,
}

impl TaskExecutionContext {
    /// The context of a run of `task` with the given parameters.
    pub fn for_task(task: &ScheduledTask, user_params: &Vec<(String, String)>, last_result: Option<TaskExecutionResult>)
        -> (r: Self)
        ensures
            r.task_id == task.id,
            r.title == task.title,
            r.name == task.name,
            r.description == task.description,
            r.content == task.content,
            r.cron_expression == task.cron_expression,
            r.user_params@ == user_params@,
            r.run_count == task.run_count,
            r.last_result == last_result,
    {
        TaskExecutionContext {
            task_id: task.id,
            title: task.title.clone(),
            name: task.name.clone(),
            description: clone_opt_string(&task.description),
            content: clone_opt_string(&task.content),
            cron_expression: task.cron_expression.clone(),
            user_params: clone_params(user_params),
            run_count: task.run_count,
            last_result,
        }
    }
}

/// What the after-run, on-success, on-failure and on-error observers are given.
pub struct TaskResultContext {
    pub task_id: TaskId,
    pub run_instance_id: TaskId,
    pub result: TaskExecutionResult,
    pub duration_ms: i64,
}

impl TaskResultContext {
    /// The context of a finished run; its duration is that of the result, or 0
    /// where the result has none.
    pub fn new(task_id: TaskId, run_instance_id: TaskId, result: TaskExecutionResult) -> (r: Self)
        ensures
            r.task_id == task_id,
            r.run_instance_id == run_instance_id,
            r.result == result,
            r.duration_ms == match crate::types::span(result.started_at, result.completed_at) {
                Some(d) => d,
                None => 0,
            },
    {
        let d = match result.duration_ms() {
            Some(d) => d,
            None => 0,
        };
        TaskResultContext { task_id, run_instance_id, result, duration_ms: d }
    }
}

/// An observer that only writes what it sees to the log.
pub struct LoggingHook;

impl LoggingHook {
    pub fn new() -> (r: Self) {
        LoggingHook
    }
}

} // verus!
