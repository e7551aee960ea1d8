//! Laws of the scheduler that relate several operations, proved from the
//! operations' contracts.

use vstd::prelude::*;

use crate::cron::{cron_valid, fields, next_run_at};
use crate::persistent::{reloaded, PersistentCronTaskScheduler};
use crate::scheduler::{finished, outcome_status, paused, resumed, updated, CronTaskScheduler};
use crate::store::{first_later, sorted_by_time, sorted_logs, MemorySchedulerStorage};
use crate::types::{ScheduledTask, TaskExecutionResult, TaskId, TaskLog, TaskStatus, TaskUpdateRequest, Timestamp};

verus! {

/// An expression with fewer than five or more than six fields, the empty
/// one among them, is never a valid schedule: `add` and `update` reject it.
pub proof fn law_malformed_cron_rejected(expr: Seq<char>)
    ensures
        fields(expr).len() < 5 || fields(expr).len() > 6 ==> !cron_valid(expr),
        expr.len() == 0 ==> !cron_valid(expr),
{
}

/// Pausing a task twice leaves it as pausing it once: Paused and disabled.
pub proof fn law_pause_twice(r0: CronTaskScheduler, r1: CronTaskScheduler, r2: CronTaskScheduler, id: TaskId)
    requires
        r0.tasks().contains_key(id),
        r1.tasks() == r0.tasks().insert(id, paused(r0.tasks()[id])),
        r2.tasks() == r1.tasks().insert(id, paused(r1.tasks()[id])),
    ensures
        r2.tasks() == r1.tasks(),
        r2.tasks()[id].status == TaskStatus::Paused,
        !r2.tasks()[id].enabled,
{
    assert(paused(r1.tasks()[id]) == r1.tasks()[id]);
    assert(r2.tasks() =~= r1.tasks());
}

/// Resuming a task that is not paused changes nothing but its enabled flag.
pub proof fn law_resume_not_paused(r0: CronTaskScheduler, r1: CronTaskScheduler, id: TaskId)
    requires
        r0.tasks().contains_key(id),
        !(r0.tasks()[id].status is Paused),
        r1.tasks() == r0.tasks().insert(id, resumed(r0.tasks()[id])),
    ensures
        r1.tasks()[id] == (ScheduledTask { enabled: true, ..r0.tasks()[id] }),
        r1.tasks()[id].status == r0.tasks()[id].status,
{
}

/// A task saved to the store and taken back by a fresh registry keeps every
/// field but its next run; that is recomputed from its cron expression when
/// the task is enabled and not paused, and kept otherwise.
pub proof fn law_store_round_trip(
    s0: MemorySchedulerStorage,
    s1: MemorySchedulerStorage,
    task: ScheduledTask,
    p: PersistentCronTaskScheduler,
    now: Timestamp,
)
    requires
        s1.tasks() == s0.tasks().insert(task.id, task),
        p.registry().tasks() == reloaded(s1.tasks(), now),
    ensures
        p.registry().tasks().contains_key(task.id),
        task.enabled && !(task.status is Paused) ==> p.registry().tasks()[task.id]
            == (ScheduledTask { next_run: next_run_at(task.cron_expression@, now), ..task }),
        !task.enabled || task.status is Paused ==> p.registry().tasks()[task.id] == task,
{
}

/// Every run instance of a registry is open (Pending or Running) with no
/// completion time and no result, or closed (Completed, Failed or Error) with
/// both; never Paused.
pub proof fn law_instance_completion(r: CronTaskScheduler, id: TaskId)
    requires
        r.wf(),
        r.instances().contains_key(id),
    ensures
        (r.instances()[id].status is Pending || r.instances()[id].status is Running)
            ==> r.instances()[id].completed_at is None,
        r.instances()[id].completed_at is Some <==> r.instances()[id].status.is_terminal(),
        r.instances()[id].result is None <==> r.instances()[id].completed_at is None,
        !(r.instances()[id].status is Paused),
{
    r.lemma_views();
}

/// Log lines appended with nondecreasing timestamps are read back in the
/// order they were appended.
pub proof fn law_logs_keep_append_order(s: Seq<TaskLog>)
    requires
        sorted_by_time(s),
    ensures
        sorted_logs(s) == s,
    decreases s.len(),
{
    if s.len() > 0 {
        let d = s.drop_last();
        assert(sorted_by_time(d)) by {
            assert forall|i: int, j: int| 0 <= i <= j < d.len() implies
                (#[trigger] d[i]).timestamp <= (#[trigger] d[j]).timestamp by {
                assert(d[i] == s[i] && d[j] == s[j]);
            }
        }
        law_logs_keep_append_order(d);
        lemma_first_later_end(d, s.last().timestamp);
        assert(d.insert(d.len() as int, s.last()) =~= s);
    }
}

proof fn lemma_first_later_end(s: Seq<TaskLog>, t: Timestamp)
    requires
        forall|q: int| 0 <= q < s.len() ==> (#[trigger] s[q]).timestamp <= t,
    ensures
        first_later(s, t) == s.len(),
    decreases s.len(),
{
    if s.len() > 0 {
        let d = s.drop_first();
        assert forall|q: int| 0 <= q < d.len() implies (#[trigger] d[q]).timestamp <= t by {
            assert(d[q] == s[q + 1]);
        }
        lemma_first_later_end(d, t);
    }
}

/// Whatever the executor's outcome, the run it ends is closed: Completed,
/// Failed or Error, never Pending, Running or Paused.
pub proof fn law_finished_run_closed(outcome: Result<TaskExecutionResult, String>)
    ensures
        outcome_status(outcome).is_terminal(),
        !(outcome_status(outcome) is Pending || outcome_status(outcome) is Running || outcome_status(outcome) is Paused),
{
}

/// An update with a new cron expression reschedules the task by that
/// expression alone: its next run comes from the new expression, every later
/// run's end recomputes it from the task's current expression, and whether
/// the trigger fires the task depends on that next run only.
pub proof fn law_update_reschedules(
    task: ScheduledTask,
    req: TaskUpdateRequest,
    c: String,
    now: Timestamp,
    outcome: Result<TaskExecutionResult, String>,
    later: Timestamp,
)
    requires
        req.cron_expression == Some(c),
    ensures
        updated(task, req, now).cron_expression == c,
        updated(task, req, now).next_run == next_run_at(c@, now),
        finished(updated(task, req, now), outcome, later).next_run == next_run_at(c@, later),
        forall|t: ScheduledTask, u: ScheduledTask, at: Timestamp|
            t.enabled == u.enabled && t.status == u.status && t.is_system == u.is_system && t.next_run == u.next_run
            ==> (#[trigger] CronTaskScheduler::is_due(t, at) == #[trigger] CronTaskScheduler::is_due(u, at)),
{
}

} // verus!
