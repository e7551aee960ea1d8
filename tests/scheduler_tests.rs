use task_scheduler::cron::{next_fire_after, split_fields, validate_cron};
use task_scheduler::error::SchedulerError;
use task_scheduler::hooks::{hook_points_after, settle_before_run, settle_on_error, ErrorRecoverySuggestion, HookError, HookPoint};
use task_scheduler::persistent::PersistentCronTaskScheduler;
use task_scheduler::scheduler::CronTaskScheduler;
use task_scheduler::store::{
    instance_record_key, keys_with_prefix, log_record_key, sort_logs_by_time, starts_with, task_record_key,
    MemorySchedulerStorage,
};
use task_scheduler::types::{
    LogLevel, ScheduledTask, TaskBriefing, TaskExecutionResult, TaskLog, TaskRunInstance, TaskStatus, TaskUpdateRequest,
};

fn fresh_id() -> u128 {
    uuid::Uuid::new_v4().as_u128()
}

const EVERY_MINUTE: &str = "0 * * * * *";

fn ok_result(task_id: u128) -> Result<TaskExecutionResult, String> {
    Ok(TaskExecutionResult::success(task_id, String::new(), String::new(), 0, 0))
}

fn update(id: u128) -> TaskUpdateRequest {
    TaskUpdateRequest { id, title: None, description: None, content: None, cron_expression: None, enabled: None }
}

#[test]
fn field_splitting() {
    assert!(split_fields("").is_empty());
    assert!(split_fields("   ").is_empty());
    assert_eq!(split_fields("0 * * * * *").len(), 6);
    assert_eq!(
        split_fields("  */5\t*  * 1-3 *\n"),
        vec!["*/5".to_string(), "*".to_string(), "*".to_string(), "1-3".to_string(), "*".to_string()]
    );
}

#[test]
fn cron_validation() {
    assert!(validate_cron(EVERY_MINUTE).is_ok());
    assert!(validate_cron("0 */5 * * * *").is_ok());
    assert!(matches!(validate_cron(""), Err(SchedulerError::InvalidCronExpression(_))));
    assert!(matches!(validate_cron("* * *"), Err(SchedulerError::InvalidCronExpression(_))));
    assert!(matches!(validate_cron("* * * * * * *"), Err(SchedulerError::InvalidCronExpression(_))));
    assert!(matches!(validate_cron("a b c d e f"), Err(SchedulerError::InvalidCronExpression(_))));
}

#[test]
fn next_fire_is_after_the_given_time() {
    // 2024-01-01T00:00:30Z
    let t = 1_704_067_230_000;
    assert_eq!(next_fire_after(EVERY_MINUTE, t), Some(1_704_067_260_000));
    assert_eq!(next_fire_after("not a schedule", t), None);
}

#[test]
fn add_sets_a_future_next_run() {
    let mut s = CronTaskScheduler::new();
    let t = s.add_task("t".to_string(), "t".to_string(), EVERY_MINUTE.to_string()).unwrap();
    assert_eq!(t.status, TaskStatus::Pending);
    assert!(t.enabled);
    assert!(t.next_run.unwrap() > t.created_at);
    assert_eq!(s.list_tasks().len(), 1);
}

#[test]
fn invalid_cron_is_rejected_by_add_and_update() {
    let mut s = CronTaskScheduler::new();
    assert!(matches!(
        s.add_task("t".to_string(), "t".to_string(), "".to_string()),
        Err(SchedulerError::InvalidCronExpression(_))
    ));
    assert!(s.list_tasks().is_empty());
    let t = s.add_task("t".to_string(), "t".to_string(), EVERY_MINUTE.to_string()).unwrap();
    let mut req = update(t.id);
    req.title = Some("changed".to_string());
    req.cron_expression = Some("* *".to_string());
    assert!(matches!(s.update_task(req), Err(SchedulerError::InvalidCronExpression(_))));
    let after = s.get_task(t.id).unwrap();
    assert_eq!(after.title, "t");
    assert_eq!(after.cron_expression, EVERY_MINUTE);
}

#[test]
fn pause_twice_and_resume() {
    let mut s = CronTaskScheduler::new();
    let t = s.add_task("t".to_string(), "t".to_string(), EVERY_MINUTE.to_string()).unwrap();
    s.pause_task(t.id).unwrap();
    s.pause_task(t.id).unwrap();
    let p = s.get_task(t.id).unwrap();
    assert_eq!(p.status, TaskStatus::Paused);
    assert!(!p.enabled);
    s.resume_task(t.id).unwrap();
    let r = s.get_task(t.id).unwrap();
    assert_eq!(r.status, TaskStatus::Pending);
    assert!(r.enabled);
}

#[test]
fn resume_of_a_running_task_keeps_its_status() {
    let mut s = CronTaskScheduler::new();
    let t = s.add_task("t".to_string(), "t".to_string(), EVERY_MINUTE.to_string()).unwrap();
    s.start_run(t.id, Vec::new(), 99, 1_000).unwrap();
    s.resume_task(t.id).unwrap();
    let r = s.get_task(t.id).unwrap();
    assert_eq!(r.status, TaskStatus::Running);
    assert!(r.enabled);
}

#[test]
fn unknown_ids_are_not_found() {
    let mut s = CronTaskScheduler::new();
    let id = fresh_id();
    assert!(matches!(s.pause_task(id), Err(SchedulerError::JobNotFound(x)) if x == id));
    assert!(matches!(s.resume_task(id), Err(SchedulerError::JobNotFound(_))));
    assert!(matches!(s.remove_task(id), Err(SchedulerError::JobNotFound(_))));
    assert!(matches!(s.get_task(id), Err(SchedulerError::JobNotFound(_))));
    assert!(matches!(s.update_task(update(id)), Err(SchedulerError::JobNotFound(_))));
    assert!(matches!(s.get_task_briefing(id), Err(SchedulerError::JobNotFound(_))));
    assert!(matches!(s.stop_task(id), Err(SchedulerError::RunInstanceNotFound(_))));
    assert!(matches!(s.get_run_instance(id), Err(SchedulerError::RunInstanceNotFound(_))));
}

#[test]
fn run_of_a_never_added_task_is_not_found() {
    let mut s = CronTaskScheduler::new();
    let id = fresh_id();
    assert!(matches!(s.start_run(id, Vec::new(), fresh_id(), 0), Err(SchedulerError::JobNotFound(x)) if x == id));
}

#[test]
fn run_counts_a_success() {
    let mut s = CronTaskScheduler::new();
    let t = s.add_task("t".to_string(), "t".to_string(), EVERY_MINUTE.to_string()).unwrap();
    assert_eq!(t.run_count, 0);
    let inst = s.start_run(t.id, vec![("user".to_string(), "admin".to_string())], 7, 1_000).unwrap();
    assert_eq!(inst.status, TaskStatus::Running);
    assert_eq!(s.get_task(t.id).unwrap().status, TaskStatus::Running);
    assert_eq!(s.get_task(t.id).unwrap().last_run, Some(1_000));
    assert_eq!(s.list_running_tasks().len(), 1);
    let done = s.finish_run(7, ok_result(t.id), 2_000).unwrap();
    assert_eq!(done.status, TaskStatus::Completed);
    assert_eq!(done.completed_at, Some(2_000));
    assert!(done.result.is_some());
    let after = s.get_task(t.id).unwrap();
    assert_eq!(after.run_count, 1);
    assert_eq!(after.status, TaskStatus::Completed);
    assert!(after.next_run.unwrap() > 2_000);
    assert!(s.list_running_tasks().is_empty());
}

#[test]
fn failed_and_erroring_runs() {
    let mut s = CronTaskScheduler::new();
    let t = s.add_task("t".to_string(), "t".to_string(), EVERY_MINUTE.to_string()).unwrap();
    s.start_run(t.id, Vec::new(), 1, 10).unwrap();
    let failed = TaskExecutionResult::success(t.id, String::new(), "bad".to_string(), 3, 20);
    let i = s.finish_run(1, Ok(failed), 20).unwrap();
    assert_eq!(i.status, TaskStatus::Failed);
    assert_eq!(s.get_task(t.id).unwrap().status, TaskStatus::Failed);
    assert_eq!(s.get_task(t.id).unwrap().run_count, 0);

    s.start_run(t.id, Vec::new(), 2, 30).unwrap();
    let e = s.finish_run(2, Err("executor crashed".to_string()), 40).unwrap();
    assert_eq!(e.status, TaskStatus::Error);
    assert_eq!(e.result.unwrap().error, Some("executor crashed".to_string()));
    assert_eq!(s.get_task(t.id).unwrap().status, TaskStatus::Error);
    assert!(matches!(s.finish_run(2, ok_result(t.id), 50), Err(SchedulerError::InvalidState(_))));
}

#[test]
fn run_without_executor_is_refused() {
    let mut store = MemorySchedulerStorage::new();
    let mut first = PersistentCronTaskScheduler::new();
    let t = first.add_task("t".to_string(), "t".to_string(), EVERY_MINUTE.to_string()).unwrap();
    for task in first.load_tasks() {
        store.save_task(&task);
    }
    let mut p = PersistentCronTaskScheduler::from_storage(store, 5_000);
    assert!(matches!(p.start_run(t.id, Vec::new(), 3, 6_000), Err(SchedulerError::ExecutorMissing(x)) if x == t.id));
    p.register_executor(t.id);
    assert!(p.start_run(t.id, Vec::new(), 3, 6_000).is_ok());
}

#[test]
fn update_replaces_cron_and_next_run() {
    let mut s = CronTaskScheduler::new();
    let t = s.add_task("t".to_string(), "t".to_string(), EVERY_MINUTE.to_string()).unwrap();
    let mut req = update(t.id);
    req.cron_expression = Some("0 */5 * * * *".to_string());
    // 2024-01-01T00:01:00Z
    let now = 1_704_067_260_000;
    let u = s.update_task_at(req, now).unwrap();
    assert_eq!(u.cron_expression, "0 */5 * * * *");
    assert_eq!(u.next_run, Some(1_704_067_500_000));
    let g = s.get_task(t.id).unwrap();
    assert_eq!(g.cron_expression, "0 */5 * * * *");
    assert_eq!(g.next_run, Some(1_704_067_500_000));
    // a minute later the old every-minute schedule would fire; the new one does not
    assert!(s.due_tasks(now + 60_000).is_empty());
    assert_eq!(s.due_tasks(1_704_067_500_000), vec![t.id]);
}

#[test]
fn update_enabled_flag_moves_status() {
    let mut s = CronTaskScheduler::new();
    let t = s.add_task("t".to_string(), "t".to_string(), EVERY_MINUTE.to_string()).unwrap();
    let mut req = update(t.id);
    req.enabled = Some(false);
    req.description = Some("d".to_string());
    let u = s.update_task_at(req, 0).unwrap();
    assert_eq!(u.status, TaskStatus::Paused);
    assert_eq!(u.description, Some("d".to_string()));
    let mut req = update(t.id);
    req.enabled = Some(true);
    let u = s.update_task_at(req, 0).unwrap();
    assert_eq!(u.status, TaskStatus::Pending);
    assert!(u.enabled);
}

#[test]
fn stop_of_a_completed_instance_is_invalid_state() {
    let mut s = CronTaskScheduler::new();
    let t = s.add_task("t".to_string(), "t".to_string(), EVERY_MINUTE.to_string()).unwrap();
    s.start_run(t.id, Vec::new(), 5, 100).unwrap();
    s.finish_run(5, ok_result(t.id), 200).unwrap();
    let before = s.get_run_instance(5).unwrap();
    assert!(matches!(s.stop_task_at(5, 300), Err(SchedulerError::InvalidState(_))));
    let after = s.get_run_instance(5).unwrap();
    assert_eq!(after.status, before.status);
    assert_eq!(after.completed_at, before.completed_at);
    assert_eq!(after.status, TaskStatus::Completed);
}

#[test]
fn stop_of_a_running_instance() {
    let mut s = CronTaskScheduler::new();
    let t = s.add_task("t".to_string(), "t".to_string(), EVERY_MINUTE.to_string()).unwrap();
    s.start_run(t.id, Vec::new(), 5, 100).unwrap();
    s.stop_task_at(5, 150).unwrap();
    let i = s.get_run_instance(5).unwrap();
    assert_eq!(i.status, TaskStatus::Failed);
    assert_eq!(i.completed_at, Some(150));
    assert_eq!(i.result.unwrap().error, Some("Task stopped by user".to_string()));
    assert_eq!(s.get_task(t.id).unwrap().status, TaskStatus::Failed);
    assert!(matches!(s.finish_run(5, ok_result(t.id), 200), Err(SchedulerError::InvalidState(_))));
}

#[test]
fn logs_filter_by_instance_and_level() {
    let mut s = CronTaskScheduler::new();
    s.add_log_at(1, 10, LogLevel::Info, "a".to_string(), 3);
    s.add_log_at(2, 11, LogLevel::Info, "b".to_string(), 1);
    s.add_log_at(3, 10, LogLevel::Error, "c".to_string(), 2);
    let all = s.get_instance_logs(10, None);
    assert_eq!(all.len(), 2);
    assert_eq!(all[0].message, "c");
    assert_eq!(all[1].message, "a");
    s.add_log_at(4, 10, LogLevel::Info, "d".to_string(), 2);
    let all = s.get_instance_logs(10, None);
    let order: Vec<&str> = all.iter().map(|l| l.message.as_str()).collect();
    assert_eq!(order, vec!["c", "d", "a"]);
    let errors = s.get_instance_logs(10, Some(LogLevel::Error));
    assert_eq!(errors.len(), 1);
    assert_eq!(errors[0].id, 3);
}

#[test]
fn briefing_shows_at_most_five_instances() {
    let mut s = CronTaskScheduler::new();
    let t = s.add_task("t".to_string(), "t".to_string(), EVERY_MINUTE.to_string()).unwrap();
    for k in 0..7u128 {
        s.start_run(t.id, Vec::new(), 100 + k, 10).unwrap();
        s.finish_run(100 + k, ok_result(t.id), 25).unwrap();
    }
    let b = s.get_task_briefing(t.id).unwrap();
    assert_eq!(b.recent_instances.len(), 5);
    assert_eq!(b.run_count, 7);
    assert_eq!(b.recent_instances[0].id, 106);
    assert_eq!(b.recent_instances[4].id, 102);
    assert!(b.recent_instances[0].success);
    assert_eq!(b.recent_instances[0].duration_ms, Some(15));
    assert_eq!(s.get_task_instances(t.id).len(), 7);
}

#[test]
fn remove_takes_instances_and_logs_along() {
    let mut s = CronTaskScheduler::new();
    let a = s.add_task("a".to_string(), "a".to_string(), EVERY_MINUTE.to_string()).unwrap();
    let b = s.add_task("b".to_string(), "b".to_string(), EVERY_MINUTE.to_string()).unwrap();
    s.start_run(a.id, Vec::new(), 1, 0).unwrap();
    s.start_run(b.id, Vec::new(), 2, 0).unwrap();
    s.add_log_at(11, 1, LogLevel::Info, "a".to_string(), 0);
    s.add_log_at(12, 2, LogLevel::Info, "b".to_string(), 0);
    s.remove_task(a.id).unwrap();
    assert!(s.get_task(a.id).is_err());
    assert!(s.get_run_instance(1).is_err());
    assert!(s.get_instance_logs(1, None).is_empty());
    assert!(s.get_run_instance(2).is_ok());
    assert_eq!(s.get_instance_logs(2, None).len(), 1);
    assert!(!s.has_executor(a.id));
    assert!(s.has_executor(b.id));
}

#[test]
fn clear_all_reports_counts() {
    let mut p = PersistentCronTaskScheduler::new();
    let mut ids = Vec::new();
    for k in 0..3 {
        let t = p.add_task(format!("t{}", k), format!("t{}", k), EVERY_MINUTE.to_string()).unwrap();
        ids.push(t.id);
    }
    p.start_run(ids[0], Vec::new(), 1, 0).unwrap();
    p.start_run(ids[1], Vec::new(), 2, 0).unwrap();
    for k in 0..5u128 {
        p.add_log_at(100 + k, 1, LogLevel::Info, "x".to_string(), 0);
    }
    assert_eq!(p.clear_all_tasks(), (3, 2, 5));
    assert!(p.list_tasks().is_empty());
    assert!(p.load_tasks().is_empty());
}

#[test]
fn registry_clear_returns_task_count() {
    let mut s = CronTaskScheduler::new();
    s.add_task("a".to_string(), "a".to_string(), EVERY_MINUTE.to_string()).unwrap();
    s.add_task("b".to_string(), "b".to_string(), EVERY_MINUTE.to_string()).unwrap();
    assert_eq!(s.clear_all_tasks(), 2);
    assert!(s.list_tasks().is_empty());
    s.start();
    assert!(s.is_running());
    s.stop();
    assert!(!s.is_running());
}

#[test]
fn stored_task_round_trips_into_a_fresh_registry() {
    let mut p = PersistentCronTaskScheduler::new();
    let t = p
        .add_task_full("t".to_string(), "n".to_string(), Some("d".to_string()), Some("echo".to_string()), EVERY_MINUTE.to_string())
        .unwrap();
    p.pause_task(t.id).unwrap();
    let paused = p.get_task(t.id).unwrap();
    let store = p.into_storage();
    // 2024-01-01T00:00:30Z
    let q = PersistentCronTaskScheduler::from_storage(store, 1_704_067_230_000);
    let back = q.get_task(t.id).unwrap();
    assert_eq!(back.id, paused.id);
    assert_eq!(back.title, paused.title);
    assert_eq!(back.name, paused.name);
    assert_eq!(back.description, paused.description);
    assert_eq!(back.content, paused.content);
    assert_eq!(back.cron_expression, paused.cron_expression);
    assert_eq!(back.status, TaskStatus::Paused);
    assert_eq!(back.created_at, paused.created_at);
    assert_eq!(back.run_count, paused.run_count);
    assert_eq!(back.enabled, paused.enabled);
    assert_eq!(back.next_run, paused.next_run);
    let mut q = q;
    q.resume_task(t.id).unwrap();
    let store = q.into_storage();
    let r = PersistentCronTaskScheduler::from_storage(store, 1_704_067_230_000);
    assert_eq!(r.get_task(t.id).unwrap().next_run, Some(1_704_067_260_000));
}

#[test]
fn memory_store_records() {
    let mut st = MemorySchedulerStorage::new();
    let mut s = CronTaskScheduler::new();
    let t = s.add_task("t".to_string(), "t".to_string(), EVERY_MINUTE.to_string()).unwrap();
    st.save_task(&t);
    st.save_task(&t);
    assert_eq!(st.list_tasks().len(), 1);
    assert_eq!(st.load_task(t.id).unwrap().title, "t");
    let inst = s.start_run(t.id, Vec::new(), 9, 0).unwrap();
    st.save_run_instance(&inst);
    assert_eq!(st.list_run_instances(t.id).len(), 1);
    assert_eq!(st.load_run_instance(9).unwrap().status, TaskStatus::Running);
    st.save_log(&TaskLog::info(1, 9, "late".to_string(), 50));
    st.save_log(&TaskLog::info(2, 9, "early".to_string(), 10));
    st.save_log(&TaskLog::info(3, 8, "other".to_string(), 0));
    let logs = st.list_logs(9);
    assert_eq!(logs.len(), 2);
    assert_eq!(logs[0].message, "early");
    assert_eq!(logs[1].message, "late");
    st.delete_logs(9);
    assert!(st.list_logs(9).is_empty());
    st.delete_run_instances(t.id);
    assert!(st.load_run_instance(9).is_none());
    st.delete_task(t.id);
    assert!(st.load_task(t.id).is_none());
    assert_eq!(st.clear_all_logs(), 1);
    assert_eq!(st.clear_all_instances(), 0);
    assert_eq!(st.clear_all_tasks(), 0);
}

#[test]
fn log_sort_is_stable() {
    let logs = vec![
        TaskLog::info(1, 1, "b".to_string(), 5),
        TaskLog::info(2, 1, "a".to_string(), 1),
        TaskLog::info(3, 1, "c".to_string(), 5),
    ];
    let sorted = sort_logs_by_time(logs);
    let ids: Vec<u128> = sorted.iter().map(|l| l.id).collect();
    assert_eq!(ids, vec![2, 1, 3]);
}

#[test]
fn record_keys_and_prefix_scan() {
    let id: u128 = 0x550e8400_e29b_41d4_a716_446655440000;
    assert_eq!(task_record_key(id), "task:550e8400-e29b-41d4-a716-446655440000");
    assert_eq!(instance_record_key(id), "instance:550e8400-e29b-41d4-a716-446655440000");
    assert_eq!(log_record_key(id), "log:550e8400-e29b-41d4-a716-446655440000");
    assert!(starts_with("task:1", "task:"));
    assert!(!starts_with("tas", "task:"));
    let keys = vec!["task:1".to_string(), "log:2".to_string(), "task:3".to_string(), "instance:4".to_string()];
    assert_eq!(keys_with_prefix(&keys, "task:"), vec!["task:1".to_string(), "task:3".to_string()]);
    assert!(keys_with_prefix(&keys, "index:").is_empty());
}

#[test]
fn hook_pipeline_decisions() {
    assert_eq!(hook_points_after(TaskStatus::Completed), vec![HookPoint::AfterRun, HookPoint::OnSuccess]);
    assert_eq!(hook_points_after(TaskStatus::Failed), vec![HookPoint::AfterRun, HookPoint::OnFailure]);
    assert_eq!(hook_points_after(TaskStatus::Error), vec![HookPoint::AfterRun, HookPoint::OnError]);
    assert!(settle_before_run(vec![Ok(()), Ok(())]).is_ok());
    let r = settle_before_run(vec![Ok(()), Err(HookError::CallbackError("veto".to_string())), Err(HookError::HookNotFound("x".to_string()))]);
    assert!(matches!(r, Err(HookError::CallbackError(m)) if m == "veto"));

    let empty = settle_on_error(Vec::new()).ok().unwrap();
    assert!(empty.description.is_empty());
    let s1 = ErrorRecoverySuggestion { description: "first".to_string(), fix_command: None, create_recovery_task: false, recovery_cron: None };
    let s2 = ErrorRecoverySuggestion { description: "last".to_string(), fix_command: Some("fix".to_string()), create_recovery_task: true, recovery_cron: Some(EVERY_MINUTE.to_string()) };
    let got = settle_on_error(vec![Ok(s1), Ok(s2)]).ok().unwrap();
    assert_eq!(got.description, "last");
    assert!(got.create_recovery_task);
}

#[test]
fn test_error_display() {
    let error = SchedulerError::JobNotFound(uuid::Uuid::nil().as_u128());
    assert!(error.to_string().contains("Job not found"));

    let error = SchedulerError::InvalidCronExpression("invalid".to_string());
    assert!(error.to_string().contains("Invalid cron expression"));

    let error = SchedulerError::SchedulerError("test error".to_string());
    assert!(error.to_string().contains("Scheduler error"));

    let error = SchedulerError::ExecutionError("execution failed".to_string());
    assert!(error.to_string().contains("Job execution error"));
}

#[test]
fn error_messages_name_the_id() {
    assert_eq!(
        SchedulerError::JobNotFound(0).to_string(),
        "Job not found: 00000000-0000-0000-0000-000000000000"
    );
    assert_eq!(SchedulerError::InvalidState("x".to_string()).to_string(), "Invalid state: x");
}

#[test]
fn due_tasks_fire_once_and_skip_paused_and_system() {
    let mut s = CronTaskScheduler::new();
    let a = s.register_task(1, 0, "a".to_string(), "a".to_string(), None, None, EVERY_MINUTE.to_string(), false).unwrap();
    let b = s.register_task(2, 0, "b".to_string(), "b".to_string(), None, None, EVERY_MINUTE.to_string(), false).unwrap();
    let c = s.register_task(3, 0, "c".to_string(), "c".to_string(), None, None, EVERY_MINUTE.to_string(), true).unwrap();
    assert_eq!(a.next_run, Some(60_000));
    s.pause_task(b.id).unwrap();
    // long after several missed firings: each task is due once
    assert_eq!(s.due_tasks(10 * 60_000), vec![a.id]);
    assert!(s.due_tasks(59_999).is_empty());
    s.start_run(a.id, Vec::new(), 50, 10 * 60_000).unwrap();
    s.finish_run(50, ok_result(a.id), 10 * 60_000).unwrap();
    assert_eq!(s.get_task(a.id).unwrap().next_run, Some(11 * 60_000));
    assert!(s.due_tasks(10 * 60_000).is_empty());
    assert!(c.is_system);
}

#[test]
fn no_next_run_beyond_the_schedulable_range() {
    assert_eq!(next_fire_after(EVERY_MINUTE, i64::MAX), None);
    let mut s = CronTaskScheduler::new();
    let t = s.register_task(4, i64::MAX, "t".to_string(), "t".to_string(), None, None, EVERY_MINUTE.to_string(), false).unwrap();
    assert_eq!(t.next_run, None);
    assert!(s.due_tasks(i64::MAX).is_empty());
}

#[test]
fn run_count_stops_at_its_largest_value() {
    let mut s = CronTaskScheduler::new();
    let mut t = s.register_task(4, 0, "t".to_string(), "t".to_string(), None, None, EVERY_MINUTE.to_string(), false).unwrap();
    t.run_count = u64::MAX;
    s.restore_task(t, 0);
    s.register_executor(4);
    s.start_run(4, Vec::new(), 8, 0).unwrap();
    s.finish_run(8, ok_result(4), 0).unwrap();
    assert_eq!(s.get_task(4).unwrap().run_count, u64::MAX);
}

#[test]
fn instance_id_in_use_is_refused() {
    let mut s = CronTaskScheduler::new();
    let t = s.add_task("t".to_string(), "t".to_string(), EVERY_MINUTE.to_string()).unwrap();
    s.start_run(t.id, Vec::new(), 1, 0).unwrap();
    assert!(matches!(s.start_run(t.id, Vec::new(), 1, 0), Err(SchedulerError::InvalidState(_))));
    assert_eq!(s.get_task_instances(t.id).len(), 1);
}

#[test]
fn persistent_remove_clears_stored_records() {
    let mut p = PersistentCronTaskScheduler::new();
    let a = p.add_task("a".to_string(), "a".to_string(), EVERY_MINUTE.to_string()).unwrap();
    let b = p.add_task("b".to_string(), "b".to_string(), EVERY_MINUTE.to_string()).unwrap();
    p.start_run(a.id, Vec::new(), 1, 0).unwrap();
    p.start_run(b.id, Vec::new(), 2, 0).unwrap();
    p.add_log_at(10, 1, LogLevel::Info, "a".to_string(), 0);
    p.add_log_at(11, 2, LogLevel::Info, "b".to_string(), 0);
    p.remove_task(a.id).unwrap();
    let store = p.into_storage();
    assert!(store.load_task(a.id).is_none());
    assert!(store.load_run_instance(1).is_none());
    assert!(store.list_logs(1).is_empty());
    assert_eq!(store.list_logs(2).len(), 1);
    assert!(store.load_task(b.id).is_some());
}

#[test]
fn reloaded_scheduler_sees_stored_runs_and_logs() {
    let mut p = PersistentCronTaskScheduler::new();
    let t = p.add_task("t".to_string(), "t".to_string(), EVERY_MINUTE.to_string()).unwrap();
    p.start_run(t.id, Vec::new(), 1, 100).unwrap();
    p.start_run(t.id, Vec::new(), 2, 200).unwrap();
    p.finish_run(2, ok_result(t.id), 300).unwrap();
    p.add_log_at(10, 1, LogLevel::Info, "late".to_string(), 50);
    p.add_log_at(11, 1, LogLevel::Error, "early".to_string(), 20);
    let store = p.into_storage();

    let mut q = PersistentCronTaskScheduler::from_storage(store, 1_000);
    assert_eq!(q.get_run_instance(1).unwrap().status, TaskStatus::Running);
    assert_eq!(q.get_task_instances(t.id).len(), 2);
    let b = q.get_task_briefing(t.id).unwrap();
    assert_eq!(b.recent_instances.len(), 2);
    assert_eq!(b.recent_instances[0].id, 2);
    let logs = q.get_instance_logs(1, None);
    let order: Vec<&str> = logs.iter().map(|l| l.message.as_str()).collect();
    assert_eq!(order, vec!["early", "late"]);
    assert_eq!(q.get_instance_logs(1, Some(LogLevel::Error)).len(), 1);
    // a line held by both the registry and the store is listed once
    q.add_log_at(12, 1, LogLevel::Info, "again".to_string(), 60);
    assert_eq!(q.get_instance_logs(1, None).len(), 3);
    q.stop_task_at(1, 2_000).unwrap();
    assert_eq!(q.get_run_instance(1).unwrap().status, TaskStatus::Failed);
    assert!(matches!(q.stop_task_at(2, 2_000), Err(SchedulerError::InvalidState(_))));
    assert!(matches!(q.get_run_instance(99), Err(SchedulerError::RunInstanceNotFound(99))));
}

#[test]
fn stop_without_a_time_closes_the_run() {
    let mut s = CronTaskScheduler::new();
    let t = s.add_task("t".to_string(), "t".to_string(), EVERY_MINUTE.to_string()).unwrap();
    s.start_run(t.id, Vec::new(), 5, 100).unwrap();
    s.stop_task(5).unwrap();
    let i = s.get_run_instance(5).unwrap();
    assert_eq!(i.status, TaskStatus::Failed);
    assert!(i.completed_at.is_some());
    assert_eq!(s.get_task(t.id).unwrap().status, TaskStatus::Failed);
    assert!(matches!(s.stop_task(5), Err(SchedulerError::InvalidState(_))));
}

#[test]
fn five_field_expressions_fire_at_second_zero() {
    assert!(validate_cron("*/5 * * * *").is_ok());
    // 2024-01-01T00:00:30Z, next multiple of five minutes
    assert_eq!(next_fire_after("*/5 * * * *", 1_704_067_230_000), Some(1_704_067_500_000));
    let mut s = CronTaskScheduler::new();
    let t = s.add_task("t".to_string(), "t".to_string(), "0 9 * * *".to_string()).unwrap();
    assert!(t.next_run.unwrap() > t.created_at);
    assert!(t.last_run.is_none());
}

#[test]
fn briefing_picks_runs_by_start_time() {
    let task = ScheduledTask::new(1, "t".to_string(), "t".to_string(), EVERY_MINUTE.to_string(), None, None, 0);
    // the first one listed started last
    let mut runs = vec![TaskRunInstance::new(100, 1, Vec::new(), 900)];
    for k in 0..5u128 {
        runs.push(TaskRunInstance::new(k, 1, Vec::new(), (k as i64) * 10));
    }
    let b = TaskBriefing::from_task(&task, runs);
    let ids: Vec<u128> = b.recent_instances.iter().map(|r| r.id).collect();
    assert_eq!(ids, vec![100, 4, 3, 2, 1]);
}
