use task_scheduler::types::{
    LogLevel, ScheduledTask, TaskExecutionResult, TaskLog, TaskRunInstance, TaskStatus, TaskUpdateRequest,
};

fn fresh_id() -> u128 {
    uuid::Uuid::new_v4().as_u128()
}

#[test]
fn test_task_status_display() {
    assert_eq!(TaskStatus::Pending.to_string(), "Pending");
    assert_eq!(TaskStatus::Running.to_string(), "Running");
    assert_eq!(TaskStatus::Completed.to_string(), "Completed");
    assert_eq!(TaskStatus::Failed.to_string(), "Failed");
    assert_eq!(TaskStatus::Error.to_string(), "Error");
    assert_eq!(TaskStatus::Expired.to_string(), "Expired");
    assert_eq!(TaskStatus::Paused.to_string(), "Paused");
}

#[test]
fn test_log_level_display() {
    assert_eq!(LogLevel::Debug.to_string(), "DEBUG");
    assert_eq!(LogLevel::Info.to_string(), "INFO");
    assert_eq!(LogLevel::Warn.to_string(), "WARN");
    assert_eq!(LogLevel::Error.to_string(), "ERROR");
}

#[test]
fn test_scheduled_task_creation() {
    let task = ScheduledTask::new(
        fresh_id(),
        "Test Task".to_string(),
        "test_task".to_string(),
        "* * * * *".to_string(),
        Some("Test description".to_string()),
        Some("echo hello".to_string()),
        1_700_000_000_000,
    );

    assert_eq!(task.title, "Test Task");
    assert_eq!(task.name, "test_task");
    assert_eq!(task.cron_expression, "* * * * *");
    assert_eq!(task.status, TaskStatus::Pending);
    assert!(task.enabled);
    assert!(!task.is_system);
    assert_eq!(task.run_count, 0);
}

#[test]
fn test_scheduled_system_task_creation() {
    let task = ScheduledTask::new_system(
        fresh_id(),
        "System Task".to_string(),
        "system_task".to_string(),
        "0 * * * *".to_string(),
        Some("System task description".to_string()),
        Some("echo system".to_string()),
        1_700_000_000_000,
    );

    assert_eq!(task.title, "System Task");
    assert!(task.is_system);
}

#[test]
fn test_task_run_instance() {
    let params = vec![("user".to_string(), "admin".to_string())];

    let mut instance = TaskRunInstance::new(fresh_id(), fresh_id(), params.clone(), 1_000);
    assert_eq!(instance.status, TaskStatus::Pending);
    assert_eq!(instance.user_params[0].1, "admin".to_string());

    instance.mark_running();
    assert_eq!(instance.status, TaskStatus::Running);

    let result = TaskExecutionResult::success(instance.task_id, "output".to_string(), "".to_string(), 0, 2_000);
    instance.mark_completed(result, 2_000);
    assert_eq!(instance.status, TaskStatus::Completed);
    assert!(instance.completed_at.is_some());
}

#[test]
fn test_task_log_creation() {
    let run_id = fresh_id();
    let log = TaskLog::info(fresh_id(), run_id, "Task started".to_string(), 5);

    assert_eq!(log.run_instance_id, run_id);
    assert_eq!(log.level, LogLevel::Info);
    assert_eq!(log.message, "Task started");
}

#[test]
fn test_task_execution_result() {
    let task_id = fresh_id();
    let result = TaskExecutionResult::success(task_id, "hello world".to_string(), "".to_string(), 0, 10);

    assert!(result.success);
    assert_eq!(result.stdout, Some("hello world".to_string()));
    assert_eq!(result.exit_code, Some(0));

    let failed_result = TaskExecutionResult::failure(task_id, "Command failed".to_string(), 10);

    assert!(!failed_result.success);
    assert_eq!(failed_result.error, Some("Command failed".to_string()));
}

#[test]
fn test_task_update_request_validation() {
    let req = TaskUpdateRequest {
        id: fresh_id(),
        title: Some("New Title".to_string()),
        description: None,
        content: None,
        cron_expression: None,
        enabled: None,
    };
    assert!(req.validate().is_ok());

    let req_empty_title = TaskUpdateRequest {
        id: fresh_id(),
        title: Some("".to_string()),
        description: None,
        content: None,
        cron_expression: None,
        enabled: None,
    };
    assert!(req_empty_title.validate().is_err());
}

#[test]
fn nonzero_exit_is_a_failure_with_stderr_as_error() {
    let r = TaskExecutionResult::success(7, "out".to_string(), "boom".to_string(), 2, 10);
    assert!(!r.success);
    assert_eq!(r.error, Some("boom".to_string()));
    assert_eq!(r.exit_code, Some(2));
}

#[test]
fn duration_of_a_result_and_of_an_instance() {
    let mut r = TaskExecutionResult::failure(1, "x".to_string(), 100);
    r.completed_at = Some(350);
    assert_eq!(r.duration_ms(), Some(250));
    r.completed_at = None;
    assert_eq!(r.duration_ms(), None);
    r.started_at = i64::MIN;
    r.completed_at = Some(i64::MAX);
    assert_eq!(r.duration_ms(), None);

    let mut inst = TaskRunInstance::new(1, 2, Vec::new(), 1_000);
    assert_eq!(inst.duration_ms(), None);
    inst.mark_error("broken".to_string(), 1_500);
    assert_eq!(inst.status, TaskStatus::Error);
    assert_eq!(inst.duration_ms(), Some(500));
    let res = inst.result.clone().unwrap();
    assert_eq!(res.error, Some("broken".to_string()));
    assert!(!res.success);
}

#[test]
fn failed_result_marks_instance_failed() {
    let mut inst = TaskRunInstance::new(1, 2, Vec::new(), 0);
    inst.mark_running();
    inst.mark_completed(TaskExecutionResult::failure(2, "no".to_string(), 3), 3);
    assert_eq!(inst.status, TaskStatus::Failed);
    assert_eq!(inst.completed_at, Some(3));
}

#[test]
fn empty_cron_in_update_request_is_rejected() {
    let req = TaskUpdateRequest {
        id: 1,
        title: None,
        description: None,
        content: None,
        cron_expression: Some(String::new()),
        enabled: None,
    };
    assert_eq!(req.validate(), Err("Cron expression cannot be empty"));
    let req2 = TaskUpdateRequest { title: Some(String::new()), ..req };
    assert_eq!(req2.validate(), Err("Title cannot be empty"));
}

#[test]
fn log_constructors_set_their_level() {
    assert_eq!(TaskLog::debug(1, 2, "a".to_string(), 0).level, LogLevel::Debug);
    assert_eq!(TaskLog::warn(1, 2, "a".to_string(), 0).level, LogLevel::Warn);
    assert_eq!(TaskLog::error(1, 2, "a".to_string(), 0).level, LogLevel::Error);
    assert_eq!(LogLevel::default(), LogLevel::Info);
    assert_eq!(TaskStatus::default(), TaskStatus::Pending);
}
