use task_scheduler::cli::{add_fields, parse_log_level, parse_user_params, split_param};
use task_scheduler::daemon::{parse_pid, DaemonManager, DaemonStatus, PidFile};
use task_scheduler::model::CronExpression;
use task_scheduler::output::sanitize_task_name;
use task_scheduler::system::{create_scheduler, parse_u8, u8_to_string, LinuxSystemScheduler, MacosSystemScheduler, PlatformScheduler,
    SystemTaskManager, TaskSchedule, WindowsSystemScheduler};
use task_scheduler::platform::OS;
use task_scheduler::tools::ToolContent;
use task_scheduler::types::{LogLevel, ScheduledTask};

#[test]
fn test_sanitize_task_name() {
    assert_eq!(sanitize_task_name("hello-world"), "hello_world");
    assert_eq!(sanitize_task_name("test@123!"), "test_123_");
}

#[test]
fn sanitize_keeps_letters_digits_and_underscores() {
    assert_eq!(sanitize_task_name("a_b9"), "a_b9");
    assert_eq!(sanitize_task_name("echo hi"), "echo_hi");
    assert_eq!(sanitize_task_name(""), "");
}

#[test]
fn log_level_names_in_any_case() {
    assert_eq!(parse_log_level("debug"), Some(LogLevel::Debug));
    assert_eq!(parse_log_level("INFO"), Some(LogLevel::Info));
    assert_eq!(parse_log_level("Warn"), Some(LogLevel::Warn));
    assert_eq!(parse_log_level("eRRoR"), Some(LogLevel::Error));
    assert_eq!(parse_log_level("trace"), None);
    assert_eq!(parse_log_level(""), None);
}

#[test]
fn daemon_files_and_status() {
    let d = DaemonManager::new(Some("/home/u".to_string()));
    assert_eq!(d.pid_file(), "/home/u/.sker/daemon.pid");
    assert_eq!(d.log_file(), "/home/u/.sker/daemon.log");
    assert_eq!(DaemonManager::new(None).pid_file(), "./.sker/daemon.pid");
    assert_eq!(d.status(PidFile::Found(42), true), DaemonStatus::Running { pid: 42 });
    assert_eq!(d.status(PidFile::Found(42), false), DaemonStatus::Stale { pid: 42 });
    assert_eq!(d.status(PidFile::Missing, false), DaemonStatus::Stopped);
    assert_eq!(d.status(PidFile::Unreadable("bad".to_string()), true), DaemonStatus::Error("bad".to_string()));
}

#[test]
fn system_scheduler_names() {
    assert_eq!(LinuxSystemScheduler::new().get_task_comment("t1"), "# Sker_:t1");
    assert_eq!(MacosSystemScheduler::new().get_label("t1"), "com.sker.t1");
    assert_eq!(WindowsSystemScheduler::new().get_full_name("t1"), "Sker_t1");
    assert!(matches!(create_scheduler(OS::Linux), PlatformScheduler::Linux(_)));
    assert!(matches!(create_scheduler(OS::Windows), PlatformScheduler::Windows(_)));
    assert!(matches!(create_scheduler(OS::MacOS), PlatformScheduler::Macos(_)));
    assert!(matches!(create_scheduler(OS::Unknown), PlatformScheduler::Unsupported(_)));
}

#[test]
fn system_task_command_line() {
    let m = SystemTaskManager::with_exe_path("/usr/bin/sker".to_string()).unwrap();
    assert_eq!(m.exe_path(), "/usr/bin/sker");
    let id: u128 = 0x550e8400_e29b_41d4_a716_446655440000;
    assert_eq!(SystemTaskManager::get_task_name(id), "550e8400-e29b-41d4-a716-446655440000");
    assert_eq!(
        m.run_command(id),
        "\"/usr/bin/sker\" schedule run --run-id=550e8400-e29b-41d4-a716-446655440000"
    );
}

#[test]
fn command_line_cron_expression() {
    assert!(CronExpression::new("0 * * * *".to_string()).is_ok());
    assert_eq!(CronExpression::new("".to_string()).unwrap_err(), "Invalid cron expression");
    assert!(CronExpression::new("a=b".to_string()).is_err());
}

#[test]
fn tool_content_is_text() {
    let t = ToolContent::text("done".to_string());
    assert_eq!(t.content_type, "text");
    assert_eq!(t.text, Some("done".to_string()));
    let e = ToolContent::error("bad".to_string());
    assert_eq!(e.content_type, "text");
    assert_eq!(e.text, Some("bad".to_string()));
}

#[test]
fn test_task_name_generation() {
    let task_id = uuid::Uuid::parse_str("550e8400-e29b-41d4-a716-446655440000").unwrap().as_u128();
    let name = SystemTaskManager::get_task_name(task_id);
    assert_eq!(name, "550e8400-e29b-41d4-a716-446655440000");
}

#[test]
fn user_parameters_split_at_first_equals() {
    assert_eq!(split_param("a=b=c"), Some(("a".to_string(), "b=c".to_string())));
    assert_eq!(split_param("=x"), Some(("".to_string(), "x".to_string())));
    assert_eq!(split_param("novalue"), None);
    let user = vec!["user=admin".to_string(), "skip".to_string(), "env=prod".to_string(), "user=root".to_string()];
    assert_eq!(
        parse_user_params(&user),
        vec![("user".to_string(), "root".to_string()), ("env".to_string(), "prod".to_string())]
    );
    assert!(parse_user_params(&Vec::new()).is_empty());
}

#[test]
fn test_schedule_from_cron() {
    assert!(matches!(TaskSchedule::from_cron("0 9 * * *"), Some(TaskSchedule::Daily(_))));

    assert!(matches!(TaskSchedule::from_cron("0 9 * * 1"), Some(TaskSchedule::Weekly(_, _))));

    assert!(matches!(TaskSchedule::from_cron("0 9 1 * *"), Some(TaskSchedule::Monthly(_, _))));
}

#[test]
fn test_cron_to_schedule_conversion() {
    let schedule = TaskSchedule::from_cron("0 9 * * *");
    assert!(matches!(schedule, Some(TaskSchedule::Daily(_))));

    let schedule = TaskSchedule::from_cron("0 9 * * 1");
    assert!(matches!(schedule, Some(TaskSchedule::Weekly(_, _))));

    let schedule = TaskSchedule::from_cron("0 9 1 * *");
    assert!(matches!(schedule, Some(TaskSchedule::Monthly(_, _))));
}

#[test]
fn cron_lines_to_system_schedules() {
    assert!(matches!(TaskSchedule::from_cron("0 9 * * *"), Some(TaskSchedule::Daily(t)) if t == "09:00"));
    assert!(matches!(TaskSchedule::from_cron("30 14 * * 5"), Some(TaskSchedule::Weekly(t, 5)) if t == "14:30"));
    assert!(matches!(TaskSchedule::from_cron("5 * * * *"), Some(TaskSchedule::Hourly)));
    assert!(matches!(TaskSchedule::from_cron("* 7 15 6 *"), Some(TaskSchedule::Monthly(t, 15)) if t == "7:00"));
    assert!(matches!(TaskSchedule::from_cron("0 9 +3 * *"), Some(TaskSchedule::Monthly(_, 3))));
    assert!(TaskSchedule::from_cron("0 9 300 * *").is_none());
    assert!(TaskSchedule::from_cron("0 9 x * *").is_none());
    assert!(TaskSchedule::from_cron("0 9 * *").is_none());
    assert_eq!(parse_u8("255"), Some(255));
    assert_eq!(parse_u8("256"), None);
    assert_eq!(parse_u8("+"), None);
    assert_eq!(parse_u8("007"), Some(7));
}

#[test]
fn system_task_data_of_a_task() {
    let m = SystemTaskManager::with_exe_path("/bin/sker".to_string()).unwrap();
    let task = ScheduledTask::new(1, "t".to_string(), "t".to_string(), "0 9 * * *".to_string(), None, None, 0);
    let (name, command, schedule) = m.system_task_of(&task).unwrap();
    assert_eq!(name, "00000000-0000-0000-0000-000000000001");
    assert_eq!(command, "\"/bin/sker\" schedule run --run-id=00000000-0000-0000-0000-000000000001");
    assert!(matches!(schedule, TaskSchedule::Daily(t) if t == "09:00"));
    let bad = ScheduledTask::new(2, "t".to_string(), "t".to_string(), "* *".to_string(), None, None, 0);
    assert!(m.system_task_of(&bad).is_err());
}

#[test]
fn schtasks_arguments() {
    let w = WindowsSystemScheduler::new();
    assert_eq!(w.schedule_to_args(&TaskSchedule::Hourly).0, "HOURLY");
    assert_eq!(w.schedule_to_args(&TaskSchedule::Daily("09:00".to_string())).0, "DAILY /st 09:00");
    assert_eq!(w.schedule_to_args(&TaskSchedule::Weekly("09:00".to_string(), 7)).0, "WEEKLY /st 09:00 /d SUN");
    assert_eq!(w.schedule_to_args(&TaskSchedule::Weekly("09:00".to_string(), 9)).0, "WEEKLY /st 09:00 /d MON");
    assert_eq!(w.schedule_to_args(&TaskSchedule::Monthly("09:00".to_string(), 15)).0, "MONTHLY /st 09:00 /d 15");
    assert!(w.schedule_to_args(&TaskSchedule::Once("09:00".to_string())).1.is_empty());
    assert_eq!(
        w.create_args("t1", "run me", &TaskSchedule::Hourly),
        "/create /tn \"Sker_t1\" /tr \"run me\" /sc HOURLY /f"
    );
    assert_eq!(u8_to_string(0), "0");
    assert_eq!(u8_to_string(42), "42");
    assert_eq!(u8_to_string(255), "255");
}

#[test]
fn pid_file_contents() {
    assert_eq!(parse_pid("1234\n"), Some(1234));
    assert_eq!(parse_pid("  42  "), Some(42));
    assert_eq!(parse_pid("4294967295"), Some(u32::MAX));
    assert_eq!(parse_pid("4294967296"), None);
    assert_eq!(parse_pid(""), None);
    assert_eq!(parse_pid("12a"), None);
}

#[test]
fn add_arguments_defaults() {
    let (title, name, content) = add_fields("echo hi", None, None);
    assert_eq!(title, "echo hi");
    assert_eq!(name, "echo_hi");
    assert_eq!(content, Some("echo hi".to_string()));
    let (title, _, content) = add_fields("x", Some("T".to_string()), Some("run".to_string()));
    assert_eq!(title, "T");
    assert_eq!(content, Some("run".to_string()));
}

#[test]
fn created_schedulers_carry_their_prefix() {
    match create_scheduler(OS::Linux) {
        PlatformScheduler::Linux(l) => assert_eq!(l.get_task_comment("a"), "# Sker_:a"),
        _ => panic!("expected the crontab scheduler"),
    }
    match create_scheduler(OS::Windows) {
        PlatformScheduler::Windows(w) => assert_eq!(w.get_full_name("a"), "Sker_a"),
        _ => panic!("expected the Windows scheduler"),
    }
}
