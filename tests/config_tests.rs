use task_scheduler::config::{AppConfig, CliConfig, ExecutorConfig, StorageBackend, VoiceConfig};
use task_scheduler::power::PowerState;
use task_scheduler::types::TaskStatus;

#[test]
fn test_app_config_default() {
    let config = AppConfig::default();
    assert_eq!(config.cli.prompt, ">");
    assert_eq!(config.cli.colors, true);
    assert_eq!(config.executor.default_timeout_secs, 30);
}

#[test]
fn test_cli_config_default() {
    let config = CliConfig::default();
    assert_eq!(config.prompt, ">");
    assert!(config.colors);
    assert!(!config.verbose);
}

#[test]
fn test_executor_config_default() {
    let config = ExecutorConfig::default();
    assert_eq!(config.default_timeout_secs, 30);
    assert_eq!(config.max_concurrent, 10);
}

#[test]
fn test_storage_backend_equality() {
    assert_eq!(StorageBackend::Json, StorageBackend::Json);
    assert_ne!(StorageBackend::Json, StorageBackend::Sqlite);
}

#[test]
fn lib_test_voice_config_default() {
    let config = VoiceConfig::default();
    assert!(!config.enabled);
    assert_eq!(config.language, "en-US");
    assert_eq!(config.model, "whisper-tiny");
}

#[test]
fn test_app_config_export() {
    let config = AppConfig::default();
    assert_eq!(config.cli.prompt, ">");
}

#[test]
fn test_power_state_export() {
    let state = PowerState::Sleep;
    assert_eq!(state, PowerState::Sleep);
}

#[test]
fn test_task_status_export() {
    let status = TaskStatus::Pending;
    assert_eq!(status, TaskStatus::Pending);
}

#[test]
fn default_paths_and_limits() {
    let config = AppConfig::default();
    assert_eq!(config.scheduler.max_tasks, 100);
    assert_eq!(config.scheduler.persistence_path, "~/.config/rust-agent/tasks.json");
    assert_eq!(config.storage.backend, StorageBackend::Json);
    assert_eq!(config.storage.path, "~/.config/rust-agent/storage.json");
    assert_eq!(config.executor.shell, "sh");
}
