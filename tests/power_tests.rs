use task_scheduler::power::{Duration, LocalPowerManager, PowerError, PowerState, WakeConfig};

#[test]
fn test_power_state_equality() {
    assert_eq!(PowerState::Awake, PowerState::Awake);
    assert_eq!(PowerState::Sleep, PowerState::Sleep);
    assert_ne!(PowerState::Sleep, PowerState::Hibernate);
    assert_ne!(PowerState::Shutdown, PowerState::Reboot);
}

#[test]
fn test_power_state_default() {
    assert_eq!(PowerState::default(), PowerState::Awake);
}

#[test]
fn test_power_state_copy() {
    let state = PowerState::Sleep;
    let _copy = state;
    let _clone = state;
}

#[test]
fn test_power_state_clone() {
    let state = PowerState::Hibernate;
    let cloned = state.clone();
    assert_eq!(state, cloned);
}

#[test]
fn test_wake_config_new_valid() {
    let config = WakeConfig::new(Duration::from_secs(60));
    assert!(config.is_ok());
    let config = config.unwrap();
    assert_eq!(config.duration, Duration::from_secs(60));
    assert!(config.label.is_none());
    assert!(config.enable_rtc);
}

#[test]
fn test_wake_config_new_invalid() {
    let config = WakeConfig::new(Duration::from_secs(0));
    assert!(config.is_err());
    match config {
        Err(PowerError::InvalidWakeTime(_)) => {}
        _ => panic!("Expected InvalidWakeTime error"),
    }
}

#[test]
fn test_wake_config_from_duration() {
    let config = WakeConfig::from_duration(Duration::from_secs(120));
    assert_eq!(config.duration, Duration::from_secs(120));
}

#[test]
fn test_wake_config_with_label() {
    let config = WakeConfig::from_duration(Duration::from_secs(60)).with_label("test wake");
    assert_eq!(config.label, Some("test wake".to_string()));
}

#[test]
fn test_wake_config_with_rtc() {
    let config = WakeConfig::from_duration(Duration::from_secs(60)).with_rtc(false);
    assert!(!config.enable_rtc);
}

#[test]
fn test_wake_config_default() {
    let config = WakeConfig::default();
    assert_eq!(config.duration, Duration::from_secs(60));
    assert!(config.label.is_none());
    assert!(config.enable_rtc);
}

#[test]
fn test_power_error_display() {
    assert!(PowerError::Unsupported.to_string().contains("Unsupported"));

    let err = PowerError::PermissionDenied("test".to_string());
    assert!(err.to_string().contains("Permission denied"));

    let err = PowerError::OperationFailed("test".to_string());
    assert!(err.to_string().contains("failed"));

    let err = PowerError::InvalidWakeTime("test".to_string());
    assert!(err.to_string().contains("Invalid wake time"));

    let err = PowerError::InvalidConfig("test".to_string());
    assert!(err.to_string().contains("Invalid wake configuration"));

    let err = PowerError::PlatformError("test".to_string());
    assert!(err.to_string().contains("Platform error"));

    let err = PowerError::RtcWakeNotAvailable("test".to_string());
    assert!(err.to_string().contains("RTC wake not available"));
}

#[test]
fn test_local_power_manager_new() {
    let manager = LocalPowerManager::new();
    let _ = manager;
}

#[test]
fn test_local_power_manager_default() {
    let manager = LocalPowerManager::default();
    let _ = manager;
}

#[test]
fn power_error_full_messages() {
    assert_eq!(PowerError::PermissionDenied("root".to_string()).to_string(), "Permission denied: root");
    assert_eq!(
        PowerError::InvalidWakeTime("soon".to_string()).to_string(),
        "Invalid wake time: soon"
    );
    match WakeConfig::new(Duration::from_secs(0)) {
        Err(e) => assert_eq!(e.to_string(), "Invalid wake time: Wake duration must be greater than 0"),
        Ok(_) => panic!("zero duration accepted"),
    }
    assert_eq!(LocalPowerManager::new().get_power_state(), PowerState::Awake);
}
