use task_scheduler::platform::{Architecture, PlatformError, PlatformInfo, OS};

#[test]
fn test_architecture_from_str() {
    assert_eq!(Architecture::from("x86_64"), Architecture::X86_64);
    assert_eq!(Architecture::from("amd64"), Architecture::X86_64);
    assert_eq!(Architecture::from("aarch64"), Architecture::AArch64);
    assert_eq!(Architecture::from("arm64"), Architecture::AArch64);
    assert_eq!(Architecture::from("unknown"), Architecture::Unknown);
}

#[test]
fn test_platform_info_default() {
    let info = PlatformInfo::default();
    assert_eq!(info.os, OS::Unknown);
    assert_eq!(info.arch, Architecture::Unknown);
    assert!(info.version.is_empty());
}

#[test]
fn test_os_default() {
    assert_eq!(OS::default(), OS::Unknown);
}

#[test]
fn test_architecture_default() {
    assert_eq!(Architecture::default(), Architecture::Unknown);
}

#[test]
fn test_os_equality() {
    assert_eq!(OS::Linux, OS::Linux);
    assert_ne!(OS::Linux, OS::Windows);
}

#[test]
fn test_architecture_equality() {
    assert_eq!(Architecture::X86_64, Architecture::X86_64);
    assert_ne!(Architecture::X86_64, Architecture::AArch64);
}

#[test]
fn architecture_names_are_exact() {
    assert_eq!(Architecture::from("x86"), Architecture::X86_64);
    assert_eq!(Architecture::from("X86_64"), Architecture::Unknown);
    assert_eq!(Architecture::from(""), Architecture::Unknown);
}

#[test]
fn platform_error_messages() {
    assert_eq!(PlatformError::Unsupported.to_string(), "Unsupported operation on this platform");
    assert_eq!(PlatformError::Other("x".to_string()).to_string(), "Platform error: x");
}
