//! Power management: machine power states, wake-up settings and their errors.

use vstd::prelude::*;

verus! {

/// A span of time: whole seconds and the nanoseconds beyond them.
#[derive(Debug, Clone, Copy, PartialEq, Eq, Structural)]
pub struct Duration {
    pub secs: u64,
    pub nanos: u32,
}

impl Duration {
    pub fn from_secs(secs: u64) -> (r: Self)
        ensures
            r.secs == secs,
            r.nanos == 0,
    {
        Duration { secs, nanos: 0 }
    }

    pub fn as_secs(&self) -> (r: u64)
        ensures
            r == self.secs,
    {
        self.secs
    }
}

/// Why a power operation failed.
#[derive(Debug)]
pub enum PowerError {
    Unsupported,
    PermissionDenied(String),
    OperationFailed(String),
    InvalidWakeTime(String),
    InvalidConfig(String),
    PlatformError(String),
    RtcWakeNotAvailable(String),
}

impl PowerError {
    pub open spec fn text(&self) -> Seq<char> {
        match self {
            PowerError::Unsupported => "Unsupported operation on this platform"@,
            PowerError::PermissionDenied(m) => "Permission denied: "@ + m@,
            PowerError::OperationFailed(m) => "Power operation failed: "@ + m@,
            PowerError::InvalidWakeTime(m) => "Invalid wake time: "@ + m@,
            PowerError::InvalidConfig(m) => "Invalid wake configuration: "@ + m@,
            PowerError::PlatformError(m) => "Platform error: "@ + m@,
            PowerError::RtcWakeNotAvailable(m) => "RTC wake not available: "@ + m@,
        }
    }

    pub fn to_string(&self) -> (r: String)
        ensures
            r@ == self.text(),
    {
        match self {
            PowerError::Unsupported => String::from_str("Unsupported operation on this platform"),
            PowerError::PermissionDenied(m) => String::from_str("Permission denied: ").concat(m.as_str()),
            PowerError::OperationFailed(m) => String::from_str("Power operation failed: ").concat(m.as_str()),
            PowerError::InvalidWakeTime(m) => String::from_str("Invalid wake time: ").concat(m.as_str()),
            PowerError::InvalidConfig(m) => String::from_str("Invalid wake configuration: ").concat(m.as_str()),
            PowerError::PlatformError(m) => String::from_str("Platform error: ").concat(m.as_str()),
            PowerError::RtcWakeNotAvailable(m) => String::from_str("RTC wake not available: ").concat(m.as_str()),
        }
    }
}

/// The power state a machine is in, or is asked to enter.
#[derive(Debug, Clone, Copy, PartialEq, Eq, Structural)]
pub enum PowerState {
    Awake,
    Sleep,
    Hibernate,
    Shutdown,
    Reboot,
}

impl Default for PowerState {
    fn default() -> (r: Self)
        ensures
            r == PowerState::Awake,
    {
        PowerState::Awake
    }
}

/// When and how to wake the machine.
#[derive(Debug, Clone, PartialEq, Eq)]
pub struct WakeConfig {
    /// Time from now until the wake-up.
    pub duration: Duration,
    pub label: Option<String>,
    /// Whether to use the hardware clock's alarm.
    pub enable_rtc: bool,
}

impl WakeConfig {
    /// A wake-up after `duration`, which must be at least one second.
    pub fn new(duration: Duration) -> (r: Result<Self, PowerError>)
        ensures
            r is Ok <==> duration.secs > 0,
            r matches Ok(c) ==> c.duration == duration && c.label is None && c.enable_rtc,
            r matches Err(e) ==> (e matches PowerError::InvalidWakeTime(m)
                && m@ == "Wake duration must be greater than 0"@),
    {
        if duration.as_secs() == 0 {
            return Err(PowerError::InvalidWakeTime(String::from_str("Wake duration must be greater than 0")));
        }
        Ok(WakeConfig { duration, label: None, enable_rtc: true })
    }

    /// As `new`, for a duration known to be valid.
    pub fn from_duration(duration: Duration) -> (r: Self)
        requires
            duration.secs > 0,
        ensures
            r.duration == duration,
            r.label is None,
            r.enable_rtc,
    {
        match Self::new(duration) {
            Ok(c) => c,
            Err(_) => WakeConfig { duration, label: None, enable_rtc: true },
        }
    }

    pub fn with_label(self, label: &str) -> (r: Self)
        ensures
            r.duration == self.duration,
            r.label matches Some(l) && l@ == label@,
            r.enable_rtc == self.enable_rtc,
    {
        WakeConfig { label: Some(String::from_str(label)), ..self }
    }

    pub fn with_rtc(self, enable: bool) -> (r: Self)
        ensures
            r.duration == self.duration,
            r.label == self.label,
            r.enable_rtc == enable,
    {
        WakeConfig { enable_rtc: enable, ..self }
    }
}

impl Default for WakeConfig {
    fn default() -> (r: Self)
        ensures
            r.duration == (Duration { secs: 60, nanos: 0 }),
            r.label is None,
            r.enable_rtc,
    {
        WakeConfig { duration: Duration::from_secs(60), label: None, enable_rtc: true }
    }
}

/// The platform's power operations.
#[derive(Debug, Clone, Copy)]
pub struct PowerManagementService;

impl PowerManagementService {
    pub fn new() -> (r: Self) {
        PowerManagementService
    }
}

/// The power manager of the local machine.
#[derive(Debug, Clone, Copy)]
pub struct LocalPowerManager {
    inner: PowerManagementService,
}

impl LocalPowerManager {
    pub fn new() -> (r: Self) {
        LocalPowerManager { inner: PowerManagementService::new() }
    }

    /// The machine is awake while this code runs.
    pub fn get_power_state(&self) -> (r: PowerState)
        ensures
            r == PowerState::Awake,
    {
        PowerState::Awake
    }
}

impl Default for LocalPowerManager {
    fn default() -> (r: Self) {
        Self::new()
    }
}

} // verus!
