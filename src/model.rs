//! Plain records shared by the command-line tool: command schedules, power,
//! voice and file-system vocabulary.

use vstd::prelude::*;

verus! {

/// State of a scheduled command.
#[derive(Debug, Clone, PartialEq, Eq)]
pub enum TaskStatus {
    Idle,
    Running,
    Completed,
    Failed { error: String },
    Disabled,
}

/// Whether `c` occurs in `s`.
pub open spec fn has_char(s: Seq<char>, c: char) -> bool {
    exists|i: int| 0 <= i < s.len() && s[i] == c
}

pub fn contains_char(s: &str, c: char) -> (r: bool)
    ensures
        r == has_char(s@, c),
{
    let n = s.unicode_len();
    let mut i: usize = 0;
    while i < n
        invariant
            n == s@.len(),
            i <= n,
            forall|k: int| 0 <= k < i ==> s@[k] != c,
        decreases n - i,
    {
        if s.get_char(i) == c {
            return true;
        }
        i = i + 1;
    }
    false
}

/// A cron expression as the command-line tool keeps it.
#[derive(Debug, Clone)]
pub struct CronExpression {
    pub expression: String,
}

impl CronExpression {
    /// An expression is kept when it is not empty and holds no `=`.
    pub open spec fn acceptable(s: Seq<char>) -> bool {
        s.len() > 0 && !has_char(s, '=')
    }

    pub fn new(expression: String) -> (r: Result<Self, String>)
        ensures
            r is Ok <==> Self::acceptable(expression@),
            r matches Ok(c) ==> c.expression == expression,
            r matches Err(m) ==> m@ == "Invalid cron expression"@,
    {
        if Self::validate(expression.as_str()) {
            Ok(CronExpression { expression })
        } else {
            Err(String::from_str("Invalid cron expression"))
        }
    }

    fn validate(expr: &str) -> (r: bool)
        ensures
            r == Self::acceptable(expr@),
    {
        !contains_char(expr, '=') && expr.unicode_len() > 0
    }
}

/// How a sleeping machine is woken.
#[derive(Debug, Clone)]
pub enum WakeMethod {
    RTC { alarm_id: Option<u32> },
    WakeOnLAN { mac_address: String, broadcast_address: String, port: u16 },
    Scheduled { duration_secs: u64 },
}

/// The machine's power state and what it supports.
#[derive(Debug, Clone)]
pub struct PowerState {
    pub current: PowerStateType,
    pub supports_rtc_wake: bool,
    pub supports_wol: bool,
}

#[derive(Debug, Clone, Copy, PartialEq, Eq, Structural)]
pub enum PowerStateType {
    Working,
    Sleeping,
    Hibernating,
    SoftOff,
}

#[derive(Debug, Clone, Copy, PartialEq, Eq, Structural)]
pub enum AudioFormat {
    WAV,
    MP3,
    OPUS,
}

/// Recorded speech.
#[derive(Debug, Clone)]
pub struct VoiceInput {
    pub audio_data: Vec<u8>,
    pub format: AudioFormat,
    pub language: String,
    pub duration_secs: u32,
}

#[derive(Debug, Clone, Copy, PartialEq, Eq, Structural)]
pub enum MessageRole {
    User,
    Assistant,
    System,
}

#[derive(Debug, Clone, Copy, PartialEq, Eq, Structural)]
pub enum ConversationState {
    Idle,
    Listening,
    Processing,
    Speaking,
}

/// Unix permission bits of a file.
#[derive(Debug, Clone, Copy, PartialEq, Eq, Structural)]
pub struct FilePermissions {
    pub owner_read: bool,
    pub owner_write: bool,
    pub owner_execute: bool,
    pub group_read: bool,
    pub group_write: bool,
    pub group_execute: bool,
    pub others_read: bool,
    pub others_write: bool,
    pub others_execute: bool,
}

/// What happened to a watched file.
#[derive(Debug, Clone, Copy, PartialEq, Eq, Structural)]
pub enum FileEventType {
    Created,
    Modified,
    Deleted,
    Renamed,
    AttributeChanged,
}

} // verus!
