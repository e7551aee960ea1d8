//! Settings of the command-line tool, with their defaults.

use vstd::prelude::*;

verus! {

/// All settings of the tool.
#[derive(Debug, Clone)]
pub struct AppConfig {
    pub cli: CliConfig,
    pub executor: ExecutorConfig,
    pub scheduler: SchedulerConfig,
    pub storage: StorageConfig,
    pub voice: VoiceConfig,
}

impl Default for AppConfig {
    fn default() -> (r: Self)
        ensures
            r.cli.prompt@ == ">"@,
            r.cli.colors,
            !r.cli.verbose,
            r.executor.default_timeout_secs == 30,
            r.executor.max_concurrent == 10,
            r.scheduler.max_tasks == 100,
            r.storage.backend == StorageBackend::Json,
            !r.voice.enabled,
    {
        AppConfig {
            cli: CliConfig::default(),
            executor: ExecutorConfig::default(),
            scheduler: SchedulerConfig::default(),
            storage: StorageConfig::default(),
            voice: VoiceConfig::default(),
        }
    }
}

/// Settings of the interactive prompt.
#[derive(Debug, Clone)]
pub struct CliConfig {
    pub prompt: String,
    pub colors: bool,
    pub verbose: bool,
}

impl Default for CliConfig {
    fn default() -> (r: Self)
        ensures
            r.prompt@ == ">"@,
            r.colors,
            !r.verbose,
    {
        CliConfig { prompt: String::from_str(">"), colors: true, verbose: false }
    }
}

/// Settings of command execution.
#[derive(Debug, Clone)]
pub struct ExecutorConfig {
    pub default_timeout_secs: u64,
    pub shell: String,
    pub max_concurrent: usize,
}

impl Default for ExecutorConfig {
    /// The shell is `sh`; a Windows build sets `cmd` where it loads its settings.
    fn default() -> (r: Self)
        ensures
            r.default_timeout_secs == 30,
            r.shell@ == "sh"@,
            r.max_concurrent == 10,
    {
        ExecutorConfig { default_timeout_secs: 30, shell: String::from_str("sh"), max_concurrent: 10 }
    }
}

/// Settings of the task scheduler.
#[derive(Debug, Clone)]
pub struct SchedulerConfig {
    pub max_tasks: usize,
    pub persistence_path: String,
}

impl Default for SchedulerConfig {
    fn default() -> (r: Self)
        ensures
            r.max_tasks == 100,
            r.persistence_path@ == "~/.config/rust-agent/tasks.json"@,
    {
        SchedulerConfig { max_tasks: 100, persistence_path: String::from_str("~/.config/rust-agent/tasks.json") }
    }
}

/// Settings of the key/value storage.
#[derive(Debug, Clone)]
pub struct StorageConfig {
    pub backend: StorageBackend,
    pub path: String,
}

impl Default for StorageConfig {
    fn default() -> (r: Self)
        ensures
            r.backend == StorageBackend::Json,
            r.path@ == "~/.config/rust-agent/storage.json"@,
    {
        StorageConfig { backend: StorageBackend::Json, path: String::from_str("~/.config/rust-agent/storage.json") }
    }
}

#[derive(Debug, Clone, Copy, PartialEq, Eq, Structural)]
pub enum StorageBackend {
    Json,
    Sqlite,
    Memory,
}

/// Settings of the voice features.
#[derive(Debug, Clone)]
pub struct VoiceConfig {
    pub enabled: bool,
    pub language: String,
    pub model: String,
}

impl Default for VoiceConfig {
    fn default() -> (r: Self)
        ensures
            !r.enabled,
            r.language@ == "en-US"@,
            r.model@ == "whisper-tiny"@,
    {
        VoiceConfig { enabled: false, language: String::from_str("en-US"), model: String::from_str("whisper-tiny") }
    }
}

} // verus!
