//! How commands are run: their environment and the local executor.

use vstd::prelude::*;

verus! {

/// Where and how a command runs.
#[derive(Debug, Clone)]
pub struct ExecutionEnvironment {
    pub working_dir: Option<String>,
    /// Variables set for the command, as name/value pairs.
    pub env_vars: Vec<(String, String)>,
    pub timeout_secs: Option<u64>,
    /// Whether to run it through the shell.
    pub use_shell: bool,
}

impl Default for ExecutionEnvironment {
    fn default() -> (r: Self)
        ensures
            r.working_dir is None,
            r.env_vars@.len() == 0,
            r.timeout_secs is None,
            !r.use_shell,
    {
        ExecutionEnvironment { working_dir: None, env_vars: Vec::new(), timeout_secs: None, use_shell: false }
    }
}

/// Runs commands on this machine.
#[derive(Debug, Clone, Copy)]
pub struct LocalCommandExecutor;

impl LocalCommandExecutor {
    pub fn new() -> (r: Self) {
        LocalCommandExecutor
    }
}

impl Default for LocalCommandExecutor {
    fn default() -> (r: Self) {
        LocalCommandExecutor
    }
}

} // verus!
