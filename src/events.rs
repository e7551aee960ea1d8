//! Events that the tool's parts announce to each other.

use vstd::prelude::*;

verus! {

/// What happened to a watched file.
#[derive(Debug, Clone, Copy, PartialEq, Eq, Structural)]
pub enum FileEventType {
    Created,
    Modified,
    Deleted,
}

/// Something that happened in the system.
#[derive(Debug, Clone)]
pub enum SystemEvent {
    CommandStarted { id: String, command: String },
    CommandCompleted { id: String, exit_code: i32 },
    FileChanged { path: String, event: FileEventType },
    TaskScheduled { id: String, next_run: String },
    TaskExecuted { id: String, result: String },
}

} // verus!
