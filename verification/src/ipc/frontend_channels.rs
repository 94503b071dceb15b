//! Streams of events sent to the frontend's terminal, git and search views.
use vstd::prelude::*;
use crate::json::Json;
use crate::model::git::GitSnapshotDto;
use crate::model::terminal::{TerminalSessionDto, TerminalSessionStatus};

verus! {

/// Events of a thread's terminal.
#[derive(Debug, Clone)]
pub enum TerminalStreamEvent {
    SessionCreated { thread_id: String, session: TerminalSessionDto },
    StdoutChunk { thread_id: String, data: String },
    StderrChunk { thread_id: String, data: String },
    StatusChanged { thread_id: String, status: TerminalSessionStatus },
    SessionExited { thread_id: String, exit_code: Option<i32> },
}

/// Refresh lifecycle events of the git drawer.
#[derive(Debug, Clone)]
pub enum GitStreamEvent {
    RefreshStarted { workspace_id: String },
    SnapshotUpdated { workspace_id: String, snapshot: GitSnapshotDto },
    RefreshCompleted { workspace_id: String },
}

/// Events of a workspace search. A batch of results and the final response
/// come from the search index and are carried as the JSON it produces.
#[derive(Debug)]
pub enum SearchStreamEvent {
    Started { workspace_id: String, query: String },
    Batch { workspace_id: String, batch: Json },
    Completed { workspace_id: String, response: Json },
    Failed { workspace_id: String, query: String, error: String },
}

} // verus!
