//! Global events broadcast to all frontend windows, separate from the
//! per-run stream, so the sidebar can follow background threads.
use vstd::prelude::*;
use std::collections::HashMap;
use crate::model::git::GitFileState;

verus! {

/// Event name of a run that started.
pub const THREAD_RUN_STARTED: &'static str = "thread-run-started";

/// Event name of a run that finished.
pub const THREAD_RUN_FINISHED: &'static str = "thread-run-finished";

/// Event name of a run whose status changed.
pub const THREAD_RUN_STATUS_CHANGED: &'static str = "thread-run-status-changed";

/// Event name of a thread whose title was generated.
pub const THREAD_TITLE_UPDATED: &'static str = "thread-title-updated";

/// Event name of a workspace git overlay that became ready.
pub const INDEX_GIT_OVERLAY_READY: &'static str = "index-git-overlay-ready";

/// A thread run entered the `running` state.
#[derive(Debug, Clone)]
pub struct ThreadRunStartedPayload {
    pub thread_id: String,
    pub run_id: String,
}

/// A thread run reached a terminal state.
#[derive(Debug, Clone)]
pub struct ThreadRunFinishedPayload {
    pub thread_id: String,
    pub run_id: String,
    pub status: String,
}

/// A thread run's status changed in a way the sidebar shows.
#[derive(Debug, Clone)]
pub struct ThreadRunStatusChangedPayload {
    pub thread_id: String,
    pub run_id: String,
    pub status: String,
}

/// A thread title was generated and saved.
#[derive(Debug, Clone)]
pub struct ThreadTitleUpdatedPayload {
    pub thread_id: String,
    pub title: String,
}

/// A workspace's git overlay was computed after the tree was returned.
#[derive(Debug, Clone)]
pub struct IndexGitOverlayReadyPayload {
    pub workspace_id: String,
    pub repo_available: bool,
    pub states: HashMap<String, GitFileState>,
}

} // verus!
