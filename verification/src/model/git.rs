//! Git status, history and diffs as shown in the frontend.
use vstd::prelude::*;

verus! {

#[derive(Debug, Clone, Copy, PartialEq, Eq, Structural)]
pub enum GitFileState {
    TrackedFile,
    Modified,
    Untracked,
    Ignored,
}

#[derive(Debug, Clone, Copy, PartialEq, Eq, Structural)]
pub enum GitChangeKind {
    Added,
    Modified,
    Deleted,
    Renamed,
    Typechange,
    Unmerged,
}

#[derive(Debug, Clone)]
pub struct GitRepoCapabilitiesDto {
    pub repo_available: bool,
    pub git_cli_available: bool,
}

#[derive(Debug, Clone)]
pub struct GitFileChangeDto {
    pub path: String,
    pub previous_path: Option<String>,
    pub status: GitChangeKind,
    pub additions: u32,
    pub deletions: u32,
}

#[derive(Debug, Clone)]
pub struct GitCommitSummaryDto {
    pub id: String,
    pub short_id: String,
    pub summary: String,
    pub author_name: String,
    pub committed_at: String,
    pub refs: Vec<String>,
    pub is_head: bool,
}

#[derive(Debug, Clone)]
pub struct GitSnapshotDto {
    pub workspace_id: String,
    pub repo_root: Option<String>,
    pub capabilities: GitRepoCapabilitiesDto,
    pub head_ref: Option<String>,
    pub head_oid: Option<String>,
    pub is_detached: bool,
    pub ahead_count: u32,
    pub behind_count: u32,
    pub staged_files: Vec<GitFileChangeDto>,
    pub unstaged_files: Vec<GitFileChangeDto>,
    pub untracked_files: Vec<GitFileChangeDto>,
    pub recent_commits: Vec<GitCommitSummaryDto>,
    pub last_refreshed_at: String,
}

#[derive(Debug, Clone, Copy, PartialEq, Eq, Structural)]
pub enum GitDiffLineKind {
    Context,
    Add,
    Remove,
}

#[derive(Debug, Clone)]
pub struct GitDiffLineDto {
    pub kind: GitDiffLineKind,
    pub old_number: Option<u32>,
    pub new_number: Option<u32>,
    pub text: String,
}

#[derive(Debug, Clone)]
pub struct GitDiffHunkDto {
    pub header: String,
    pub lines: Vec<GitDiffLineDto>,
}

#[derive(Debug, Clone)]
pub struct GitDiffDto {
    pub path: String,
    pub staged: bool,
    pub status: GitChangeKind,
    pub old_path: Option<String>,
    pub new_path: Option<String>,
    pub additions: u32,
    pub deletions: u32,
    pub is_binary: bool,
    pub truncated: bool,
    pub hunks: Vec<GitDiffHunkDto>,
}

#[derive(Debug, Clone)]
pub struct GitFileStatusDto {
    pub path: String,
    pub staged_status: Option<GitChangeKind>,
    pub unstaged_status: Option<GitChangeKind>,
    pub is_untracked: bool,
    pub is_ignored: bool,
}

} // verus!
