//! Workspaces: folders, repositories and worktrees the agent works in.
use vstd::prelude::*;
use crate::text::str_eq;
use crate::time::{rfc3339_utc, UtcDateTime};

verus! {

/// Accessibility of a workspace's path.
#[derive(Debug, Clone, Copy, PartialEq, Eq, Structural)]
pub enum WorkspaceStatus {
    Ready,
    Missing,
    Inaccessible,
    Invalid,
}

impl WorkspaceStatus {
    /// The stored (lowercase) name.
    pub open spec fn name(self) -> Seq<char> {
        match self {
            WorkspaceStatus::Ready => "ready"@,
            WorkspaceStatus::Missing => "missing"@,
            WorkspaceStatus::Inaccessible => "inaccessible"@,
            WorkspaceStatus::Invalid => "invalid"@,
        }
    }

    /// The status a stored name denotes; unknown names read as `Invalid`.
    pub open spec fn from_name(s: Seq<char>) -> WorkspaceStatus {
        if s == "ready"@ {
            WorkspaceStatus::Ready
        } else if s == "missing"@ {
            WorkspaceStatus::Missing
        } else if s == "inaccessible"@ {
            WorkspaceStatus::Inaccessible
        } else {
            WorkspaceStatus::Invalid
        }
    }

    /// The stored name.
    pub fn as_str(&self) -> (r: &'static str)
        ensures
            r@ == self.name(),
    {
        match self {
            WorkspaceStatus::Ready => "ready",
            WorkspaceStatus::Missing => "missing",
            WorkspaceStatus::Inaccessible => "inaccessible",
            WorkspaceStatus::Invalid => "invalid",
        }
    }

    /// The value a stored name denotes (unknown names fall back as the
    /// contract says).
    pub fn from_str(s: &str) -> (r: WorkspaceStatus)
        ensures
            r == WorkspaceStatus::from_name(s@),
    {
        if str_eq(s, "ready") {
            WorkspaceStatus::Ready
        } else if str_eq(s, "missing") {
            WorkspaceStatus::Missing
        } else if str_eq(s, "inaccessible") {
            WorkspaceStatus::Inaccessible
        } else {
            WorkspaceStatus::Invalid
        }
    }
}

/// Reading back the stored name of a workspace status gives the same status.
pub proof fn lemma_workspace_status_round_trip(st: WorkspaceStatus)
    ensures
        WorkspaceStatus::from_name(st.name()) == st,
{
    reveal_strlit("ready");
    reveal_strlit("missing");
    reveal_strlit("inaccessible");
    reveal_strlit("invalid");
    assert("ready"@.len() == 5 && "missing"@.len() == 7 && "inaccessible"@.len() == 12);
    assert("invalid"@.len() == 7 && "invalid"@[0] != "missing"@[0]);
}

/// Classification of a workspace row.
#[derive(Debug, Clone, Copy, PartialEq, Eq, Structural)]
pub enum WorkspaceKind {
    /// A regular folder with no Git worktree relationship.
    Standalone,
    /// A Git repository root that may have child worktrees.
    Repo,
    /// A Git worktree pointing to a parent repo workspace.
    Worktree,
}

impl WorkspaceKind {
    /// The stored (lowercase) name.
    pub open spec fn name(self) -> Seq<char> {
        match self {
            WorkspaceKind::Standalone => "standalone"@,
            WorkspaceKind::Repo => "repo"@,
            WorkspaceKind::Worktree => "worktree"@,
        }
    }

    /// The kind a stored name denotes; unknown names read as `Standalone`.
    pub open spec fn from_name(s: Seq<char>) -> WorkspaceKind {
        if s == "repo"@ {
            WorkspaceKind::Repo
        } else if s == "worktree"@ {
            WorkspaceKind::Worktree
        } else {
            WorkspaceKind::Standalone
        }
    }

    /// The stored name.
    pub fn as_str(&self) -> (r: &'static str)
        ensures
            r@ == self.name(),
    {
        match self {
            WorkspaceKind::Standalone => "standalone",
            WorkspaceKind::Repo => "repo",
            WorkspaceKind::Worktree => "worktree",
        }
    }

    /// The value a stored name denotes (unknown names fall back as the
    /// contract says).
    pub fn from_str(s: &str) -> (r: WorkspaceKind)
        ensures
            r == WorkspaceKind::from_name(s@),
    {
        if str_eq(s, "repo") {
            WorkspaceKind::Repo
        } else if str_eq(s, "worktree") {
            WorkspaceKind::Worktree
        } else {
            WorkspaceKind::Standalone
        }
    }
}

/// Reading back the stored name of a workspace kind gives the same kind.
pub proof fn lemma_workspace_kind_round_trip(k: WorkspaceKind)
    ensures
        WorkspaceKind::from_name(k.name()) == k,
{
    reveal_strlit("standalone");
    reveal_strlit("repo");
    reveal_strlit("worktree");
    assert("standalone"@.len() == 10 && "repo"@.len() == 4 && "worktree"@.len() == 8);
}

/// A stored workspace row.
#[derive(Debug, Clone)]
pub struct WorkspaceRecord {
    pub id: String,
    pub name: String,
    pub path: String,
    pub canonical_path: String,
    pub display_path: String,
    pub is_default: bool,
    pub is_git: bool,
    pub auto_work_tree: bool,
    pub status: WorkspaceStatus,
    pub last_validated_at: Option<UtcDateTime>,
    pub created_at: UtcDateTime,
    pub updated_at: UtcDateTime,
    pub kind: WorkspaceKind,
    pub parent_workspace_id: Option<String>,
    pub git_common_dir: Option<String>,
    pub branch: Option<String>,
    /// Short logical worktree label `<6-hex>-<branch-slug>`; the leading six
    /// hex characters are what the sidebar shows as the worktree's tag.
    pub worktree_name: Option<String>,
}

/// A workspace as sent to the frontend.
#[derive(Debug, Clone)]
pub struct WorkspaceDto {
    pub id: String,
    pub name: String,
    pub path: String,
    pub canonical_path: String,
    pub display_path: String,
    pub is_default: bool,
    pub is_git: bool,
    pub auto_work_tree: bool,
    pub status: WorkspaceStatus,
    pub last_validated_at: Option<String>,
    pub created_at: String,
    pub updated_at: String,
    pub kind: WorkspaceKind,
    pub parent_workspace_id: Option<String>,
    pub git_common_dir: Option<String>,
    pub branch: Option<String>,
    pub worktree_name: Option<String>,
}

/// The RFC 3339 text of an instant.
pub open spec fn rfc3339_of(t: UtcDateTime) -> Seq<char> {
    rfc3339_utc(t.seconds(), t.subsec())
}

/// `d` carries every field of `r`, its times in RFC 3339 form.
pub open spec fn workspace_dto_matches(r: WorkspaceRecord, d: WorkspaceDto) -> bool {
    &&& d.id == r.id
    &&& d.name == r.name
    &&& d.path == r.path
    &&& d.canonical_path == r.canonical_path
    &&& d.display_path == r.display_path
    &&& d.is_default == r.is_default
    &&& d.is_git == r.is_git
    &&& d.auto_work_tree == r.auto_work_tree
    &&& d.status == r.status
    &&& match r.last_validated_at {
        Some(t) => d.last_validated_at matches Some(s) && s@ == rfc3339_of(t),
        None => d.last_validated_at is None,
    }
    &&& d.created_at@ == rfc3339_of(r.created_at)
    &&& d.updated_at@ == rfc3339_of(r.updated_at)
    &&& d.kind == r.kind
    &&& d.parent_workspace_id == r.parent_workspace_id
    &&& d.git_common_dir == r.git_common_dir
    &&& d.branch == r.branch
    &&& d.worktree_name == r.worktree_name
}

impl From<WorkspaceRecord> for WorkspaceDto {
    fn from(r: WorkspaceRecord) -> (d: WorkspaceDto)
        ensures
            workspace_dto_matches(r, d),
    {
        let last_validated_at = match &r.last_validated_at {
            Some(t) => Some(t.to_rfc3339()),
            None => None,
        };
        let created_at = r.created_at.to_rfc3339();
        let updated_at = r.updated_at.to_rfc3339();
        WorkspaceDto {
            id: r.id,
            name: r.name,
            path: r.path,
            canonical_path: r.canonical_path,
            display_path: r.display_path,
            is_default: r.is_default,
            is_git: r.is_git,
            auto_work_tree: r.auto_work_tree,
            status: r.status,
            last_validated_at,
            created_at,
            updated_at,
            kind: r.kind,
            parent_workspace_id: r.parent_workspace_id,
            git_common_dir: r.git_common_dir,
            branch: r.branch,
            worktree_name: r.worktree_name,
        }
    }
}

/// The conversion renders times as text, which no spec value of
/// `WorkspaceDto` can hold; its contract is the `ensures` of `from` itself.
impl vstd::std_specs::convert::FromSpecImpl<WorkspaceRecord> for WorkspaceDto {
    open spec fn obeys_from_spec() -> bool {
        false
    }

    open spec fn from_spec(v: WorkspaceRecord) -> WorkspaceDto {
        vstd::pervasive::arbitrary()
    }
}

/// Input from the frontend for adding a workspace.
#[derive(Debug)]
pub struct WorkspaceAddInput {
    pub path: String,
    pub name: Option<String>,
}

/// Input from the frontend when creating a worktree for a repo workspace.
#[derive(Debug, Clone)]
pub struct WorktreeCreateInput {
    /// The branch to check out; a new branch when `create_branch` is set.
    pub branch: String,
    /// Starting point of a new branch; ignored unless `create_branch`.
    pub base_ref: Option<String>,
    /// Whether a new local branch is created and checked out.
    pub create_branch: bool,
    /// Custom directory for the worktree; derived from the repo when absent.
    pub path: Option<String>,
}

} // verus!
