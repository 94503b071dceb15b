//! Per-user session state of the IM gateway: which workspace and thread a
//! user is in, and what the gateway expects from them next.
use vstd::prelude::*;
use crate::gateway::traits::Platform;
use crate::model::provider::AgentProfileRecord;
use crate::model::thread::ThreadSummaryDto;
use crate::model::workspace::WorkspaceRecord;

verus! {

/// The current state of a gateway user session.
#[derive(Debug, Clone)]
pub enum SessionState {
    /// Waiting for user input (no active run).
    Idle,
    /// A workspace list was shown; a number is expected.
    AwaitingWorkspaceSelection,
    /// A thread list was shown; a number is expected.
    AwaitingThreadSelection,
    /// An agent run is in progress.
    AgentRunning { run_id: String },
    /// A tool approval is awaiting the user's answer.
    AwaitingApproval { tool_call_id: String, tool_name: String },
}

impl SessionState {
    /// The state as stored: only the stable position is kept, so every
    /// state is stored as idle.
    pub fn to_db_string(&self) -> (r: &'static str)
        ensures
            r@ == "idle"@,
    {
        "idle"
    }
}

/// A user's gateway session: the platform and user, the workspace and thread
/// they are in, what is expected of them, and the lists last shown to them
/// (for selection by number).
#[derive(Debug, Clone)]
pub struct UserSession {
    pub platform: Platform,
    pub user_id: String,
    pub current_workspace_id: Option<String>,
    pub current_thread_id: Option<String>,
    pub state: SessionState,
    pub cached_workspaces: Vec<WorkspaceRecord>,
    pub cached_threads: Vec<ThreadSummaryDto>,
    pub cached_profiles: Vec<AgentProfileRecord>,
}

/// The complaint when a command needs a workspace and none is chosen.
pub open spec fn require_workspace_message() -> Seq<char> {
    "请先选择 workspace，发送 /ws 查看列表"@
}

/// The complaint when a command needs a thread and none is entered.
pub open spec fn require_thread_message() -> Seq<char> {
    "请先进入会话，发送 /threads 查看列表或 /new 创建新会话"@
}

impl UserSession {
    /// A new idle session with nothing selected.
    pub fn new(platform: Platform, user_id: String) -> (s: UserSession)
        ensures
            s.platform == platform && s.user_id == user_id,
            s.current_workspace_id is None && s.current_thread_id is None,
            s.state is Idle,
            s.cached_workspaces@.len() == 0 && s.cached_threads@.len() == 0
                && s.cached_profiles@.len() == 0,
    {
        UserSession {
            platform,
            user_id,
            current_workspace_id: None,
            current_thread_id: None,
            state: SessionState::Idle,
            cached_workspaces: Vec::new(),
            cached_threads: Vec::new(),
            cached_profiles: Vec::new(),
        }
    }

    /// A session restored from storage: its saved workspace and thread, idle.
    pub fn restored(
        platform: Platform,
        user_id: String,
        current_workspace_id: Option<String>,
        current_thread_id: Option<String>,
    ) -> (s: UserSession)
        ensures
            s.platform == platform && s.user_id == user_id,
            s.current_workspace_id == current_workspace_id,
            s.current_thread_id == current_thread_id,
            s.state is Idle,
            s.cached_workspaces@.len() == 0 && s.cached_threads@.len() == 0
                && s.cached_profiles@.len() == 0,
    {
        UserSession {
            platform,
            user_id,
            current_workspace_id,
            current_thread_id,
            state: SessionState::Idle,
            cached_workspaces: Vec::new(),
            cached_threads: Vec::new(),
            cached_profiles: Vec::new(),
        }
    }

    /// The current workspace, or the message telling the user to pick one.
    pub fn require_workspace(&self) -> (r: Result<&str, String>)
        ensures
            match self.current_workspace_id {
                Some(w) => r matches Ok(s) && s@ == w@,
                None => r matches Err(e) && e@ == require_workspace_message(),
            },
    {
        match &self.current_workspace_id {
            Some(w) => Ok(w.as_str()),
            None => Err(String::from_str("请先选择 workspace，发送 /ws 查看列表")),
        }
    }

    /// The current thread, or the message telling the user to enter one.
    pub fn require_thread(&self) -> (r: Result<&str, String>)
        ensures
            match self.current_thread_id {
                Some(t) => r matches Ok(s) && s@ == t@,
                None => r matches Err(e) && e@ == require_thread_message(),
            },
    {
        match &self.current_thread_id {
            Some(t) => Ok(t.as_str()),
            None => Err(String::from_str("请先进入会话，发送 /threads 查看列表或 /new 创建新会话")),
        }
    }

    /// Whether the session has an active agent run.
    pub fn is_running(&self) -> (r: bool)
        ensures
            r == (self.state is AgentRunning),
    {
        match self.state {
            SessionState::AgentRunning { .. } => true,
            _ => false,
        }
    }

    /// Whether the session awaits the user's answer to a tool approval.
    pub fn is_awaiting_approval(&self) -> (r: bool)
        ensures
            r == (self.state is AwaitingApproval),
    {
        match self.state {
            SessionState::AwaitingApproval { .. } => true,
            _ => false,
        }
    }

    /// Enter a workspace: its thread is left and the session becomes idle.
    /// (The caller persists the session.)
    pub fn switch_workspace(&mut self, workspace_id: &str)
        ensures
            final(self).current_workspace_id matches Some(w) && w@ == workspace_id@,
            final(self).current_thread_id is None,
            final(self).state is Idle,
            final(self).platform == old(self).platform && final(self).user_id == old(self).user_id,
            final(self).cached_workspaces == old(self).cached_workspaces,
            final(self).cached_threads == old(self).cached_threads,
            final(self).cached_profiles == old(self).cached_profiles,
    {
        self.current_workspace_id = Some(String::from_str(workspace_id));
        self.current_thread_id = None;
        self.state = SessionState::Idle;
    }

    /// Enter a thread of the current workspace; the session becomes idle.
    /// (The caller persists the session.)
    pub fn switch_thread(&mut self, thread_id: &str)
        ensures
            final(self).current_thread_id matches Some(t) && t@ == thread_id@,
            final(self).current_workspace_id == old(self).current_workspace_id,
            final(self).state is Idle,
            final(self).platform == old(self).platform && final(self).user_id == old(self).user_id,
            final(self).cached_workspaces == old(self).cached_workspaces,
            final(self).cached_threads == old(self).cached_threads,
            final(self).cached_profiles == old(self).cached_profiles,
    {
        self.current_thread_id = Some(String::from_str(thread_id));
        self.state = SessionState::Idle;
    }
}

} // verus!
