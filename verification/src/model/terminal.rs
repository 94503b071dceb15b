//! Terminal sessions.
use vstd::prelude::*;
use crate::text::str_eq;

verus! {

#[derive(Debug, Clone, Copy, PartialEq, Eq, Structural)]
pub enum TerminalSessionStatus {
    Starting,
    Running,
    Exited,
}

impl TerminalSessionStatus {
    /// The stored name.
    pub open spec fn name(self) -> Seq<char> {
        match self {
            TerminalSessionStatus::Starting => "starting"@,
            TerminalSessionStatus::Running => "running"@,
            TerminalSessionStatus::Exited => "exited"@,
        }
    }

    /// The status a stored name denotes; unknown names read as `Exited`.
    pub open spec fn from_name(s: Seq<char>) -> TerminalSessionStatus {
        if s == "starting"@ {
            TerminalSessionStatus::Starting
        } else if s == "running"@ {
            TerminalSessionStatus::Running
        } else {
            TerminalSessionStatus::Exited
        }
    }

    /// The stored name.
    pub fn as_str(&self) -> (r: &'static str)
        ensures
            r@ == self.name(),
    {
        match self {
            TerminalSessionStatus::Starting => "starting",
            TerminalSessionStatus::Running => "running",
            TerminalSessionStatus::Exited => "exited",
        }
    }

    /// The value a stored name denotes (unknown names fall back as the
    /// contract says).
    pub fn from_str(value: &str) -> (r: TerminalSessionStatus)
        ensures
            r == TerminalSessionStatus::from_name(value@),
    {
        if str_eq(value, "starting") {
            TerminalSessionStatus::Starting
        } else if str_eq(value, "running") {
            TerminalSessionStatus::Running
        } else {
            TerminalSessionStatus::Exited
        }
    }
}

/// Reading back the stored name of a session status gives the same status.
pub proof fn lemma_terminal_status_round_trip(st: TerminalSessionStatus)
    ensures
        TerminalSessionStatus::from_name(st.name()) == st,
{
    reveal_strlit("starting");
    reveal_strlit("running");
    reveal_strlit("exited");
    assert("starting"@.len() == 8 && "running"@.len() == 7 && "exited"@.len() == 6);
}

/// A stored terminal session row.
#[derive(Debug, Clone)]
pub struct TerminalSessionRecord {
    pub id: String,
    pub thread_id: String,
    pub workspace_id: String,
    pub shell_path: Option<String>,
    pub cwd: Option<String>,
    pub status: TerminalSessionStatus,
    pub pid: Option<i64>,
    pub exit_code: Option<i32>,
    pub created_at: String,
    pub exited_at: Option<String>,
}

/// A terminal session as shown in the frontend.
#[derive(Debug, Clone)]
pub struct TerminalSessionDto {
    pub session_id: String,
    pub thread_id: String,
    pub workspace_id: String,
    pub shell: String,
    pub cwd: String,
    pub cols: u16,
    pub rows: u16,
    pub status: TerminalSessionStatus,
    pub has_unread_output: bool,
    pub last_output_at: Option<String>,
    pub exit_code: Option<i32>,
    pub created_at: String,
}

/// A session together with the output to replay on attach.
#[derive(Debug, Clone)]
pub struct TerminalAttachDto {
    pub session: TerminalSessionDto,
    pub replay: String,
}

} // verus!
