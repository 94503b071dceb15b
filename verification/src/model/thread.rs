//! Thread and run state, and the records and DTOs built from them.
use vstd::prelude::*;
use crate::json::Json;
use crate::model::task_board::TaskBoardDto;
use crate::text::str_eq;

verus! {

/// Thread-level status, derived from the state of the latest run.
#[derive(Debug, Clone, Copy, PartialEq, Eq, Structural)]
pub enum ThreadStatus {
    Idle,
    Running,
    WaitingApproval,
    NeedsReply,
    Interrupted,
    Failed,
    Archived,
}

impl ThreadStatus {
    /// The stored (snake_case) name of the status.
    pub open spec fn name(self) -> Seq<char> {
        match self {
            ThreadStatus::Idle => "idle"@,
            ThreadStatus::Running => "running"@,
            ThreadStatus::WaitingApproval => "waiting_approval"@,
            ThreadStatus::NeedsReply => "needs_reply"@,
            ThreadStatus::Interrupted => "interrupted"@,
            ThreadStatus::Failed => "failed"@,
            ThreadStatus::Archived => "archived"@,
        }
    }

    /// The status a stored name denotes; unknown names read as `Idle`.
    pub open spec fn from_name(s: Seq<char>) -> ThreadStatus {
        if s == "idle"@ {
            ThreadStatus::Idle
        } else if s == "running"@ {
            ThreadStatus::Running
        } else if s == "waiting_approval"@ {
            ThreadStatus::WaitingApproval
        } else if s == "needs_reply"@ {
            ThreadStatus::NeedsReply
        } else if s == "interrupted"@ {
            ThreadStatus::Interrupted
        } else if s == "failed"@ {
            ThreadStatus::Failed
        } else if s == "archived"@ {
            ThreadStatus::Archived
        } else {
            ThreadStatus::Idle
        }
    }

    /// The stored name.
    pub fn as_str(&self) -> (r: &'static str)
        ensures
            r@ == self.name(),
    {
        match self {
            ThreadStatus::Idle => "idle",
            ThreadStatus::Running => "running",
            ThreadStatus::WaitingApproval => "waiting_approval",
            ThreadStatus::NeedsReply => "needs_reply",
            ThreadStatus::Interrupted => "interrupted",
            ThreadStatus::Failed => "failed",
            ThreadStatus::Archived => "archived",
        }
    }

    /// The value a stored name denotes (unknown names fall back as the
    /// contract says).
    pub fn from_str(s: &str) -> (r: ThreadStatus)
        ensures
            r == ThreadStatus::from_name(s@),
    {
        if str_eq(s, "idle") {
            ThreadStatus::Idle
        } else if str_eq(s, "running") {
            ThreadStatus::Running
        } else if str_eq(s, "waiting_approval") {
            ThreadStatus::WaitingApproval
        } else if str_eq(s, "needs_reply") {
            ThreadStatus::NeedsReply
        } else if str_eq(s, "interrupted") {
            ThreadStatus::Interrupted
        } else if str_eq(s, "failed") {
            ThreadStatus::Failed
        } else if str_eq(s, "archived") {
            ThreadStatus::Archived
        } else {
            ThreadStatus::Idle
        }
    }
}

/// Reading back the stored name of a thread status gives the same status.
pub proof fn lemma_thread_status_round_trip(st: ThreadStatus)
    ensures
        ThreadStatus::from_name(st.name()) == st,
{
    reveal_strlit("idle");
    reveal_strlit("running");
    reveal_strlit("waiting_approval");
    reveal_strlit("needs_reply");
    reveal_strlit("interrupted");
    reveal_strlit("failed");
    reveal_strlit("archived");
    assert("idle"@.len() == 4);
    assert("running"@.len() == 7);
    assert("waiting_approval"@.len() == 16);
    assert("needs_reply"@.len() == 11);
    assert("interrupted"@.len() == 11 && "interrupted"@[0] != "needs_reply"@[0]);
    assert("failed"@.len() == 6);
    assert("archived"@.len() == 8);
}

/// Status of an individual thread run, stored by its snake_case name.
#[derive(Debug, Clone, Copy, PartialEq, Eq, Hash, Structural)]
pub enum RunStatus {
    Created,
    Dispatching,
    Running,
    WaitingApproval,
    NeedsReply,
    WaitingToolResult,
    Cancelling,
    Completed,
    LimitReached,
    Failed,
    Denied,
    Interrupted,
    Cancelled,
}

impl RunStatus {
    /// The stored (snake_case) name of the status.
    pub open spec fn name(self) -> Seq<char> {
        match self {
            RunStatus::Created => "created"@,
            RunStatus::Dispatching => "dispatching"@,
            RunStatus::Running => "running"@,
            RunStatus::WaitingApproval => "waiting_approval"@,
            RunStatus::NeedsReply => "needs_reply"@,
            RunStatus::WaitingToolResult => "waiting_tool_result"@,
            RunStatus::Cancelling => "cancelling"@,
            RunStatus::Completed => "completed"@,
            RunStatus::LimitReached => "limit_reached"@,
            RunStatus::Failed => "failed"@,
            RunStatus::Denied => "denied"@,
            RunStatus::Interrupted => "interrupted"@,
            RunStatus::Cancelled => "cancelled"@,
        }
    }

    /// The status whose stored name is `s`, if any.
    pub open spec fn from_name(s: Seq<char>) -> Option<RunStatus> {
        if s == "created"@ {
            Some(RunStatus::Created)
        } else if s == "dispatching"@ {
            Some(RunStatus::Dispatching)
        } else if s == "running"@ {
            Some(RunStatus::Running)
        } else if s == "waiting_approval"@ {
            Some(RunStatus::WaitingApproval)
        } else if s == "needs_reply"@ {
            Some(RunStatus::NeedsReply)
        } else if s == "waiting_tool_result"@ {
            Some(RunStatus::WaitingToolResult)
        } else if s == "cancelling"@ {
            Some(RunStatus::Cancelling)
        } else if s == "completed"@ {
            Some(RunStatus::Completed)
        } else if s == "limit_reached"@ {
            Some(RunStatus::LimitReached)
        } else if s == "failed"@ {
            Some(RunStatus::Failed)
        } else if s == "denied"@ {
            Some(RunStatus::Denied)
        } else if s == "interrupted"@ {
            Some(RunStatus::Interrupted)
        } else if s == "cancelled"@ {
            Some(RunStatus::Cancelled)
        } else {
            None
        }
    }

    /// Terminal: the run will not transition further.
    pub open spec fn terminal(self) -> bool {
        self is Completed || self is Failed || self is Denied || self is Interrupted
            || self is Cancelled || self is LimitReached
    }

    /// Active: the run is executing and consuming compute.
    pub open spec fn active(self) -> bool {
        self is Created || self is Dispatching || self is Running || self is WaitingToolResult
            || self is Cancelling
    }

    /// Paused until the user acts.
    pub open spec fn needs_user_action(self) -> bool {
        self is WaitingApproval || self is NeedsReply
    }

    /// The thread status a run in this status gives its thread.
    pub open spec fn thread_status(self) -> ThreadStatus {
        match self {
            RunStatus::Created | RunStatus::Dispatching | RunStatus::Running
            | RunStatus::WaitingToolResult | RunStatus::Cancelling => ThreadStatus::Running,
            RunStatus::WaitingApproval => ThreadStatus::WaitingApproval,
            RunStatus::NeedsReply | RunStatus::LimitReached => ThreadStatus::NeedsReply,
            RunStatus::Interrupted => ThreadStatus::Interrupted,
            RunStatus::Failed | RunStatus::Denied => ThreadStatus::Failed,
            RunStatus::Completed | RunStatus::Cancelled => ThreadStatus::Idle,
        }
    }

    /// The stored name.
    pub fn as_str(&self) -> (r: &'static str)
        ensures
            r@ == self.name(),
    {
        match self {
            RunStatus::Created => "created",
            RunStatus::Dispatching => "dispatching",
            RunStatus::Running => "running",
            RunStatus::WaitingApproval => "waiting_approval",
            RunStatus::NeedsReply => "needs_reply",
            RunStatus::WaitingToolResult => "waiting_tool_result",
            RunStatus::Cancelling => "cancelling",
            RunStatus::Completed => "completed",
            RunStatus::LimitReached => "limit_reached",
            RunStatus::Failed => "failed",
            RunStatus::Denied => "denied",
            RunStatus::Interrupted => "interrupted",
            RunStatus::Cancelled => "cancelled",
        }
    }

    /// The status's name as an owned string (its `Display` form).
    pub fn to_string(&self) -> (r: String)
        ensures
            r@ == self.name(),
    {
        String::from_str(self.as_str())
    }

    /// The value a stored name denotes (unknown names fall back as the
    /// contract says).
    pub fn from_str(s: &str) -> (r: Option<RunStatus>)
        ensures
            r == RunStatus::from_name(s@),
    {
        if str_eq(s, "created") {
            Some(RunStatus::Created)
        } else if str_eq(s, "dispatching") {
            Some(RunStatus::Dispatching)
        } else if str_eq(s, "running") {
            Some(RunStatus::Running)
        } else if str_eq(s, "waiting_approval") {
            Some(RunStatus::WaitingApproval)
        } else if str_eq(s, "needs_reply") {
            Some(RunStatus::NeedsReply)
        } else if str_eq(s, "waiting_tool_result") {
            Some(RunStatus::WaitingToolResult)
        } else if str_eq(s, "cancelling") {
            Some(RunStatus::Cancelling)
        } else if str_eq(s, "completed") {
            Some(RunStatus::Completed)
        } else if str_eq(s, "limit_reached") {
            Some(RunStatus::LimitReached)
        } else if str_eq(s, "failed") {
            Some(RunStatus::Failed)
        } else if str_eq(s, "denied") {
            Some(RunStatus::Denied)
        } else if str_eq(s, "interrupted") {
            Some(RunStatus::Interrupted)
        } else if str_eq(s, "cancelled") {
            Some(RunStatus::Cancelled)
        } else {
            None
        }
    }

    /// Whether this run has reached a terminal state and will not transition further.
    pub fn is_terminal(&self) -> (r: bool)
        ensures
            r == self.terminal(),
    {
        match self {
            RunStatus::Completed | RunStatus::Failed | RunStatus::Denied | RunStatus::Interrupted
            | RunStatus::Cancelled | RunStatus::LimitReached => true,
            _ => false,
        }
    }

    /// Whether this run is actively executing (consuming compute resources).
    pub fn is_active(&self) -> (r: bool)
        ensures
            r == self.active(),
    {
        match self {
            RunStatus::Created | RunStatus::Dispatching | RunStatus::Running
            | RunStatus::WaitingToolResult | RunStatus::Cancelling => true,
            _ => false,
        }
    }

    /// Whether this run is paused waiting for user action.
    pub fn is_needs_user_action(&self) -> (r: bool)
        ensures
            r == self.needs_user_action(),
    {
        match self {
            RunStatus::WaitingApproval | RunStatus::NeedsReply => true,
            _ => false,
        }
    }

    /// Derive the thread-level status from this run status.
    pub fn to_thread_status(&self) -> (r: ThreadStatus)
        ensures
            r == self.thread_status(),
    {
        match self {
            RunStatus::Created | RunStatus::Dispatching | RunStatus::Running
            | RunStatus::WaitingToolResult | RunStatus::Cancelling => ThreadStatus::Running,
            RunStatus::WaitingApproval => ThreadStatus::WaitingApproval,
            RunStatus::NeedsReply | RunStatus::LimitReached => ThreadStatus::NeedsReply,
            RunStatus::Interrupted => ThreadStatus::Interrupted,
            RunStatus::Failed | RunStatus::Denied => ThreadStatus::Failed,
            RunStatus::Completed | RunStatus::Cancelled => ThreadStatus::Idle,
        }
    }

    /// SQL `IN(...)` clause containing all terminal status strings.
    pub fn terminal_sql_in_clause() -> (r: &'static str)
        ensures
            r@ == sql_in_clause(terminal_statuses()),
    {
        proof {
            lemma_terminal_clause_text();
        }
        "('completed','failed','denied','interrupted','cancelled','limit_reached')"
    }

    /// SQL `IN(...)` clause containing all non-progressing statuses
    /// (terminal + needs-user-action), used to find "truly active" runs.
    pub fn non_progressing_sql_in_clause() -> (r: &'static str)
        ensures
            r@ == sql_in_clause(non_progressing_statuses()),
    {
        proof {
            lemma_non_progressing_clause_text();
        }
        "('completed','failed','denied','interrupted','cancelled','limit_reached','waiting_approval','needs_reply')"
    }
}

/// The terminal statuses, in the order the SQL clause lists them.
pub open spec fn terminal_statuses() -> Seq<RunStatus> {
    seq![
        RunStatus::Completed,
        RunStatus::Failed,
        RunStatus::Denied,
        RunStatus::Interrupted,
        RunStatus::Cancelled,
        RunStatus::LimitReached,
    ]
}

/// The terminal statuses followed by those waiting on the user.
pub open spec fn non_progressing_statuses() -> Seq<RunStatus> {
    terminal_statuses() + seq![RunStatus::WaitingApproval, RunStatus::NeedsReply]
}

/// `'a','b',...`: each name quoted, separated by commas.
pub open spec fn quoted_list(names: Seq<RunStatus>) -> Seq<char>
    decreases names.len(),
{
    if names.len() == 0 {
        Seq::empty()
    } else if names.len() == 1 {
        seq!['\''] + names[0].name() + seq!['\'']
    } else {
        quoted_list(names.drop_last()) + seq![',', '\''] + names.last().name() + seq!['\'']
    }
}

/// A parenthesised SQL list of the quoted status names.
pub open spec fn sql_in_clause(names: Seq<RunStatus>) -> Seq<char> {
    seq!['('] + quoted_list(names) + seq![')']
}

proof fn lemma_terminal_clause_text()
    ensures
        "('completed','failed','denied','interrupted','cancelled','limit_reached')"@
            == sql_in_clause(terminal_statuses()),
{
    reveal_strlit("('completed','failed','denied','interrupted','cancelled','limit_reached')");
    reveal_strlit("completed");
    reveal_strlit("failed");
    reveal_strlit("denied");
    reveal_strlit("interrupted");
    reveal_strlit("cancelled");
    reveal_strlit("limit_reached");
    reveal_with_fuel(quoted_list, 7);
    assert(terminal_statuses().drop_last().drop_last().drop_last().drop_last().drop_last()
        =~= seq![RunStatus::Completed]);
    assert(terminal_statuses().drop_last().drop_last().drop_last().drop_last() =~= seq![
        RunStatus::Completed,
        RunStatus::Failed,
    ]);
    assert(terminal_statuses().drop_last().drop_last().drop_last() =~= seq![
        RunStatus::Completed,
        RunStatus::Failed,
        RunStatus::Denied,
    ]);
    assert(terminal_statuses().drop_last().drop_last() =~= seq![
        RunStatus::Completed,
        RunStatus::Failed,
        RunStatus::Denied,
        RunStatus::Interrupted,
    ]);
    assert(terminal_statuses().drop_last() =~= seq![
        RunStatus::Completed,
        RunStatus::Failed,
        RunStatus::Denied,
        RunStatus::Interrupted,
        RunStatus::Cancelled,
    ]);
    assert("('completed','failed','denied','interrupted','cancelled','limit_reached')"@
        =~= sql_in_clause(terminal_statuses()));
}

proof fn lemma_non_progressing_clause_text()
    ensures
        "('completed','failed','denied','interrupted','cancelled','limit_reached','waiting_approval','needs_reply')"@
            == sql_in_clause(non_progressing_statuses()),
{
    reveal_strlit(
        "('completed','failed','denied','interrupted','cancelled','limit_reached','waiting_approval','needs_reply')",
    );
    reveal_strlit("completed");
    reveal_strlit("failed");
    reveal_strlit("denied");
    reveal_strlit("interrupted");
    reveal_strlit("cancelled");
    reveal_strlit("limit_reached");
    reveal_strlit("waiting_approval");
    reveal_strlit("needs_reply");
    reveal_with_fuel(quoted_list, 9);
    let n = non_progressing_statuses();
    assert(n.drop_last().drop_last().drop_last().drop_last().drop_last().drop_last().drop_last()
        =~= seq![RunStatus::Completed]);
    assert(n.drop_last().drop_last().drop_last().drop_last().drop_last().drop_last() =~= seq![
        RunStatus::Completed,
        RunStatus::Failed,
    ]);
    assert(n.drop_last().drop_last().drop_last().drop_last().drop_last() =~= seq![
        RunStatus::Completed,
        RunStatus::Failed,
        RunStatus::Denied,
    ]);
    assert(n.drop_last().drop_last().drop_last().drop_last() =~= seq![
        RunStatus::Completed,
        RunStatus::Failed,
        RunStatus::Denied,
        RunStatus::Interrupted,
    ]);
    assert(n.drop_last().drop_last().drop_last() =~= seq![
        RunStatus::Completed,
        RunStatus::Failed,
        RunStatus::Denied,
        RunStatus::Interrupted,
        RunStatus::Cancelled,
    ]);
    assert(n.drop_last().drop_last() =~= terminal_statuses());
    assert(n.drop_last() =~= terminal_statuses().push(RunStatus::WaitingApproval));
    assert("('completed','failed','denied','interrupted','cancelled','limit_reached','waiting_approval','needs_reply')"@
        =~= sql_in_clause(n));
}

/// Reading back the stored name of a run status gives the same status, and
/// no other name is read as that status.
pub proof fn lemma_run_status_round_trip(st: RunStatus)
    ensures
        RunStatus::from_name(st.name()) == Some(st),
{
    reveal_strlit("created");
    reveal_strlit("dispatching");
    reveal_strlit("running");
    reveal_strlit("waiting_approval");
    reveal_strlit("needs_reply");
    reveal_strlit("waiting_tool_result");
    reveal_strlit("cancelling");
    reveal_strlit("completed");
    reveal_strlit("limit_reached");
    reveal_strlit("failed");
    reveal_strlit("denied");
    reveal_strlit("interrupted");
    reveal_strlit("cancelled");
    assert("created"@.len() == 7 && "running"@.len() == 7 && "created"@[0] != "running"@[0]);
    assert("dispatching"@.len() == 11 && "needs_reply"@.len() == 11 && "interrupted"@.len() == 11);
    assert("dispatching"@[0] != "needs_reply"@[0] && "dispatching"@[0] != "interrupted"@[0]
        && "needs_reply"@[0] != "interrupted"@[0]);
    assert("waiting_approval"@.len() == 16);
    assert("waiting_tool_result"@.len() == 19);
    assert("cancelling"@.len() == 10);
    assert("completed"@.len() == 9 && "cancelled"@.len() == 9 && "completed"@[1] != "cancelled"@[1]);
    assert("limit_reached"@.len() == 13);
    assert("failed"@.len() == 6 && "denied"@.len() == 6 && "failed"@[0] != "denied"@[0]);
}

/// A stored name is read as a status exactly when it is that status's name.
pub proof fn lemma_run_status_parse_inverts(s: Seq<char>, st: RunStatus)
    ensures
        RunStatus::from_name(s) == Some(st) <==> s == st.name(),
{
    lemma_run_status_round_trip(st);
}

/// Every run status is exactly one of terminal, active, or waiting on the user.
pub proof fn lemma_run_status_partition(st: RunStatus)
    ensures
        st.terminal() as int + st.active() as int + st.needs_user_action() as int == 1,
{
}

/// A run that is active keeps its thread `Running`; one waiting on the user
/// puts it in a waiting state; a terminal one never leaves it `Running`.
pub proof fn lemma_run_thread_status_agrees(st: RunStatus)
    ensures
        st.active() <==> st.thread_status() == ThreadStatus::Running,
        st.needs_user_action() ==> (st.thread_status() == ThreadStatus::WaitingApproval
            || st.thread_status() == ThreadStatus::NeedsReply),
        st.terminal() ==> st.thread_status() != ThreadStatus::Running,
{
}

/// The terminal SQL list names exactly the terminal statuses, and the
/// non-progressing list exactly those that are not active.
pub proof fn lemma_sql_lists_match_classification(st: RunStatus)
    ensures
        terminal_statuses().contains(st) <==> st.terminal(),
        non_progressing_statuses().contains(st) <==> !st.active(),
{
    let t = terminal_statuses();
    let n = non_progressing_statuses();
    if st.terminal() {
        let i: int = if st is Completed { 0 } else if st is Failed { 1 } else if st is Denied { 2 }
            else if st is Interrupted { 3 } else if st is Cancelled { 4 } else { 5 };
        assert(t[i] == st);
        assert(n[i] == st);
    }
    if st is WaitingApproval {
        assert(n[6] == st);
    }
    if st is NeedsReply {
        assert(n[7] == st);
    }
    if t.contains(st) {
        let i = choose|i: int| 0 <= i < t.len() && t[i] == st;
        assert(st.terminal());
    }
    if n.contains(st) {
        let i = choose|i: int| 0 <= i < n.len() && n[i] == st;
        assert(!st.active());
    }
}

/// A stored thread row.
#[derive(Debug, Clone)]
pub struct ThreadRecord {
    pub id: String,
    pub workspace_id: String,
    pub profile_id: Option<String>,
    pub title: String,
    pub status: ThreadStatus,
    pub summary: Option<String>,
    pub last_active_at: String,
    pub created_at: String,
    pub updated_at: String,
}

/// Lightweight DTO for the thread list (sidebar).
#[derive(Debug, Clone)]
pub struct ThreadSummaryDto {
    pub id: String,
    pub workspace_id: String,
    pub profile_id: Option<String>,
    pub title: String,
    pub status: ThreadStatus,
    pub last_active_at: String,
    pub created_at: String,
    /// Wall-clock start time (Unix ms) of the thread's currently active run.
    pub active_run_started_at_ms: Option<i64>,
    /// Cumulative active running seconds of the thread.
    pub active_run_elapsed_seconds: Option<i64>,
}

/// The summary of a thread row: its identifying fields, no run timing yet.
pub open spec fn thread_summary_of(r: ThreadRecord) -> ThreadSummaryDto {
    ThreadSummaryDto {
        id: r.id,
        workspace_id: r.workspace_id,
        profile_id: r.profile_id,
        title: r.title,
        status: r.status,
        last_active_at: r.last_active_at,
        created_at: r.created_at,
        active_run_started_at_ms: None,
        active_run_elapsed_seconds: None,
    }
}

impl From<ThreadRecord> for ThreadSummaryDto {
    fn from(r: ThreadRecord) -> (d: ThreadSummaryDto)
        ensures
            d == thread_summary_of(r),
    {
        ThreadSummaryDto {
            id: r.id,
            workspace_id: r.workspace_id,
            profile_id: r.profile_id,
            title: r.title,
            status: r.status,
            last_active_at: r.last_active_at,
            created_at: r.created_at,
            active_run_started_at_ms: None,
            active_run_elapsed_seconds: None,
        }
    }
}

impl vstd::std_specs::convert::FromSpecImpl<ThreadRecord> for ThreadSummaryDto {
    open spec fn obeys_from_spec() -> bool {
        true
    }

    open spec fn from_spec(v: ThreadRecord) -> ThreadSummaryDto {
        thread_summary_of(v)
    }
}

/// An attachment of a message.
#[derive(Debug, Clone)]
pub struct MessageAttachmentDto {
    pub id: String,
    pub name: String,
    pub media_type: Option<String>,
    pub url: Option<String>,
}

/// A stored message row.
#[derive(Debug, Clone)]
pub struct MessageRecord {
    pub id: String,
    pub thread_id: String,
    pub run_id: Option<String>,
    pub role: String,
    pub content_markdown: String,
    pub parts_json: Option<String>,
    pub message_type: String,
    pub status: String,
    pub metadata_json: Option<String>,
    pub attachments_json: Option<String>,
    pub created_at: String,
}

/// A message as sent to the frontend, its stored JSON parsed.
#[derive(Debug)]
pub struct MessageDto {
    pub id: String,
    pub thread_id: String,
    pub run_id: Option<String>,
    pub role: String,
    pub content_markdown: String,
    pub parts: Option<Vec<Json>>,
    pub message_type: String,
    pub status: String,
    pub metadata: Option<Json>,
    pub attachments: Vec<MessageAttachmentDto>,
    pub created_at: String,
}

impl MessageDto {
    /// The frontend view of a message row. `parts`, `metadata` and
    /// `attachments` are what serde_json reads from `parts_json` (a list),
    /// `metadata_json` and `attachments_json` (`None` when a text does not
    /// parse); each is kept only where the row holds that text, and missing
    /// attachments are an empty list.
    pub fn from_record(
        r: MessageRecord,
        parts: Option<Vec<Json>>,
        metadata: Option<Json>,
        attachments: Option<Vec<MessageAttachmentDto>>,
    ) -> (d: Self)
        ensures
            d.id == r.id && d.thread_id == r.thread_id && d.run_id == r.run_id && d.role == r.role,
            d.content_markdown == r.content_markdown && d.message_type == r.message_type,
            d.status == r.status && d.created_at == r.created_at,
            d.parts == (match r.parts_json {
                Some(_) => parts,
                None => None,
            }),
            d.metadata == (match r.metadata_json {
                Some(_) => metadata,
                None => None,
            }),
            d.attachments@ == (match (r.attachments_json, attachments) {
                (Some(_), Some(a)) => a@,
                _ => Seq::<MessageAttachmentDto>::empty(),
            }),
    {
        let parts = match r.parts_json {
            Some(_) => parts,
            None => None,
        };
        let metadata = match r.metadata_json {
            Some(_) => metadata,
            None => None,
        };
        let attachments = match r.attachments_json {
            Some(_) => match attachments {
                Some(a) => a,
                None => Vec::new(),
            },
            None => Vec::new(),
        };
        MessageDto {
            id: r.id,
            thread_id: r.thread_id,
            run_id: r.run_id,
            role: r.role,
            content_markdown: r.content_markdown,
            parts,
            message_type: r.message_type,
            status: r.status,
            metadata,
            attachments,
            created_at: r.created_at,
        }
    }
}

/// A tool call as sent to the frontend.
#[derive(Debug)]
pub struct ToolCallDto {
    pub id: String,
    pub storage_id: String,
    pub run_id: String,
    pub thread_id: String,
    pub helper_id: Option<String>,
    pub tool_name: String,
    pub tool_input: Json,
    pub tool_output: Option<Json>,
    pub status: String,
    pub approval_status: Option<String>,
    pub started_at: String,
    pub finished_at: Option<String>,
}

/// Input for adding a message to a thread.
#[derive(Debug)]
pub struct AddMessageInput {
    pub role: String,
    pub content: String,
    pub message_type: Option<String>,
    pub metadata: Option<Json>,
}

/// Token usage of a run.
#[derive(Debug, Clone, Copy, Default)]
pub struct RunUsageDto {
    pub input_tokens: u64,
    pub output_tokens: u64,
    pub cache_read_tokens: u64,
    pub cache_write_tokens: u64,
    pub total_tokens: u64,
}

/// Lightweight run information for snapshots.
#[derive(Debug, Clone)]
pub struct RunSummaryDto {
    pub id: String,
    pub thread_id: String,
    pub run_mode: String,
    pub status: String,
    pub model_id: Option<String>,
    pub model_display_name: Option<String>,
    pub context_window: Option<String>,
    pub error_message: Option<String>,
    pub started_at: String,
    pub usage: RunUsageDto,
}

/// A helper (sub-agent) run within a run.
#[derive(Debug, Clone)]
pub struct RunHelperDto {
    pub id: String,
    pub run_id: String,
    pub thread_id: String,
    pub helper_kind: String,
    pub parent_tool_call_id: Option<String>,
    pub status: String,
    pub input_summary: Option<String>,
    pub output_summary: Option<String>,
    pub error_summary: Option<String>,
    pub started_at: String,
    pub finished_at: Option<String>,
    pub usage: RunUsageDto,
}

/// Everything the frontend shows of a thread at once.
#[derive(Debug)]
pub struct ThreadSnapshotDto {
    pub thread: ThreadSummaryDto,
    pub messages: Vec<MessageDto>,
    pub has_more_messages: bool,
    pub active_run: Option<RunSummaryDto>,
    pub latest_run: Option<RunSummaryDto>,
    pub tool_calls: Vec<ToolCallDto>,
    pub helpers: Vec<RunHelperDto>,
    pub task_boards: Vec<TaskBoardDto>,
    pub active_task_board_id: Option<String>,
}

} // verus!
