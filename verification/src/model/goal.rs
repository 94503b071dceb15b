//! Persisted goals: their status, why they pause, and the DTOs sent out.
use vstd::prelude::*;
use crate::text::str_eq;
use crate::time::{rfc3339_utc, UtcDateTime};

verus! {

/// Status of a persisted goal.
#[derive(Debug, Clone, Copy, PartialEq, Eq, Structural)]
pub enum GoalStatus {
    Active,
    Paused,
    BudgetLimited,
    Complete,
}

impl GoalStatus {
    /// The stored (snake_case) name.
    pub open spec fn name(self) -> Seq<char> {
        match self {
            GoalStatus::Active => "active"@,
            GoalStatus::Paused => "paused"@,
            GoalStatus::BudgetLimited => "budget_limited"@,
            GoalStatus::Complete => "complete"@,
        }
    }

    /// The status a stored name denotes; unknown names read as `Active`.
    pub open spec fn from_name(s: Seq<char>) -> GoalStatus {
        if s == "active"@ {
            GoalStatus::Active
        } else if s == "paused"@ {
            GoalStatus::Paused
        } else if s == "budget_limited"@ {
            GoalStatus::BudgetLimited
        } else if s == "complete"@ {
            GoalStatus::Complete
        } else {
            GoalStatus::Active
        }
    }

    /// The stored name.
    pub fn as_str(&self) -> (r: &'static str)
        ensures
            r@ == self.name(),
    {
        match self {
            GoalStatus::Active => "active",
            GoalStatus::Paused => "paused",
            GoalStatus::BudgetLimited => "budget_limited",
            GoalStatus::Complete => "complete",
        }
    }

    /// The value a stored name denotes (unknown names fall back as the
    /// contract says).
    pub fn from_str(s: &str) -> (r: GoalStatus)
        ensures
            r == GoalStatus::from_name(s@),
    {
        if str_eq(s, "active") {
            GoalStatus::Active
        } else if str_eq(s, "paused") {
            GoalStatus::Paused
        } else if str_eq(s, "budget_limited") {
            GoalStatus::BudgetLimited
        } else if str_eq(s, "complete") {
            GoalStatus::Complete
        } else {
            GoalStatus::Active
        }
    }
}

/// Reading back the stored name of a goal status gives the same status.
pub proof fn lemma_goal_status_round_trip(st: GoalStatus)
    ensures
        GoalStatus::from_name(st.name()) == st,
{
    reveal_strlit("active");
    reveal_strlit("paused");
    reveal_strlit("budget_limited");
    reveal_strlit("complete");
    assert("active"@.len() == 6 && "paused"@.len() == 6 && "active"@[0] != "paused"@[0]);
    assert("budget_limited"@.len() == 14 && "complete"@.len() == 8);
}

/// Why a goal was paused; drives auto-resume behaviour.
#[derive(Debug, Clone, Copy, PartialEq, Eq, Structural)]
pub enum PauseReason {
    /// The user paused it; only an explicit resume continues it.
    UserRequested,
    /// The agent asked for clarification; the user's reply resumes it.
    ClarifyPending,
    /// The agent proposed a plan; approving it resumes the goal.
    PlanPending,
    /// No tool calls for consecutive turns; a user message resumes it.
    IdleBlocked,
    /// The turn budget is exhausted; only an explicit resume continues it.
    BudgetExhausted,
    /// The run was interrupted; the next user message resumes it.
    Interrupted,
}

impl PauseReason {
    /// The stored (snake_case) name.
    pub open spec fn name(self) -> Seq<char> {
        match self {
            PauseReason::UserRequested => "user_requested"@,
            PauseReason::ClarifyPending => "clarify_pending"@,
            PauseReason::PlanPending => "plan_pending"@,
            PauseReason::IdleBlocked => "idle_blocked"@,
            PauseReason::BudgetExhausted => "budget_exhausted"@,
            PauseReason::Interrupted => "interrupted"@,
        }
    }

    /// The reason a stored name denotes; unknown names read as `UserRequested`.
    pub open spec fn from_name(s: Seq<char>) -> PauseReason {
        if s == "user_requested"@ {
            PauseReason::UserRequested
        } else if s == "clarify_pending"@ {
            PauseReason::ClarifyPending
        } else if s == "plan_pending"@ {
            PauseReason::PlanPending
        } else if s == "idle_blocked"@ {
            PauseReason::IdleBlocked
        } else if s == "budget_exhausted"@ {
            PauseReason::BudgetExhausted
        } else if s == "interrupted"@ {
            PauseReason::Interrupted
        } else {
            PauseReason::UserRequested
        }
    }

    /// Reasons a new user message clears.
    pub open spec fn resumes_on_user_message(self) -> bool {
        self is ClarifyPending || self is PlanPending || self is IdleBlocked || self is Interrupted
    }

    /// The stored name.
    pub fn as_str(&self) -> (r: &'static str)
        ensures
            r@ == self.name(),
    {
        match self {
            PauseReason::UserRequested => "user_requested",
            PauseReason::ClarifyPending => "clarify_pending",
            PauseReason::PlanPending => "plan_pending",
            PauseReason::IdleBlocked => "idle_blocked",
            PauseReason::BudgetExhausted => "budget_exhausted",
            PauseReason::Interrupted => "interrupted",
        }
    }

    /// The value a stored name denotes (unknown names fall back as the
    /// contract says).
    pub fn from_str(s: &str) -> (r: PauseReason)
        ensures
            r == PauseReason::from_name(s@),
    {
        if str_eq(s, "user_requested") {
            PauseReason::UserRequested
        } else if str_eq(s, "clarify_pending") {
            PauseReason::ClarifyPending
        } else if str_eq(s, "plan_pending") {
            PauseReason::PlanPending
        } else if str_eq(s, "idle_blocked") {
            PauseReason::IdleBlocked
        } else if str_eq(s, "budget_exhausted") {
            PauseReason::BudgetExhausted
        } else if str_eq(s, "interrupted") {
            PauseReason::Interrupted
        } else {
            PauseReason::UserRequested
        }
    }

    /// Whether the goal should auto-resume when the user sends a new message.
    pub fn auto_resume_on_user_message(&self) -> (r: bool)
        ensures
            r == self.resumes_on_user_message(),
    {
        match self {
            PauseReason::ClarifyPending | PauseReason::PlanPending | PauseReason::IdleBlocked
            | PauseReason::Interrupted => true,
            _ => false,
        }
    }
}

/// Reading back the stored name of a pause reason gives the same reason.
pub proof fn lemma_pause_reason_round_trip(r: PauseReason)
    ensures
        PauseReason::from_name(r.name()) == r,
{
    reveal_strlit("user_requested");
    reveal_strlit("clarify_pending");
    reveal_strlit("plan_pending");
    reveal_strlit("idle_blocked");
    reveal_strlit("budget_exhausted");
    reveal_strlit("interrupted");
    assert("user_requested"@.len() == 14 && "clarify_pending"@.len() == 15);
    assert("plan_pending"@.len() == 12 && "idle_blocked"@.len() == 12);
    assert("plan_pending"@[0] != "idle_blocked"@[0]);
    assert("budget_exhausted"@.len() == 16 && "interrupted"@.len() == 11);
}

/// Only an explicit request or an exhausted budget keeps a goal paused
/// through a user message.
pub proof fn lemma_manual_resume_reasons(r: PauseReason)
    ensures
        !r.resumes_on_user_message() <==> (r is UserRequested || r is BudgetExhausted),
{
}

/// Verdict of the post-turn evaluation.
#[derive(Debug, Clone)]
pub enum GoalVerdict {
    /// Still active: inject a continuation prompt.
    Continue,
    /// Completion was claimed without evidence: inject a challenge.
    ChallengeEvidence,
    /// Achieved, with evidence.
    Complete { evidence: String },
    /// Paused for a reason.
    Paused { reason: PauseReason, detail: Option<String> },
    /// The token budget is exhausted.
    BudgetLimited,
}

/// A stored goal row.
#[derive(Debug, Clone)]
pub struct GoalRecord {
    pub id: String,
    pub thread_id: String,
    pub objective: String,
    pub status: GoalStatus,
    pub token_budget: Option<i64>,
    pub tokens_used: i64,
    pub time_used_seconds: i64,
    pub turns_used: i64,
    pub max_turns: i64,
    pub pause_reason: Option<PauseReason>,
    pub pause_detail: Option<String>,
    pub evidence: Option<String>,
    pub last_evaluated_run_id: Option<String>,
    pub created_at: UtcDateTime,
    pub updated_at: UtcDateTime,
}

/// The goal as sent to the frontend.
#[derive(Debug, Clone)]
pub struct GoalDto {
    pub id: String,
    pub thread_id: String,
    pub objective: String,
    pub status: GoalStatus,
    pub token_budget: Option<i64>,
    pub tokens_used: i64,
    pub time_used_seconds: i64,
    pub turns_used: i64,
    pub max_turns: i64,
    pub pause_reason: Option<PauseReason>,
    pub pause_detail: Option<String>,
    pub evidence: Option<String>,
    pub last_evaluated_run_id: Option<String>,
    pub created_at: String,
    pub updated_at: String,
}

/// `d` carries every field of `r`, its times in RFC 3339 form.
pub open spec fn goal_dto_matches(r: GoalRecord, d: GoalDto) -> bool {
    &&& d.id == r.id
    &&& d.thread_id == r.thread_id
    &&& d.objective == r.objective
    &&& d.status == r.status
    &&& d.token_budget == r.token_budget
    &&& d.tokens_used == r.tokens_used
    &&& d.time_used_seconds == r.time_used_seconds
    &&& d.turns_used == r.turns_used
    &&& d.max_turns == r.max_turns
    &&& d.pause_reason == r.pause_reason
    &&& d.pause_detail == r.pause_detail
    &&& d.evidence == r.evidence
    &&& d.last_evaluated_run_id == r.last_evaluated_run_id
    &&& d.created_at@ == rfc3339_utc(r.created_at.seconds(), r.created_at.subsec())
    &&& d.updated_at@ == rfc3339_utc(r.updated_at.seconds(), r.updated_at.subsec())
}

impl From<GoalRecord> for GoalDto {
    fn from(r: GoalRecord) -> (d: GoalDto)
        ensures
            goal_dto_matches(r, d),
    {
        let created_at = r.created_at.to_rfc3339();
        let updated_at = r.updated_at.to_rfc3339();
        GoalDto {
            id: r.id,
            thread_id: r.thread_id,
            objective: r.objective,
            status: r.status,
            token_budget: r.token_budget,
            tokens_used: r.tokens_used,
            time_used_seconds: r.time_used_seconds,
            turns_used: r.turns_used,
            max_turns: r.max_turns,
            pause_reason: r.pause_reason,
            pause_detail: r.pause_detail,
            evidence: r.evidence,
            last_evaluated_run_id: r.last_evaluated_run_id,
            created_at,
            updated_at,
        }
    }
}

/// The conversion renders times as text, which no spec value of `GoalDto`
/// can hold; its contract is the `ensures` of `from` itself.
impl vstd::std_specs::convert::FromSpecImpl<GoalRecord> for GoalDto {
    open spec fn obeys_from_spec() -> bool {
        false
    }

    open spec fn from_spec(v: GoalRecord) -> GoalDto {
        vstd::pervasive::arbitrary()
    }
}

/// Input for creating a goal.
#[derive(Debug)]
pub struct GoalCreateInput {
    pub objective: String,
    pub token_budget: Option<i64>,
}

/// Lightweight goal payload for thread stream events.
#[derive(Debug, Clone)]
pub struct GoalPayload {
    pub id: String,
    pub thread_id: String,
    pub objective: String,
    pub status: GoalStatus,
    pub tokens_used: i64,
    pub time_used_seconds: i64,
    pub turns_used: i64,
    pub max_turns: i64,
    pub token_budget: Option<i64>,
    pub pause_reason: Option<PauseReason>,
    pub pause_detail: Option<String>,
    pub evidence: Option<String>,
    pub last_evaluated_run_id: Option<String>,
}

/// The payload of a goal row: every field but its times.
pub open spec fn goal_payload_of(r: GoalRecord) -> GoalPayload {
    GoalPayload {
        id: r.id,
        thread_id: r.thread_id,
        objective: r.objective,
        status: r.status,
        tokens_used: r.tokens_used,
        time_used_seconds: r.time_used_seconds,
        turns_used: r.turns_used,
        max_turns: r.max_turns,
        token_budget: r.token_budget,
        pause_reason: r.pause_reason,
        pause_detail: r.pause_detail,
        evidence: r.evidence,
        last_evaluated_run_id: r.last_evaluated_run_id,
    }
}

impl From<GoalRecord> for GoalPayload {
    fn from(r: GoalRecord) -> (p: GoalPayload)
        ensures
            p == goal_payload_of(r),
    {
        GoalPayload {
            id: r.id,
            thread_id: r.thread_id,
            objective: r.objective,
            status: r.status,
            tokens_used: r.tokens_used,
            time_used_seconds: r.time_used_seconds,
            turns_used: r.turns_used,
            max_turns: r.max_turns,
            token_budget: r.token_budget,
            pause_reason: r.pause_reason,
            pause_detail: r.pause_detail,
            evidence: r.evidence,
            last_evaluated_run_id: r.last_evaluated_run_id,
        }
    }
}

impl vstd::std_specs::convert::FromSpecImpl<GoalRecord> for GoalPayload {
    open spec fn obeys_from_spec() -> bool {
        true
    }

    open spec fn from_spec(v: GoalRecord) -> GoalPayload {
        goal_payload_of(v)
    }
}

} // verus!
