//! Protocol between the app and the agent sidecar: NDJSON messages over
//! stdio, one complete JSON message per line.
use vstd::prelude::*;
use crate::json::{get_text, json_get, Json};
use crate::text::{clone_string, str_eq};

verus! {

/// Message from the app to the sidecar.
#[derive(Debug)]
pub enum RustToSidecar {
    Request { id: String, method: String, payload: Json },
}

/// Message from the sidecar to the app.
#[derive(Debug)]
pub enum SidecarToRust {
    Response { id: String, ok: bool, payload: Json },
    Event { event: String, payload: Json },
}

/// Request to start a run.
#[derive(Debug)]
pub struct RunStartPayload {
    pub run_id: String,
    pub thread_id: String,
    pub run_mode: String,
    pub prompt: String,
    pub model_plan: Json,
    pub thread_snapshot: Json,
}

/// Request to cancel a run.
#[derive(Debug, Clone)]
pub struct RunCancelPayload {
    pub run_id: String,
}

/// The result of a tool call, sent back to the sidecar.
#[derive(Debug)]
pub struct ToolResultPayload {
    pub tool_call_id: String,
    pub run_id: String,
    pub result: Json,
    pub success: bool,
}

/// A sidecar event with its payload read.
#[derive(Debug)]
pub enum SidecarEvent {
    RunStarted { run_id: String },
    MessageDelta { run_id: String, message_id: String, delta: String },
    MessageCompleted { run_id: String, message_id: String, content: String },
    PlanUpdated { run_id: String, plan: Json },
    ReasoningUpdated { run_id: String, reasoning: String },
    QueueUpdated { run_id: String, queue: Json },
    SubagentStarted { run_id: String, subtask_id: String },
    SubagentCompleted { run_id: String, subtask_id: String, summary: Option<String> },
    SubagentFailed { run_id: String, subtask_id: String, error: String },
    ToolRequested { run_id: String, tool_call_id: String, tool_name: String, tool_input: Json },
    RunCompleted { run_id: String },
    RunFailed { run_id: String, error: String },
}

/// The string at `p[key]`, or `default`.
pub open spec fn text_or(p: Json, key: Seq<char>, default: Seq<char>) -> Seq<char> {
    match get_text(p, key) {
        Some(s) => s,
        None => default,
    }
}

/// The value at `p[key]`, `Null` when absent.
pub open spec fn field(p: Json, key: Seq<char>) -> Json {
    match json_get(p, key) {
        Some(v) => v,
        None => Json::Null,
    }
}

/// Whether `r` is what an event named `e` with payload `p` reads as. Every
/// event needs a string `runId`; the others fields as noted per event.
pub open spec fn parsed_event(e: Seq<char>, p: Json, r: Option<SidecarEvent>) -> bool {
    let run = get_text(p, "runId"@);
    if e == "agent.run.started"@ {
        match run {
            Some(id) => r matches Some(SidecarEvent::RunStarted { run_id }) && run_id@ == id,
            None => r is None,
        }
    } else if e == "agent.message.delta"@ {
        match (run, get_text(p, "delta"@)) {
            (Some(id), Some(d)) => r matches Some(
                SidecarEvent::MessageDelta { run_id, message_id, delta },
            ) && run_id@ == id && message_id@ == text_or(p, "messageId"@, ""@) && delta@ == d,
            _ => r is None,
        }
    } else if e == "agent.message.completed"@ {
        match run {
            Some(id) => r matches Some(SidecarEvent::MessageCompleted { run_id, message_id, content })
                && run_id@ == id && message_id@ == text_or(p, "messageId"@, ""@) && content@
                == text_or(p, "content"@, ""@),
            None => r is None,
        }
    } else if e == "agent.plan.updated"@ {
        match run {
            Some(id) => r matches Some(SidecarEvent::PlanUpdated { run_id, plan }) && run_id@ == id
                && plan == field(p, "plan"@),
            None => r is None,
        }
    } else if e == "agent.reasoning.updated"@ {
        match (run, get_text(p, "reasoning"@)) {
            (Some(id), Some(t)) => r matches Some(SidecarEvent::ReasoningUpdated { run_id, reasoning })
                && run_id@ == id && reasoning@ == t,
            _ => r is None,
        }
    } else if e == "agent.queue.updated"@ {
        match run {
            Some(id) => r matches Some(SidecarEvent::QueueUpdated { run_id, queue }) && run_id@ == id
                && queue == field(p, "queue"@),
            None => r is None,
        }
    } else if e == "agent.subagent.started"@ {
        match (run, get_text(p, "subtaskId"@)) {
            (Some(id), Some(t)) => r matches Some(SidecarEvent::SubagentStarted { run_id, subtask_id })
                && run_id@ == id && subtask_id@ == t,
            _ => r is None,
        }
    } else if e == "agent.subagent.completed"@ {
        match (run, get_text(p, "subtaskId"@)) {
            (Some(id), Some(t)) => r matches Some(
                SidecarEvent::SubagentCompleted { run_id, subtask_id, summary },
            ) && run_id@ == id && subtask_id@ == t && match summary {
                Some(s) => get_text(p, "summary"@) == Some(s@),
                None => get_text(p, "summary"@) is None,
            },
            _ => r is None,
        }
    } else if e == "agent.subagent.failed"@ {
        match (run, get_text(p, "subtaskId"@)) {
            (Some(id), Some(t)) => r matches Some(
                SidecarEvent::SubagentFailed { run_id, subtask_id, error },
            ) && run_id@ == id && subtask_id@ == t && error@ == text_or(p, "error"@, "unknown"@),
            _ => r is None,
        }
    } else if e == "agent.tool.requested"@ {
        match (run, get_text(p, "toolCallId"@), get_text(p, "toolName"@)) {
            (Some(id), Some(c), Some(n)) => r matches Some(
                SidecarEvent::ToolRequested { run_id, tool_call_id, tool_name, tool_input },
            ) && run_id@ == id && tool_call_id@ == c && tool_name@ == n && tool_input == field(
                p,
                "toolInput"@,
            ),
            _ => r is None,
        }
    } else if e == "agent.run.completed"@ {
        match run {
            Some(id) => r matches Some(SidecarEvent::RunCompleted { run_id }) && run_id@ == id,
            None => r is None,
        }
    } else if e == "agent.run.failed"@ {
        match run {
            Some(id) => r matches Some(SidecarEvent::RunFailed { run_id, error }) && run_id@ == id
                && error@ == text_or(p, "error"@, "unknown"@),
            None => r is None,
        }
    } else {
        r is None
    }
}

fn required(p: &Json, key: &str) -> (r: Option<String>)
    ensures
        match r {
            Some(s) => get_text(*p, key@) == Some(s@),
            None => get_text(*p, key@) is None,
        },
{
    match p.get_str(key) {
        Some(s) => Some(clone_string(s)),
        None => None,
    }
}

fn or_default(p: &Json, key: &str, default: &str) -> (r: String)
    ensures
        r@ == text_or(*p, key@, default@),
{
    match p.get_str(key) {
        Some(s) => clone_string(s),
        None => String::from_str(default),
    }
}

impl SidecarEvent {
    /// Reads a raw sidecar event name and payload; unknown events and
    /// payloads missing a required field give `None`.
    pub fn parse(event: &str, payload: Json) -> (r: Option<SidecarEvent>)
        ensures
            parsed_event(event@, payload, r),
    {
        let run_id = match required(&payload, "runId") {
            Some(id) => id,
            None => {
                proof {
                    reveal_strlit("");
                }
                return None;
            },
        };
        proof {
            reveal_strlit("");
        }
        if str_eq(event, "agent.run.started") {
            Some(SidecarEvent::RunStarted { run_id })
        } else if str_eq(event, "agent.message.delta") {
            let delta = match required(&payload, "delta") {
                Some(d) => d,
                None => return None,
            };
            let message_id = or_default(&payload, "messageId", "");
            Some(SidecarEvent::MessageDelta { run_id, message_id, delta })
        } else if str_eq(event, "agent.message.completed") {
            let message_id = or_default(&payload, "messageId", "");
            let content = or_default(&payload, "content", "");
            Some(SidecarEvent::MessageCompleted { run_id, message_id, content })
        } else if str_eq(event, "agent.plan.updated") {
            Some(SidecarEvent::PlanUpdated { run_id, plan: payload.into_field("plan") })
        } else if str_eq(event, "agent.reasoning.updated") {
            match required(&payload, "reasoning") {
                Some(reasoning) => Some(SidecarEvent::ReasoningUpdated { run_id, reasoning }),
                None => None,
            }
        } else if str_eq(event, "agent.queue.updated") {
            Some(SidecarEvent::QueueUpdated { run_id, queue: payload.into_field("queue") })
        } else if str_eq(event, "agent.subagent.started") {
            match required(&payload, "subtaskId") {
                Some(subtask_id) => Some(SidecarEvent::SubagentStarted { run_id, subtask_id }),
                None => None,
            }
        } else if str_eq(event, "agent.subagent.completed") {
            match required(&payload, "subtaskId") {
                Some(subtask_id) => {
                    let summary = required(&payload, "summary");
                    Some(SidecarEvent::SubagentCompleted { run_id, subtask_id, summary })
                },
                None => None,
            }
        } else if str_eq(event, "agent.subagent.failed") {
            match required(&payload, "subtaskId") {
                Some(subtask_id) => {
                    let error = or_default(&payload, "error", "unknown");
                    Some(SidecarEvent::SubagentFailed { run_id, subtask_id, error })
                },
                None => None,
            }
        } else if str_eq(event, "agent.tool.requested") {
            let tool_call_id = match required(&payload, "toolCallId") {
                Some(c) => c,
                None => return None,
            };
            let tool_name = match required(&payload, "toolName") {
                Some(n) => n,
                None => return None,
            };
            Some(
                SidecarEvent::ToolRequested {
                    run_id,
                    tool_call_id,
                    tool_name,
                    tool_input: payload.into_field("toolInput"),
                },
            )
        } else if str_eq(event, "agent.run.completed") {
            Some(SidecarEvent::RunCompleted { run_id })
        } else if str_eq(event, "agent.run.failed") {
            let error = or_default(&payload, "error", "unknown");
            Some(SidecarEvent::RunFailed { run_id, error })
        } else {
            None
        }
    }

    /// The run the event belongs to.
    pub fn run_id(&self) -> (r: &str)
        ensures
            r@ == match self {
                SidecarEvent::RunStarted { run_id } => run_id@,
                SidecarEvent::MessageDelta { run_id, .. } => run_id@,
                SidecarEvent::MessageCompleted { run_id, .. } => run_id@,
                SidecarEvent::PlanUpdated { run_id, .. } => run_id@,
                SidecarEvent::ReasoningUpdated { run_id, .. } => run_id@,
                SidecarEvent::QueueUpdated { run_id, .. } => run_id@,
                SidecarEvent::SubagentStarted { run_id, .. } => run_id@,
                SidecarEvent::SubagentCompleted { run_id, .. } => run_id@,
                SidecarEvent::SubagentFailed { run_id, .. } => run_id@,
                SidecarEvent::ToolRequested { run_id, .. } => run_id@,
                SidecarEvent::RunCompleted { run_id } => run_id@,
                SidecarEvent::RunFailed { run_id, .. } => run_id@,
            },
    {
        match self {
            SidecarEvent::RunStarted { run_id } => run_id.as_str(),
            SidecarEvent::MessageDelta { run_id, .. } => run_id.as_str(),
            SidecarEvent::MessageCompleted { run_id, .. } => run_id.as_str(),
            SidecarEvent::PlanUpdated { run_id, .. } => run_id.as_str(),
            SidecarEvent::ReasoningUpdated { run_id, .. } => run_id.as_str(),
            SidecarEvent::QueueUpdated { run_id, .. } => run_id.as_str(),
            SidecarEvent::SubagentStarted { run_id, .. } => run_id.as_str(),
            SidecarEvent::SubagentCompleted { run_id, .. } => run_id.as_str(),
            SidecarEvent::SubagentFailed { run_id, .. } => run_id.as_str(),
            SidecarEvent::ToolRequested { run_id, .. } => run_id.as_str(),
            SidecarEvent::RunCompleted { run_id } => run_id.as_str(),
            SidecarEvent::RunFailed { run_id, .. } => run_id.as_str(),
        }
    }
}

} // verus!
