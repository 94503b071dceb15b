//! Approval bridge: formats approval requests for IM users and parses
//! their yes/no answers.
use vstd::prelude::*;
use crate::text::{chars_eq_str, chars_of, lower_text, substring, to_lowercase, trim, trim_str};

verus! {

/// `s` cut to its first `max_chars` characters followed by `...`, or `s`
/// itself when it is no longer than `max_chars`.
pub open spec fn truncated(s: Seq<char>, max_chars: nat) -> Seq<char> {
    if s.len() <= max_chars {
        s
    } else {
        s.subrange(0, max_chars as int) + "..."@
    }
}

/// Truncates tool input for display.
pub fn truncate_input(input: &str, max_chars: usize) -> (r: String)
    ensures
        r@ == truncated(input@, max_chars as nat),
{
    let cs = chars_of(input);
    if cs.len() <= max_chars {
        return String::from_str(input);
    }
    let mut out = substring(&cs, 0, max_chars);
    out.append("...");
    out
}

/// The approval request message for a tool call.
pub open spec fn approval_request_text(tool_name: Seq<char>, tool_input: Seq<char>) -> Seq<char> {
    "⚠️ 工具审批请求\n\n工具: `"@ + tool_name + "`\n输入:\n"@ + truncated(tool_input, 300)
        + "\n\n回复 Y 批准 / N 拒绝"@
}

/// Formats an approval request message for display in IM.
pub fn format_approval_request(tool_name: &str, tool_input: &str) -> (r: String)
    ensures
        r@ == approval_request_text(tool_name@, tool_input@),
{
    let truncated_input = truncate_input(tool_input, 300);
    let mut out = String::from_str("⚠️ 工具审批请求\n\n工具: `");
    out.append(tool_name);
    out.append("`\n输入:\n");
    out.append(truncated_input.as_str());
    out.append("\n\n回复 Y 批准 / N 拒绝");
    out
}

/// The plan approval request message for a plan title.
pub open spec fn plan_approval_request_text(title: Seq<char>) -> Seq<char> {
    "📋 实施计划待审批\n\n计划: "@ + title + "\n\n回复 Y 批准 / N 拒绝"@
}

/// Formats a plan approval request message for display in IM.
pub fn format_plan_approval_request(title: &str) -> (r: String)
    ensures
        r@ == plan_approval_request_text(title@),
{
    let mut out = String::from_str("📋 实施计划待审批\n\n计划: ");
    out.append(title);
    out.append("\n\n回复 Y 批准 / N 拒绝");
    out
}

/// Words that approve a request (compared after trimming and lower-casing).
pub open spec fn is_approve_word(w: Seq<char>) -> bool {
    ||| w == "y"@
    ||| w == "yes"@
    ||| w == "是"@
    ||| w == "批准"@
    ||| w == "approve"@
    ||| w == "ok"@
    ||| w == "确认"@
}

/// Words that reject a request (compared after trimming and lower-casing).
pub open spec fn is_reject_word(w: Seq<char>) -> bool {
    ||| w == "n"@
    ||| w == "no"@
    ||| w == "否"@
    ||| w == "拒绝"@
    ||| w == "reject"@
    ||| w == "deny"@
    ||| w == "取消"@
}

/// The decision a normalized answer word stands for.
pub open spec fn approval_decision(w: Seq<char>) -> Option<bool> {
    if is_approve_word(w) {
        Some(true)
    } else if is_reject_word(w) {
        Some(false)
    } else {
        None
    }
}

/// Classifies an already trimmed and lower-cased answer.
pub fn classify_approval_word(w: &str) -> (r: Option<bool>)
    ensures
        r == approval_decision(w@),
{
    let cs = chars_of(w);
    let c = cs.as_slice();
    if chars_eq_str(c, "y") || chars_eq_str(c, "yes") || chars_eq_str(c, "是") || chars_eq_str(
        c,
        "批准",
    ) || chars_eq_str(c, "approve") || chars_eq_str(c, "ok") || chars_eq_str(c, "确认") {
        Some(true)
    } else if chars_eq_str(c, "n") || chars_eq_str(c, "no") || chars_eq_str(c, "否")
        || chars_eq_str(c, "拒绝") || chars_eq_str(c, "reject") || chars_eq_str(c, "deny")
        || chars_eq_str(c, "取消") {
        Some(false)
    } else {
        None
    }
}

/// Parses a user's approval response: `Some(true)` approves, `Some(false)`
/// rejects, `None` is unrecognized.
pub fn parse_approval_response(text: &str) -> (r: Option<bool>)
    ensures
        r == approval_decision(lower_text(trim(text@))),
{
    let trimmed = trim_str(text);
    let lowered = to_lowercase(trimmed.as_str());
    classify_approval_word(lowered.as_str())
}

} // verus!
