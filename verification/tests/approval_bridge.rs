use tiycode::gateway::approval_bridge::{
    classify_approval_word, format_approval_request, format_plan_approval_request,
    parse_approval_response, truncate_input,
};

#[test]
fn parse_approval_yes() {
    assert_eq!(parse_approval_response("Y"), Some(true));
    assert_eq!(parse_approval_response("yes"), Some(true));
    assert_eq!(parse_approval_response("是"), Some(true));
    assert_eq!(parse_approval_response("  ok  "), Some(true));
}

#[test]
fn parse_approval_no() {
    assert_eq!(parse_approval_response("N"), Some(false));
    assert_eq!(parse_approval_response("no"), Some(false));
    assert_eq!(parse_approval_response("拒绝"), Some(false));
}

#[test]
fn parse_approval_unrecognized() {
    assert_eq!(parse_approval_response("maybe"), None);
    assert_eq!(parse_approval_response("hello"), None);
    assert_eq!(parse_approval_response(""), None);
}

#[test]
fn truncate_short_input() {
    assert_eq!(truncate_input("short", 100), "short");
}

#[test]
fn truncate_long_input() {
    let long = "a".repeat(500);
    let result = truncate_input(&long, 300);
    assert!(result.ends_with("..."));
    assert!(result.len() < 310);
}

#[test]
fn format_plan_approval_request_contains_title() {
    let msg = format_plan_approval_request("Refactor runtime");
    assert!(msg.contains("📋"));
    assert!(msg.contains("Refactor runtime"));
    assert!(msg.contains("Y"));
    assert!(msg.contains("N"));
}

#[test]
fn truncate_keeps_exact_prefix_and_marker() {
    assert_eq!(truncate_input("abcdef", 3), "abc...");
    assert_eq!(truncate_input("abc", 3), "abc");
    assert_eq!(truncate_input("批准批准", 2), "批准...");
}

#[test]
fn format_approval_request_exact_text() {
    let msg = format_approval_request("shell", "ls -la");
    assert_eq!(
        msg,
        "⚠️ 工具审批请求\n\n工具: `shell`\n输入:\nls -la\n\n回复 Y 批准 / N 拒绝"
    );
    let long = "x".repeat(301);
    let msg = format_approval_request("t", &long);
    assert!(msg.contains(&format!("{}...", "x".repeat(300))));
}

#[test]
fn approval_words_are_matched_after_lowercasing() {
    assert_eq!(parse_approval_response("  APPROVE "), Some(true));
    assert_eq!(parse_approval_response("Deny"), Some(false));
    assert_eq!(parse_approval_response("取消"), Some(false));
    assert_eq!(classify_approval_word("Yes"), None);
    assert_eq!(classify_approval_word("确认"), Some(true));
}
