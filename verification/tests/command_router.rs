use tiycode::gateway::command_router::{parse, GatewayCommand};

#[test]
fn parse_workspace_commands() {
    assert_eq!(parse("/ws"), GatewayCommand::WorkspaceList);
    assert_eq!(parse("/workspaces"), GatewayCommand::WorkspaceList);
    assert_eq!(
        parse("/ws add /tmp/project"),
        GatewayCommand::WorkspaceAdd {
            path: "/tmp/project".to_string(),
            name: None,
        }
    );
    assert_eq!(
        parse("/ws add /tmp/project My Project"),
        GatewayCommand::WorkspaceAdd {
            path: "/tmp/project".to_string(),
            name: Some("My Project".to_string()),
        }
    );
    assert_eq!(parse("/ws 2"), GatewayCommand::WorkspaceSwitch { index: 2 });
}

#[test]
fn parse_thread_commands() {
    assert_eq!(parse("/threads"), GatewayCommand::ThreadList);
    assert_eq!(parse("/new"), GatewayCommand::ThreadNew { title: None });
    assert_eq!(
        parse("/new Fix login bug"),
        GatewayCommand::ThreadNew {
            title: Some("Fix login bug".to_string()),
        }
    );
    assert_eq!(parse("/resume 3"), GatewayCommand::ThreadResume { index: 3 });
}

#[test]
fn parse_control_commands() {
    assert_eq!(parse("/stop"), GatewayCommand::Stop);
    assert_eq!(parse("/status"), GatewayCommand::Status);
    assert_eq!(parse("/help"), GatewayCommand::Help);
}

#[test]
fn parse_plain_text() {
    assert_eq!(
        parse("hello world"),
        GatewayCommand::PlainText("hello world".to_string())
    );
    assert_eq!(
        parse("  fix the bug  "),
        GatewayCommand::PlainText("fix the bug".to_string())
    );
}

#[test]
fn parse_goal_commands() {
    assert_eq!(parse("/goal"), GatewayCommand::GoalStatus);
    assert_eq!(parse("/goal status"), GatewayCommand::GoalStatus);
    assert_eq!(parse("/goal 查看状态"), GatewayCommand::GoalStatus);
    assert_eq!(parse("/goal cancel"), GatewayCommand::GoalCancel);
    assert_eq!(parse("/goal 取消"), GatewayCommand::GoalCancel);
    assert_eq!(
        parse("/goal fix the auth bugs"),
        GatewayCommand::GoalSet {
            objective: "fix the auth bugs".to_string()
        }
    );
    assert_eq!(
        parse("/goal 修复认证问题"),
        GatewayCommand::GoalSet {
            objective: "修复认证问题".to_string()
        }
    );
}

#[test]
fn parse_goal_unsupported_subcommands() {
    assert_eq!(
        parse("/goal pause"),
        GatewayCommand::GoalUnsupported {
            subcommand: "pause".to_string()
        }
    );
    assert_eq!(
        parse("/goal resume"),
        GatewayCommand::GoalUnsupported {
            subcommand: "resume".to_string()
        }
    );
    assert_eq!(
        parse("/goal clear"),
        GatewayCommand::GoalUnsupported {
            subcommand: "clear".to_string()
        }
    );
}

#[test]
fn parse_case_and_index_edge_cases() {
    assert_eq!(parse("/HELP"), GatewayCommand::Help);
    assert_eq!(parse("/Goal Pause"), GatewayCommand::GoalUnsupported { subcommand: "Pause".to_string() });
    assert_eq!(parse("/ws +7"), GatewayCommand::WorkspaceSwitch { index: 7 });
    assert_eq!(parse("/ws x"), GatewayCommand::PlainText("/ws x".to_string()));
    assert_eq!(parse("/profile"), GatewayCommand::ProfileList);
    assert_eq!(parse("/profile 4"), GatewayCommand::ProfileSwitch { index: 4 });
    assert_eq!(parse("/resume -1"), GatewayCommand::PlainText("/resume -1".to_string()));
    assert_eq!(parse("/ws 99999999999999999999999"), GatewayCommand::PlainText("/ws 99999999999999999999999".to_string()));
    assert_eq!(parse("/new   spaced title  "), GatewayCommand::ThreadNew { title: Some("spaced title".to_string()) });
}

#[test]
fn goal_prefix_and_subcommands_ignore_ascii_case() {
    assert_eq!(parse("/GOAL STATUS"), GatewayCommand::GoalStatus);
    assert_eq!(parse("/gOaL Cancel"), GatewayCommand::GoalCancel);
    assert_eq!(parse("/goalship"), GatewayCommand::GoalSet { objective: "ship".to_string() });
    assert_eq!(parse("/goa"), GatewayCommand::PlainText("/goa".to_string()));
}
