use tiycode::gateway::platforms::weixin::{getconfig_body, typing_ticket_choice, TypingTickets, TYPING_STATUS_CANCEL, TYPING_STATUS_TYPING};
use tiycode::gateway::runner::{state_debug_text, status_reply};
use tiycode::gateway::message_formatter::MessageAccumulator;
use tiycode::gateway::runner::{after_approval, finish_run, on_run_event, PumpAction, RunEvent};
use tiycode::gateway::platforms::wecom::{outbound_text, ping_payload, send_frame, subscribe_payload};
use tiycode::gateway::platforms::wecom::new_req_id;
use tiycode::gateway::command_router::{parse, GatewayCommand};
use tiycode::gateway::dedup::TtlCache;
use tiycode::gateway::platforms::wecom::{
    ack_req_id, build_frame, extract_text, handshake_step, jstr, parse_message as wecom_parse_message,
    send_result_from_ack, HandshakeStep, WecomReader,
};
use tiycode::gateway::platforms::weixin::{
    context_token_key, getupdates_error, poll_backoff, reply_code_of, send_step, typing_ticket_from_reply,
    updated_sync_buf, SendAttempt, SendStep, WeixinInbox,
};
use tiycode::gateway::platforms::weixin_auth::{
    api_url, login_step, new_wechat_uin, wechat_uin_for, session_file_path_under, LoginPollStatus, LoginStep, WeixinSession,
};
use tiycode::gateway::runner::{
    after_run, dispatch_command, reconnect_backoff_delay, route_inbound, welcome_message, DispatchAction,
    InboundAction, RunExitReason,
};
use tiycode::gateway::traits::{InboundMessage, Platform};
use tiycode::gateway::user_session::{SessionState, UserSession};
use tiycode::json::Json;

fn s(t: &str) -> Json {
    Json::Str(t.to_string())
}

fn obj(fields: Vec<(&str, Json)>) -> Json {
    Json::Object(fields.into_iter().map(|(k, v)| (k.to_string(), v)).collect())
}

fn inbound(id: &str, sender: &str, chat: &str, text: &str) -> InboundMessage {
    InboundMessage {
        message_id: id.to_string(),
        sender_id: sender.to_string(),
        chat_id: chat.to_string(),
        text: text.to_string(),
        is_group: false,
        media_urls: vec![],
        media_attachments: vec![],
        req_id: None,
    }
}

#[test]
fn reconnect_delays_follow_the_schedule_and_cap_at_a_minute() {
    let got: Vec<u64> = (0..7).map(reconnect_backoff_delay).collect();
    assert_eq!(got, vec![2, 5, 10, 30, 60, 60, 60]);
    assert_eq!(after_run(3, RunExitReason::Failed), (4, 30));
    assert_eq!(after_run(9, RunExitReason::AdapterDisconnected), (10, 60));
    assert_eq!(after_run(9, RunExitReason::ConfigChanged), (0, 0));
}

#[test]
fn first_message_gets_the_welcome_only_once() {
    let mut session = UserSession::new(Platform::Weixin, "u1".to_string());
    let mut welcome_sent = false;
    assert!(matches!(route_inbound(&mut session, &mut welcome_sent, "hello"), InboundAction::Welcome));
    assert!(welcome_sent);
    assert!(welcome_message().contains("/ws add"));
    match route_inbound(&mut session, &mut welcome_sent, "/help") {
        InboundAction::Dispatch(GatewayCommand::Help) => {}
        other => panic!("unexpected {:?}", other),
    }
}

#[test]
fn running_agent_is_steered_or_stopped() {
    let mut session = UserSession::new(Platform::Wecom, "u1".to_string());
    session.current_thread_id = Some("t1".to_string());
    session.state = SessionState::AgentRunning { run_id: "r1".to_string() };
    let mut welcome_sent = true;
    match route_inbound(&mut session, &mut welcome_sent, "  go left  ") {
        InboundAction::Steer { thread_id, text } => {
            assert_eq!(thread_id, "t1");
            assert_eq!(text, "go left");
        }
        other => panic!("unexpected {:?}", other),
    }
    match route_inbound(&mut session, &mut welcome_sent, " /STOP ") {
        InboundAction::StopRun { thread_id } => assert_eq!(thread_id.as_deref(), Some("t1")),
        other => panic!("unexpected {:?}", other),
    }
    assert!(matches!(session.state, SessionState::Idle));
}

#[test]
fn approval_waits_for_yes_or_no() {
    let mut session = UserSession::new(Platform::Wecom, "u1".to_string());
    session.state = SessionState::AwaitingApproval { tool_call_id: "c".to_string(), tool_name: "shell".to_string() };
    let mut welcome_sent = true;
    assert!(matches!(route_inbound(&mut session, &mut welcome_sent, " Yes "), InboundAction::ApprovalAnswer(true)));
    assert!(matches!(route_inbound(&mut session, &mut welcome_sent, "no"), InboundAction::ApprovalAnswer(false)));
    assert!(matches!(route_inbound(&mut session, &mut welcome_sent, "maybe"), InboundAction::ApprovalReminder));
}

#[test]
fn dispatch_needs_workspace_and_thread_first() {
    let mut session = UserSession::new(Platform::Weixin, "u1".to_string());
    match dispatch_command(&mut session, parse("/threads")) {
        DispatchAction::Reply(t) => assert_eq!(t, "❌ 请先选择 workspace，发送 /ws 查看列表"),
        other => panic!("unexpected {:?}", other),
    }
    match dispatch_command(&mut session, parse("hello")) {
        DispatchAction::Reply(t) => assert_eq!(t, "❌ 请先进入会话，发送 /threads 查看列表或 /new 创建新会话"),
        other => panic!("unexpected {:?}", other),
    }
    match dispatch_command(&mut session, parse("/ws 3")) {
        DispatchAction::Reply(t) => assert_eq!(t, "❌ 无效编号，请先发送 /ws 查看列表"),
        other => panic!("unexpected {:?}", other),
    }
    match dispatch_command(&mut session, parse("/stop")) {
        DispatchAction::Reply(t) => assert_eq!(t, "当前没有运行中的任务"),
        other => panic!("unexpected {:?}", other),
    }
    session.current_workspace_id = Some("w1".to_string());
    match dispatch_command(&mut session, parse("/new")) {
        DispatchAction::CreateThread { workspace_id, title } => {
            assert_eq!(workspace_id, "w1");
            assert_eq!(title, "IM 会话");
        }
        other => panic!("unexpected {:?}", other),
    }
    session.current_thread_id = Some("t9".to_string());
    match dispatch_command(&mut session, parse("fix the bug")) {
        DispatchAction::RunPrompt { thread_id, prompt } => {
            assert_eq!(thread_id, "t9");
            assert_eq!(prompt, "fix the bug");
        }
        other => panic!("unexpected {:?}", other),
    }
}

#[test]
fn ttl_cache_reports_repeats_within_the_time_to_live() {
    let mut cache = TtlCache::new(1_000, 2);
    assert!(!cache.check_and_record("a", 100));
    assert!(cache.check_and_record("a", 1_099));
    assert!(!cache.check_and_record("a", 1_100));
    assert!(!cache.check_and_record("b", 1_100));
    assert!(cache.is_fresh("b", 1_500));
    cache.record("c", 5_000);
    cache.evict_expired(5_000);
    assert_eq!(cache.len(), 1);
    cache.record("d", 5_001);
    cache.record("e", 5_002);
    cache.evict_oldest(1);
    assert_eq!(cache.len(), 1);
    assert!(cache.is_fresh("e", 5_002));
}

#[test]
fn wecom_frames_handshake_and_messages() {
    match build_frame("ping", "r1", obj(vec![])) {
        Json::Object(f) => {
            assert_eq!(f[0].0, "cmd");
            assert!(matches!(&f[0].1, Json::Str(c) if c == "ping"));
        }
        other => panic!("unexpected {:?}", other),
    }
    assert!(matches!(jstr("x"), Json::Str(t) if t == "x"));
    let ok = obj(vec![("cmd", s("aibot_subscribe")), ("headers", obj(vec![("req_id", s("sub-1"))])), ("body", obj(vec![("errcode", Json::Int(0))]))]);
    assert!(matches!(handshake_step(Some(&ok), "sub-1"), HandshakeStep::Subscribed));
    assert!(matches!(handshake_step(Some(&ok), "sub-2"), HandshakeStep::Wait));
    assert!(matches!(handshake_step(None, "sub-1"), HandshakeStep::Wait));
    let refused = obj(vec![("headers", obj(vec![("req_id", s("sub-1"))])), ("body", obj(vec![("errcode", Json::Int(40001)), ("errmsg", s("bad secret"))]))]);
    match handshake_step(Some(&refused), "sub-1") {
        HandshakeStep::Refused(e) => assert_eq!(e, "subscribe authentication failed: errcode=40001 errmsg=bad secret"),
        other => panic!("unexpected {:?}", other),
    }

    let ack = obj(vec![("headers", obj(vec![("req_id", s("send-1"))])), ("body", obj(vec![("errcode", Json::Int(0))]))]);
    assert_eq!(ack_req_id(&ack).as_deref(), Some("send-1"));
    assert!(send_result_from_ack(&ack, "send-1".to_string()).success);
    assert_eq!(ack_req_id(&ok), None);

    let body = obj(vec![
        ("msgid", s("m1")),
        ("chatid", s("")),
        ("from", obj(vec![("userid", s("alice"))])),
        ("msgtype", s("text")),
        ("text", obj(vec![("content", s("  hi there  "))])),
    ]);
    let (text, quote) = extract_text(&body);
    assert_eq!(text, "hi there");
    assert_eq!(quote, None);
    let frame = obj(vec![("cmd", s("aibot_msg_callback")), ("headers", obj(vec![("req_id", s("cb-1"))])), ("body", body)]);
    let m = wecom_parse_message(&frame).unwrap();
    assert_eq!((m.message_id.as_str(), m.sender_id.as_str(), m.chat_id.as_str(), m.text.as_str()), ("m1", "alice", "alice", "hi there"));
    assert_eq!(m.req_id.as_deref(), Some("cb-1"));
    assert!(wecom_parse_message(&obj(vec![("cmd", s("ping"))])).is_none());
}

#[test]
fn wecom_reader_merges_pieces_and_drops_repeats() {
    let mut reader = WecomReader::new();
    assert_eq!(reader.debounce_ms(), 600);
    assert!(reader.on_message(inbound("1", "a", "c", "part one"), 0).is_none());
    assert!(reader.on_message(inbound("2", "a", "c", "part two"), 100).is_none());
    // The same id again within five minutes is dropped.
    assert!(reader.on_message(inbound("2", "a", "c", "part two"), 200).is_none());
    let out = reader.on_message(inbound("3", "b", "c", "other"), 300).unwrap();
    assert_eq!(out.text, "part one\npart two");
    assert_eq!(out.message_id, "1");
    assert_eq!(reader.on_timeout().unwrap().text, "other");
    assert!(reader.flush().is_none());
}

fn update(id: i64, from: &str, text: &str) -> Json {
    obj(vec![
        ("message_id", Json::Int(id)),
        ("from_user_id", s(from)),
        ("item_list", Json::Array(vec![obj(vec![("text_item", obj(vec![("text", s(text))]))])])),
    ])
}

#[test]
fn weixin_inbox_drops_redelivery_own_echo_and_repeated_text() {
    let mut inbox = WeixinInbox::new("bot".to_string(), "cdn.example.com".to_string());
    let m = inbox.parse_update(&update(7, "alice", "hello"), None, 1_000).unwrap();
    assert_eq!((m.message_id.as_str(), m.sender_id.as_str(), m.chat_id.as_str(), m.text.as_str()), ("7", "alice", "alice", "hello"));
    // Redelivery of the same id within the time-to-live.
    assert!(inbox.parse_update(&update(7, "alice", "hello"), None, 2_000).is_none());
    // The same text under another id, from the same sender, is a repeat too.
    assert!(inbox.parse_update(&update(8, "alice", "hello"), None, 3_000).is_none());
    // Numbers are exempt from the content check.
    assert!(inbox.parse_update(&update(9, "alice", "2"), None, 3_000).is_some());
    assert!(inbox.parse_update(&update(10, "alice", "2"), None, 3_100).is_some());
    // The bot's own messages are dropped.
    assert!(inbox.parse_update(&update(11, "bot", "echo"), None, 3_000).is_none());
}

#[test]
fn weixin_polling_and_sending_policies() {
    assert_eq!(poll_backoff("[session_expired] x", 1), None);
    assert_eq!(poll_backoff("[rate_limited]", 2), Some(6_000));
    assert_eq!(poll_backoff("[rate_limited]", 50), Some(30_000));
    assert_eq!(poll_backoff("boom", 3), Some(30_000));
    assert_eq!(poll_backoff("boom", 1), Some(2_000));

    assert!(matches!(send_step(0, SendAttempt::Reply { errcode: 0, errmsg: String::new() }), SendStep::Done(r) if r.success));
    assert!(matches!(send_step(0, SendAttempt::Reply { errcode: -14, errmsg: String::new() }), SendStep::RetryWithoutToken));
    assert!(matches!(send_step(1, SendAttempt::Reply { errcode: -14, errmsg: String::new() }), SendStep::ClearSession(_)));
    assert!(matches!(send_step(1, SendAttempt::Transport("io".to_string())), SendStep::RetryAfter(2000)));
    match send_step(3, SendAttempt::Reply { errcode: 5, errmsg: "busy".to_string() }) {
        SendStep::Done(r) => assert_eq!(r.error.as_deref(), Some("send failed: 5 busy")),
        other => panic!("unexpected {:?}", other),
    }

    assert_eq!(context_token_key("acc", "peer"), "acc:peer");
    assert_eq!(reply_code_of(&obj(vec![("errcode", Json::Int(-3))])), -3);
    assert_eq!(typing_ticket_from_reply(&obj(vec![("ret", Json::Int(0)), ("typing_ticket", s("tk"))])).as_deref(), Some("tk"));
    assert_eq!(typing_ticket_from_reply(&obj(vec![("ret", Json::Int(1)), ("typing_ticket", s("tk"))])), None);
    assert_eq!(updated_sync_buf(&obj(vec![("get_updates_buf", s("buf2"))])).as_deref(), Some("buf2"));
    assert!(getupdates_error(&obj(vec![("ret", Json::Int(0))])).is_none());
}

#[test]
fn weixin_login_loop_decisions() {
    assert_eq!(api_url("ilinkai.weixin.qq.com", "getupdates"), "https://ilinkai.weixin.qq.com/ilink/bot/getupdates");
    assert_eq!(session_file_path_under(Some("/home/u")), "/home/u/.tiy/gateway/weixin/session.json");
    assert_eq!(session_file_path_under(None), "./.tiy/gateway/weixin/session.json");
    assert!(matches!(login_step(LoginPollStatus::WaitingScan, 0), LoginStep::Poll));
    assert!(matches!(login_step(LoginPollStatus::WaitingConfirm, 98), LoginStep::Poll));
    match login_step(LoginPollStatus::WaitingScan, 99) {
        LoginStep::Fail(e) => assert_eq!(e, "login timed out after 100 attempts"),
        other => panic!("unexpected {:?}", other),
    }
    match login_step(LoginPollStatus::Expired, 3) {
        LoginStep::Fail(e) => assert_eq!(e, "QR code expired, please retry"),
        other => panic!("unexpected {:?}", other),
    }
    match login_step(LoginPollStatus::Failed { error: "denied".to_string() }, 3) {
        LoginStep::Fail(e) => assert_eq!(e, "login failed: denied"),
        other => panic!("unexpected {:?}", other),
    }
    let session = WeixinSession { token: "tok".to_string(), account_id: "acc".to_string(), created_at: 1 };
    match login_step(LoginPollStatus::Success { session }, 5) {
        LoginStep::Done(s) => assert_eq!(s.account_id, "acc"),
        other => panic!("unexpected {:?}", other),
    }
}

#[test]
fn wechat_uin_is_base64_of_decimal() {
    assert_eq!(wechat_uin_for(12345), "MTIzNDU=");
    assert!(!new_wechat_uin().is_empty());
}

fn get<'a>(v: &'a Json, key: &str) -> Option<&'a Json> {
    match v {
        Json::Object(f) => f.iter().find(|(k, _)| k == key).map(|(_, v)| v),
        _ => None,
    }
}

fn text_of(v: Option<&Json>) -> Option<String> {
    match v {
        Some(Json::Str(s)) => Some(s.clone()),
        _ => None,
    }
}

#[test]
fn run_events_accumulate_the_reply_and_finish() {
    let mut session = UserSession::new(Platform::Weixin, "u".to_string());
    let mut acc = MessageAccumulator::new();
    assert!(matches!(on_run_event(&mut acc, &mut session, RunEvent::MessageDelta("Hel".to_string())), PumpAction::Continue));
    assert!(matches!(on_run_event(&mut acc, &mut session, RunEvent::MessageDelta("lo".to_string())), PumpAction::Continue));
    match on_run_event(
        &mut acc,
        &mut session,
        RunEvent::ApprovalRequired { tool_call_id: "c1".to_string(), tool_name: "shell".to_string(), tool_input: "ls".to_string() },
    ) {
        PumpAction::AskApproval { message } => assert!(message.contains("shell")),
        other => panic!("unexpected {:?}", other),
    }
    assert!(matches!(session.state, SessionState::AwaitingApproval { .. }));
    assert_eq!(after_approval(&mut session, "r1", true, Some(true)).as_deref(), Some("✅ 已批准"));
    assert!(matches!(session.state, SessionState::AgentRunning { .. }));
    assert_eq!(after_approval(&mut session, "r1", false, Some(false)).as_deref(), Some("⚠️ 审批请求已过期"));
    assert!(matches!(on_run_event(&mut acc, &mut session, RunEvent::RunFailed("boom".to_string())), PumpAction::Finish));
    let chunks = finish_run(acc, &mut session, Platform::Weixin);
    assert_eq!(chunks, vec!["Hello\n\n❌ 错误: boom".to_string()]);
    assert!(matches!(session.state, SessionState::Idle));
    let empty = finish_run(MessageAccumulator::new(), &mut session, Platform::Wecom);
    assert_eq!(empty, vec!["(Agent 未产生输出)".to_string()]);
}

#[test]
fn wecom_outbound_frames() {
    let (rid, frame) = send_frame("chat-1", "hi", None);
    assert_eq!(text_of(get(&frame, "cmd")).as_deref(), Some("aibot_send_msg"));
    assert_eq!(text_of(get(get(&frame, "headers").unwrap(), "req_id")), Some(rid));
    let body = get(&frame, "body").unwrap();
    assert_eq!(text_of(get(body, "chatid")).as_deref(), Some("chat-1"));
    assert_eq!(text_of(get(get(body, "markdown").unwrap(), "content")).as_deref(), Some("hi"));
    let (rid, frame) = send_frame("group-1", "yo", Some("req-9"));
    assert_eq!(rid, "req-9");
    assert_eq!(text_of(get(&frame, "cmd")).as_deref(), Some("aibot_respond_msg"));
    let (_, sub) = subscribe_payload("bot", "sec", "dev");
    assert_eq!(text_of(get(get(&sub, "body").unwrap(), "secret")).as_deref(), Some("sec"));
    assert_eq!(text_of(get(&ping_payload(), "cmd")).as_deref(), Some("ping"));
    let long = "x".repeat(4001);
    let out = outbound_text(&long);
    assert_eq!(out.chars().count(), 3980 + "\n\n…(已截断)".chars().count());
    assert_eq!(outbound_text("short"), "short");
}

#[test]
fn status_reply_shows_names_ids_and_debug_state() {
    let mut session = UserSession::new(Platform::Weixin, "u".to_string());
    assert_eq!(
        status_reply(&session, None, None),
        "📊 当前状态:\n  Workspace: (未设置)\n  会话: (未设置)\n  状态: Idle"
    );
    session.current_workspace_id = Some("w1".to_string());
    session.current_thread_id = Some("t1".to_string());
    session.state = SessionState::AgentRunning { run_id: "r\"1".to_string() };
    assert_eq!(
        status_reply(&session, Some("Main".to_string()), None),
        "📊 当前状态:\n  Workspace: Main\n  会话: t1\n  状态: AgentRunning { run_id: \"r\\\"1\" }"
    );
    let st = SessionState::AwaitingApproval { tool_call_id: "c".to_string(), tool_name: "sh".to_string() };
    assert_eq!(state_debug_text(&st), format!("{:?}", st));
}

#[test]
fn typing_tickets_last_a_day_and_cancel_never_fetches() {
    let mut tickets = TypingTickets::new();
    assert_eq!(typing_ticket_choice(&tickets, "u1", TYPING_STATUS_TYPING, 0), (None, true));
    assert_eq!(typing_ticket_choice(&tickets, "u1", TYPING_STATUS_CANCEL, 0), (None, false));
    tickets.store("u1", "tk1".to_string(), 1_000);
    assert_eq!(tickets.fresh_ticket("u1", 1_000 + 86_399_999).as_deref(), Some("tk1"));
    assert_eq!(tickets.fresh_ticket("u1", 1_000 + 86_400_000), None);
    assert_eq!(tickets.fresh_ticket("u2", 1_000), None);
    tickets.store("u1", "tk2".to_string(), 2_000);
    assert_eq!(typing_ticket_choice(&tickets, "u1", TYPING_STATUS_CANCEL, 3_000), (Some("tk2".to_string()), false));

    let with = getconfig_body("u1", Some("ctx"));
    assert_eq!(text_of(get(&with, "context_token")).as_deref(), Some("ctx"));
    assert_eq!(text_of(get(get(&with, "base_info").unwrap(), "channel_version")).as_deref(), Some("2.2.0"));
    assert!(get(&getconfig_body("u1", None), "context_token").is_none());
}

#[test]
fn wecom_request_id_is_prefix_and_v4_uuid_hex() {
    let id = new_req_id("ping");
    assert_eq!(id.len(), "ping-".len() + 32);
    assert!(id.starts_with("ping-"));
    let hex: Vec<char> = id["ping-".len()..].chars().collect();
    assert!(hex.iter().all(|c| c.is_ascii_digit() || ('a'..='f').contains(c)));
    assert_eq!(hex[12], '4');
    assert!(matches!(hex[16], '8' | '9' | 'a' | 'b'));
    assert_ne!(new_req_id("ping"), id);
}

#[test]
fn wecom_message_without_ids_gets_a_fresh_hyphenated_uuid() {
    let body = obj(vec![
        ("from", obj(vec![("userid", s("bob"))])),
        ("msgtype", s("text")),
        ("text", obj(vec![("content", s("hello"))])),
    ]);
    let frame = obj(vec![("cmd", s("aibot_callback")), ("body", body)]);
    let m = wecom_parse_message(&frame).unwrap();
    let id: Vec<char> = m.message_id.chars().collect();
    assert_eq!(id.len(), 36);
    for (i, c) in id.iter().enumerate() {
        if [8, 13, 18, 23].contains(&i) {
            assert_eq!(*c, '-');
        } else {
            assert!(c.is_ascii_digit() || ('a'..='f').contains(c));
        }
    }
    assert_eq!(id[14], '4');
    assert_eq!(m.req_id, None);
    assert_eq!(m.chat_id, "bob");
}

fn workspace(id: &str, name: &str) -> tiycode::model::workspace::WorkspaceRecord {
    let t = tiycode::time::UtcDateTime::from_timestamp(0, 0).unwrap();
    tiycode::model::workspace::WorkspaceRecord {
        id: id.to_string(),
        name: name.to_string(),
        path: format!("/{name}"),
        canonical_path: format!("/{name}"),
        display_path: format!("~/{name}"),
        is_default: false,
        is_git: false,
        auto_work_tree: false,
        status: tiycode::model::workspace::WorkspaceStatus::Ready,
        last_validated_at: None,
        created_at: t,
        updated_at: t,
        kind: tiycode::model::workspace::WorkspaceKind::Standalone,
        parent_workspace_id: None,
        git_common_dir: None,
        branch: None,
        worktree_name: None,
    }
}

#[test]
fn workspace_number_zero_is_invalid_and_numbers_are_one_based() {
    let mut session = UserSession::new(Platform::Weixin, "u1".to_string());
    session.cached_workspaces = vec![workspace("w1", "alpha"), workspace("w2", "beta")];
    match dispatch_command(&mut session, parse("/ws 0")) {
        DispatchAction::Reply(t) => assert_eq!(t, "❌ 无效编号，请先发送 /ws 查看列表"),
        other => panic!("unexpected {:?}", other),
    }
    assert_eq!(session.current_workspace_id, None);
    match dispatch_command(&mut session, parse("/ws 2")) {
        DispatchAction::Reply(t) => assert_eq!(t, "✅ 已切换到: beta"),
        other => panic!("unexpected {:?}", other),
    }
    assert_eq!(session.current_workspace_id.as_deref(), Some("w2"));
    session.state = SessionState::AwaitingWorkspaceSelection;
    assert_eq!(
        tiycode::gateway::runner::handle_number_selection(&mut session, 0),
        Some((false, "❌ 无效编号，请先发送 /ws 查看列表".to_string()))
    );
    assert_eq!(session.current_workspace_id.as_deref(), Some("w2"));
    assert!(matches!(session.state, SessionState::Idle));
}

#[test]
fn a_published_plan_is_shown_and_a_checkpoint_ends_the_pump_without_reply() {
    let mut session = UserSession::new(Platform::Weixin, "u".to_string());
    let mut acc = MessageAccumulator::new();
    match on_run_event(
        &mut acc,
        &mut session,
        RunEvent::PlanUpdated { design_markdown: "## Design\nstep".to_string(), title: "Refactor".to_string() },
    ) {
        PumpAction::ShowPlan { design_markdown, approval_request } => {
            assert_eq!(design_markdown, "## Design\nstep");
            assert_eq!(approval_request, "📋 实施计划待审批\n\n计划: Refactor\n\n回复 Y 批准 / N 拒绝");
        }
        other => panic!("unexpected {:?}", other),
    }
    assert!(matches!(on_run_event(&mut acc, &mut session, RunEvent::RunCheckpointed), PumpAction::AwaitPlanApproval));
    assert!(acc.is_empty());
    assert!(matches!(session.state, SessionState::Idle));
}

#[test]
fn over_capacity_the_stale_keys_go_and_the_fresh_stay() {
    let mut c = TtlCache::new(100, 2);
    assert!(!c.check_and_record("old", 0));
    assert!(!c.check_and_record("mid", 150));
    assert_eq!(c.len(), 2);
    assert!(!c.check_and_record("new", 160));
    assert_eq!(c.len(), 2);
    assert!(!c.is_fresh("old", 160));
    assert!(c.is_fresh("mid", 160));
    assert!(c.is_fresh("new", 160));
    assert!(c.check_and_record("mid", 200));
    assert_eq!(c.len(), 2);
}
