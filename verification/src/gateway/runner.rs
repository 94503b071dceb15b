//! Decisions of the gateway runner. The runner loop (in the application)
//! watches the configuration, connects the platform adapter, reads inbound
//! messages and agent events; every decision it takes is made here, from
//! the session state and the event at hand, and returned as the action to
//! perform.
use vstd::prelude::*;
use crate::gateway::approval_bridge::{approval_decision, parse_approval_response, plan_approval_request_text};
use crate::gateway::command_router::{command_of, parse, CommandView, GatewayCommand};
use crate::gateway::config::{has_active_section, GatewayConfig};
use crate::gateway::message_formatter::{
    chunks_of, format_and_split, profile_list_text, render_profile_list, render_thread_list,
    render_workspace_list, str_view, thread_list_text, workspace_list_text, MessageAccumulator,
};
use crate::gateway::platforms::weixin_media::{media_type_name, MediaAttachment};
use crate::gateway::traits::Platform;
use crate::model::provider::AgentProfileRecord;
use crate::model::thread::ThreadSummaryDto;
use crate::model::workspace::WorkspaceRecord;
use crate::gateway::user_session::{SessionState, UserSession};
use crate::text::{
    chars_eq_ignore_ascii_case, chars_of, clone_string, decimal, decimal_string,
    eq_ignore_ascii_case, lower_text, parse_usize, parse_usize_spec, str_eq, trim, trim_chars,
    trim_str,
};

verus! {

/// The reconnect delay schedule, in seconds.
pub open spec fn backoff_schedule() -> Seq<u64> {
    seq![2, 5, 10, 30, 60]
}

/// The delay before reconnect attempt `attempt` (counting from zero): the
/// schedule's entry, the last one for every attempt past its end.
pub open spec fn backoff_seconds(attempt: nat) -> u64 {
    if attempt < 4 {
        backoff_schedule()[attempt as int]
    } else {
        60
    }
}

/// The reconnect delay in seconds for a consecutive-attempt index; sustained
/// outages settle at the longest interval.
pub fn reconnect_backoff_delay(attempt: usize) -> (r: u64)
    ensures
        r == backoff_seconds(attempt as nat),
{
    let schedule: [u64; 5] = [2, 5, 10, 30, 60];
    let idx: usize = if attempt < 4 {
        attempt
    } else {
        4
    };
    schedule[idx]
}

/// The delay never shrinks as failures continue, and never exceeds a minute.
pub proof fn lemma_backoff_monotone(a: nat, b: nat)
    requires
        a <= b,
    ensures
        backoff_seconds(a) <= backoff_seconds(b),
        2 <= backoff_seconds(b) <= 60,
{
}

/// Whether a configuration enables a channel the runner can drive.
pub open spec fn has_enabled_channel(c: GatewayConfig) -> bool {
    (c.weixin matches Some(w) && w.enabled) || (c.wecom matches Some(w) && w.enabled)
}

/// Accepts a loaded configuration when it is valid and enables a channel;
/// `None` (no file, or one that does not parse) stays `None`.
pub fn try_load_config(loaded: Option<GatewayConfig>) -> (r: Option<GatewayConfig>)
    ensures
        match loaded {
            Some(c) => if has_active_section(c) && has_enabled_channel(c) {
                r == Some(c)
            } else {
                r is None
            },
            None => r is None,
        },
{
    match loaded {
        Some(c) => {
            if c.validate().is_err() {
                return None;
            }
            let weixin = match &c.weixin {
                Some(w) => w.enabled,
                None => false,
            };
            let wecom = match &c.wecom {
                Some(w) => w.enabled,
                None => false,
            };
            if weixin || wecom {
                Some(c)
            } else {
                None
            }
        },
        None => None,
    }
}

/// The platform whose adapter the runner starts for a configuration: WeCom
/// and WeChat, when their section is present.
pub open spec fn adapter_platform_of(c: GatewayConfig) -> Option<Platform> {
    match c.platform {
        Platform::Wecom => if c.wecom is Some {
            Some(Platform::Wecom)
        } else {
            None
        },
        Platform::Weixin => if c.weixin is Some {
            Some(Platform::Weixin)
        } else {
            None
        },
        _ => None,
    }
}

/// Which adapter to start, if any; without one the runner idles.
pub fn adapter_platform(config: &GatewayConfig) -> (r: Option<Platform>)
    ensures
        r == adapter_platform_of(*config),
{
    match config.platform {
        Platform::Wecom => if config.wecom.is_some() {
            Some(Platform::Wecom)
        } else {
            None
        },
        Platform::Weixin => if config.weixin.is_some() {
            Some(Platform::Weixin)
        } else {
            None
        },
        _ => None,
    }
}

/// How a run of the adapter ended.
#[derive(Debug, Clone, Copy, PartialEq, Eq, Structural)]
pub enum RunExitReason {
    /// The configuration file changed.
    ConfigChanged,
    /// The adapter's message stream ended.
    AdapterDisconnected,
    /// The adapter failed.
    Failed,
}

/// The reconnect counter and delay after a run ended: a configuration
/// change reloads at once and resets the counter; a disconnect or failure
/// waits the scheduled delay and counts one more attempt.
pub fn after_run(attempt: usize, reason: RunExitReason) -> (r: (usize, u64))
    ensures
        reason == RunExitReason::ConfigChanged ==> r == (0usize, 0u64),
        reason != RunExitReason::ConfigChanged ==> r.1 == backoff_seconds(attempt as nat)
            && r.0 == (if attempt == usize::MAX {
            attempt
        } else {
            (attempt + 1) as usize
        }),
{
    match reason {
        RunExitReason::ConfigChanged => (0, 0),
        _ => {
            let delay = reconnect_backoff_delay(attempt);
            let next = if attempt == usize::MAX {
                attempt
            } else {
                attempt + 1
            };
            (next, delay)
        },
    }
}

/// The greeting sent on the first message of a new user.
pub open spec fn welcome_text() -> Seq<char> {
    "👋 你好！我是 TiyCode AI 助手\n\n请先设置工作目录：\n  /ws add /path/to/your/project\n\n或查看已有 workspace：\n  /ws\n\n发送 /help 查看所有命令"@
}

/// The greeting sent on a new user's first message.
pub fn welcome_message() -> (r: &'static str)
    ensures
        r@ == welcome_text(),
{
    "👋 你好！我是 TiyCode AI 助手\n\n请先设置工作目录：\n  /ws add /path/to/your/project\n\n或查看已有 workspace：\n  /ws\n\n发送 /help 查看所有命令"
}

/// What the runner does with an inbound message.
#[derive(Debug)]
pub enum InboundAction {
    /// Send the welcome text; the message is not processed further.
    Welcome,
    /// Cancel the run of the given thread, tell the event pump to stop, and
    /// reply that the run stopped.
    StopRun { thread_id: Option<String> },
    /// Hand the answer to the approval that is waiting.
    ApprovalAnswer(bool),
    /// Ask again for a yes or no.
    ApprovalReminder,
    /// Queue the text as a steering message for the running agent.
    Steer { thread_id: String, text: String },
    /// Nothing to do.
    Ignore,
    /// Pick entry `index` (from one) of the list last shown.
    SelectNumber(usize),
    /// Dispatch the command.
    Dispatch(GatewayCommand),
}

/// Whether a message asks to stop the run.
pub open spec fn is_stop(text: Seq<char>) -> bool {
    eq_ignore_ascii_case(trim(text), "/stop"@)
}

/// Whether the session shows a list and waits for a number.
pub open spec fn awaiting_selection(s: SessionState) -> bool {
    s is AwaitingWorkspaceSelection || s is AwaitingThreadSelection
}

/// The characters of an optional string.
pub open spec fn opt_view(o: Option<String>) -> Option<Seq<char>> {
    match o {
        Some(s) => Some(s@),
        None => None,
    }
}

/// `s` with only its interaction state replaced.
pub open spec fn with_state(s: UserSession, st: SessionState) -> UserSession {
    UserSession { state: st, ..s }
}

/// Routes an inbound message, given the session and whether the welcome
/// was sent. The first message only triggers the welcome. While an approval
/// waits, `/stop` stops the run and anything else is read as the answer.
/// While the agent runs, `/stop` stops it, plain text steers it, and other
/// commands are dispatched as usual. While a list waits for a number, a
/// number selects from it; anything else ends the wait and is dispatched.
pub fn route_inbound(session: &mut UserSession, welcome_sent: &mut bool, text: &str) -> (r:
    InboundAction)
    ensures
        !*old(welcome_sent) ==> r is Welcome && *final(welcome_sent) && *final(session) == *old(
            session,
        ),
        *old(welcome_sent) ==> *final(welcome_sent) && !(r is Welcome),
        *old(welcome_sent) && old(session).state is AwaitingApproval ==> if is_stop(text@) {
            (r matches InboundAction::StopRun { thread_id } && opt_view(thread_id) == opt_view(
                old(session).current_thread_id,
            )) && *final(session) == with_state(*old(session), SessionState::Idle)
        } else {
            *final(session) == *old(session) && match approval_decision(lower_text(trim(text@))) {
                Some(b) => r == InboundAction::ApprovalAnswer(b),
                None => r is ApprovalReminder,
            }
        },
        *old(welcome_sent) && old(session).state is AgentRunning ==> if is_stop(text@) {
            (r matches InboundAction::StopRun { thread_id } && opt_view(thread_id) == opt_view(
                old(session).current_thread_id,
            )) && *final(session) == with_state(*old(session), SessionState::Idle)
        } else {
            *final(session) == *old(session) && match command_of(text@) {
                CommandView::PlainText(t) => match old(session).current_thread_id {
                    Some(id) => if trim(t).len() > 0 {
                        r matches InboundAction::Steer { thread_id, text } && thread_id@ == id@
                            && text@ == trim(t)
                    } else {
                        r is Ignore
                    },
                    None => r is Ignore,
                },
                c => r matches InboundAction::Dispatch(cmd) && cmd@ == c,
            }
        },
        *old(welcome_sent) && awaiting_selection(old(session).state) ==> match parse_usize_spec(
            trim(text@),
        ) {
            Some(n) => r == InboundAction::SelectNumber(n) && *final(session) == *old(session),
            None => (r matches InboundAction::Dispatch(cmd) && cmd@ == command_of(text@))
                && *final(session) == with_state(*old(session), SessionState::Idle),
        },
        *old(welcome_sent) && old(session).state is Idle ==> (r matches InboundAction::Dispatch(
            cmd,
        ) && cmd@ == command_of(text@)) && *final(session) == *old(session),
{
    if !*welcome_sent {
        *welcome_sent = true;
        return InboundAction::Welcome;
    }
    let raw = chars_of(text);
    let trimmed = trim_chars(&raw);
    let stop = chars_eq_ignore_ascii_case(trimmed.as_slice(), chars_of("/stop").as_slice());
    let waiting_approval = session.is_awaiting_approval();
    let running = session.is_running();
    if waiting_approval || running {
        if stop {
            let thread_id = match &session.current_thread_id {
                Some(t) => Some(clone_string(t)),
                None => None,
            };
            session.state = SessionState::Idle;
            return InboundAction::StopRun { thread_id };
        }
        if waiting_approval {
            return match parse_approval_response(text) {
                Some(b) => InboundAction::ApprovalAnswer(b),
                None => InboundAction::ApprovalReminder,
            };
        }
        let cmd = parse(text);
        return match cmd {
            GatewayCommand::PlainText(t) => match &session.current_thread_id {
                Some(id) => {
                    let steer = trim_str(t.as_str());
                    if steer.as_str().unicode_len() > 0 {
                        InboundAction::Steer { thread_id: clone_string(id), text: steer }
                    } else {
                        InboundAction::Ignore
                    }
                },
                None => InboundAction::Ignore,
            },
            other => InboundAction::Dispatch(other),
        };
    }
    let selecting = match session.state {
        SessionState::AwaitingWorkspaceSelection | SessionState::AwaitingThreadSelection => true,
        _ => false,
    };
    if selecting {
        match parse_usize(trimmed.as_slice()) {
            Some(n) => return InboundAction::SelectNumber(n),
            None => {
                session.state = SessionState::Idle;
            },
        }
    }
    InboundAction::Dispatch(parse(text))
}


/// The title shown for a thread: its own, or a placeholder when empty.
pub open spec fn title_shown(t: Seq<char>) -> Seq<char> {
    if t.len() == 0 {
        "(无标题)"@
    } else {
        t
    }
}

fn shown_title_of(t: &String) -> (r: String)
    ensures
        r@ == title_shown(t@),
{
    if t.as_str().unicode_len() == 0 {
        String::from_str("(无标题)")
    } else {
        clone_string(t)
    }
}

/// The position of the entry a 1-based number picks (-1 for number 0, which
/// picks nothing).
pub open spec fn picked(index: usize) -> int {
    index - 1
}

/// Picks from the list last shown by number. A valid number enters the
/// workspace or thread (returned with `true`); an invalid one is reported
/// (with `false`). Either way the session stops waiting. `None` when no list
/// is waiting for a number. (The caller persists a switch and sends the
/// reply once it is saved.)
pub fn handle_number_selection(session: &mut UserSession, index: usize) -> (r: Option<(bool, String)>)
    ensures
        old(session).state is AwaitingWorkspaceSelection ==> {
            let ws = old(session).cached_workspaces@;
            let i = picked(index);
            final(session).state is Idle && final(session).cached_workspaces == old(session).cached_workspaces
                && if 0 <= i < ws.len() {
                (r matches Some((true, reply)) && reply@ == "✅ 已切换到: "@ + ws[i].name@ + " ("@
                    + ws[i].display_path@ + ")"@) && (final(session).current_workspace_id matches Some(
                    w,
                ) && w@ == ws[i].id@) && final(session).current_thread_id is None
            } else {
                r matches Some((false, reply)) && reply@ == "❌ 无效编号，请先发送 /ws 查看列表"@
                    && final(session).current_workspace_id == old(session).current_workspace_id
                    && final(session).current_thread_id == old(session).current_thread_id
            }
        },
        old(session).state is AwaitingThreadSelection ==> {
            let ts = old(session).cached_threads@;
            let i = picked(index);
            final(session).state is Idle && final(session).cached_threads == old(session).cached_threads
                && final(session).current_workspace_id == old(session).current_workspace_id
                && if 0 <= i < ts.len() {
                (r matches Some((true, reply)) && reply@ == "✅ 已进入会话: "@ + title_shown(ts[i].title@))
                    && (final(session).current_thread_id matches Some(t) && t@ == ts[i].id@)
            } else {
                r matches Some((false, reply)) && reply@ == "❌ 无效编号，请先发送 /threads 查看列表"@
                    && final(session).current_thread_id == old(session).current_thread_id
            }
        },
        !awaiting_selection(old(session).state) ==> r is None && *final(session) == *old(session),
{
    match session.state {
        SessionState::AwaitingWorkspaceSelection => {
            let r = if index > 0 && index <= session.cached_workspaces.len() {
                let adjusted = index - 1;
                let id = clone_string(&session.cached_workspaces[adjusted].id);
                let mut reply = String::from_str("✅ 已切换到: ");
                reply.append(session.cached_workspaces[adjusted].name.as_str());
                reply.append(" (");
                reply.append(session.cached_workspaces[adjusted].display_path.as_str());
                reply.append(")");
                session.switch_workspace(id.as_str());
                Some((true, reply))
            } else {
                Some((false, String::from_str("❌ 无效编号，请先发送 /ws 查看列表")))
            };
            session.state = SessionState::Idle;
            r
        },
        SessionState::AwaitingThreadSelection => {
            let r = if index > 0 && index <= session.cached_threads.len() {
                let adjusted = index - 1;
                let id = clone_string(&session.cached_threads[adjusted].id);
                let title = shown_title_of(&session.cached_threads[adjusted].title);
                let mut reply = String::from_str("✅ 已进入会话: ");
                reply.append(title.as_str());
                session.switch_thread(id.as_str());
                Some((true, reply))
            } else {
                Some((false, String::from_str("❌ 无效编号，请先发送 /threads 查看列表")))
            };
            session.state = SessionState::Idle;
            r
        },
        _ => None,
    }
}

/// The command list sent for `/help`.
pub open spec fn help_text() -> Seq<char> {
    "📖 命令列表:\n/ws — 查看 workspace 列表\n/ws add <路径> — 添加 workspace\n/ws <N> — 切换到第 N 个 workspace\n/threads — 查看当前 workspace 的会话\n/new [标题] — 创建新会话\n/resume <N> — 进入第 N 个会话\n/profile — 查看 Profile 列表\n/profile <N> — 切换当前会话 Profile\n/stop — 停止当前运行\n/status — 查看当前状态\n/help — 显示此帮助"@
}

/// What dispatching a command asks of the runner.
#[derive(Debug)]
pub enum DispatchAction {
    /// Send this reply.
    Reply(String),
    /// List the workspaces, then finish with `after_workspace_list`.
    ListWorkspaces,
    /// Add a workspace, then finish with `after_workspace_add`.
    AddWorkspace { path: String, name: Option<String> },
    /// List the workspace's threads, then finish with `after_thread_list`.
    ListThreads { workspace_id: String },
    /// Create a thread with this title, then finish with `after_thread_created`.
    CreateThread { workspace_id: String, title: String },
    /// List the profiles, then finish with `after_profile_list`.
    ListProfiles { thread_id: String },
    /// Set the thread's profile, then send the reply.
    SwitchProfile { thread_id: String, profile_id: String, reply: String },
    /// Look up the names to show, then finish with `status_reply`.
    ShowStatus,
    /// Cancel the thread's run (when there is a thread), then send the reply.
    CancelRun { thread_id: Option<String>, reply: String },
    /// Run the agent on the prompt in the thread.
    RunPrompt { thread_id: String, prompt: String },
    /// A goal command, which the runner leaves to the desktop application.
    Unhandled,
}

/// A failure reply: `❌ ` and the message.
pub open spec fn error_reply(msg: Seq<char>) -> Seq<char> {
    "❌ "@ + msg
}

fn error_reply_of(msg: String) -> (r: String)
    ensures
        r@ == error_reply(msg@),
{
    let mut r = String::from_str("❌ ");
    r.append(msg.as_str());
    r
}

/// The title of a new thread: the given one, or `IM 会话`.
pub open spec fn new_thread_title(title: Option<Seq<char>>) -> Seq<char> {
    match title {
        Some(t) => t,
        None => "IM 会话"@,
    }
}

/// Decides what a command needs. Commands that only read the session's
/// lists are answered here; the others name the work to do.
pub fn dispatch_command(session: &mut UserSession, cmd: GatewayCommand) -> (r: DispatchAction)
    ensures
        ({
            let s = *old(session);
            match cmd@ {
                CommandView::Help => (r matches DispatchAction::Reply(t) && t@ == help_text())
                    && *final(session) == s,
                CommandView::Status => r is ShowStatus && *final(session) == s,
                CommandView::WorkspaceList => r is ListWorkspaces && *final(session) == s,
                CommandView::WorkspaceAdd { path, name } => (r matches DispatchAction::AddWorkspace {
                    path: p,
                    name: n,
                } && p@ == path && opt_view(n) == name) && *final(session) == s,
                CommandView::WorkspaceSwitch { index } => {
                    let ws = s.cached_workspaces@;
                    let i = picked(index);
                    if 0 <= i < ws.len() {
                        (r matches DispatchAction::Reply(t) && t@ == "✅ 已切换到: "@ + ws[i].name@)
                            && (final(session).current_workspace_id matches Some(w) && w@ == ws[i].id@)
                            && final(session).current_thread_id is None && final(session).state is Idle
                    } else {
                        (r matches DispatchAction::Reply(t) && t@ == "❌ 无效编号，请先发送 /ws 查看列表"@)
                            && *final(session) == s
                    }
                },
                CommandView::ThreadList => *final(session) == s && match s.current_workspace_id {
                    Some(w) => r matches DispatchAction::ListThreads { workspace_id } && workspace_id@
                        == w@,
                    None => r matches DispatchAction::Reply(t) && t@ == error_reply(
                        crate::gateway::user_session::require_workspace_message(),
                    ),
                },
                CommandView::ThreadNew { title } => *final(session) == s
                    && match s.current_workspace_id {
                    Some(w) => r matches DispatchAction::CreateThread { workspace_id, title: t }
                        && workspace_id@ == w@ && t@ == new_thread_title(title),
                    None => r matches DispatchAction::Reply(t) && t@ == error_reply(
                        crate::gateway::user_session::require_workspace_message(),
                    ),
                },
                CommandView::ThreadResume { index } => {
                    let ts = s.cached_threads@;
                    let i = picked(index);
                    if 0 <= i < ts.len() {
                        (r matches DispatchAction::Reply(t) && t@ == "✅ 已进入会话: "@ + title_shown(
                            ts[i].title@,
                        )) && (final(session).current_thread_id matches Some(x) && x@ == ts[i].id@)
                            && final(session).current_workspace_id == s.current_workspace_id
                            && final(session).state is Idle
                    } else {
                        (r matches DispatchAction::Reply(t) && t@ == "❌ 无效编号，请先发送 /threads 查看列表"@)
                            && *final(session) == s
                    }
                },
                CommandView::ProfileList => *final(session) == s && match s.current_thread_id {
                    Some(id) => r matches DispatchAction::ListProfiles { thread_id } && thread_id@
                        == id@,
                    None => r matches DispatchAction::Reply(t) && t@ == error_reply(
                        crate::gateway::user_session::require_thread_message(),
                    ),
                },
                CommandView::ProfileSwitch { index } => *final(session) == s
                    && match s.current_thread_id {
                    Some(id) => {
                        let ps = s.cached_profiles@;
                        let i = picked(index);
                        if 0 <= i < ps.len() {
                            r matches DispatchAction::SwitchProfile { thread_id, profile_id, reply }
                                && thread_id@ == id@ && profile_id@ == ps[i].id@ && reply@
                                == "✅ 已切换 Profile: "@ + ps[i].name@
                        } else {
                            r matches DispatchAction::Reply(t) && t@
                                == "❌ 无效编号，请先发送 /profile 查看列表"@
                        }
                    },
                    None => r matches DispatchAction::Reply(t) && t@ == error_reply(
                        crate::gateway::user_session::require_thread_message(),
                    ),
                },
                CommandView::Stop => if s.state is AgentRunning || s.state is AwaitingApproval {
                    (r matches DispatchAction::CancelRun { thread_id, reply } && opt_view(thread_id)
                        == opt_view(s.current_thread_id) && reply@ == "⏹️ 已停止当前运行"@)
                        && *final(session) == with_state(s, SessionState::Idle)
                } else {
                    (r matches DispatchAction::Reply(t) && t@ == "当前没有运行中的任务"@)
                        && *final(session) == s
                },
                CommandView::PlainText(text) => *final(session) == s && match s.current_thread_id {
                    Some(id) => r matches DispatchAction::RunPrompt { thread_id, prompt }
                        && thread_id@ == id@ && prompt@ == text,
                    None => r matches DispatchAction::Reply(t) && t@ == error_reply(
                        crate::gateway::user_session::require_thread_message(),
                    ),
                },
                _ => r is Unhandled && *final(session) == s,
            }
        }),
{
    match cmd {
        GatewayCommand::Help => DispatchAction::Reply(String::from_str(
            "📖 命令列表:\n/ws — 查看 workspace 列表\n/ws add <路径> — 添加 workspace\n/ws <N> — 切换到第 N 个 workspace\n/threads — 查看当前 workspace 的会话\n/new [标题] — 创建新会话\n/resume <N> — 进入第 N 个会话\n/profile — 查看 Profile 列表\n/profile <N> — 切换当前会话 Profile\n/stop — 停止当前运行\n/status — 查看当前状态\n/help — 显示此帮助",
        )),
        GatewayCommand::Status => DispatchAction::ShowStatus,
        GatewayCommand::WorkspaceList => DispatchAction::ListWorkspaces,
        GatewayCommand::WorkspaceAdd { path, name } => DispatchAction::AddWorkspace { path, name },
        GatewayCommand::WorkspaceSwitch { index } => {
            if index > 0 && index <= session.cached_workspaces.len() {
                let i = index - 1;
                let id = clone_string(&session.cached_workspaces[i].id);
                let mut reply = String::from_str("✅ 已切换到: ");
                reply.append(session.cached_workspaces[i].name.as_str());
                session.switch_workspace(id.as_str());
                DispatchAction::Reply(reply)
            } else {
                DispatchAction::Reply(String::from_str("❌ 无效编号，请先发送 /ws 查看列表"))
            }
        },
        GatewayCommand::ThreadList => match session.require_workspace() {
            Ok(w) => DispatchAction::ListThreads { workspace_id: String::from_str(w) },
            Err(e) => DispatchAction::Reply(error_reply_of(e)),
        },
        GatewayCommand::ThreadNew { title } => match session.require_workspace() {
            Ok(w) => {
                let t = match title {
                    Some(t) => t,
                    None => String::from_str("IM 会话"),
                };
                DispatchAction::CreateThread { workspace_id: String::from_str(w), title: t }
            },
            Err(e) => DispatchAction::Reply(error_reply_of(e)),
        },
        GatewayCommand::ThreadResume { index } => {
            if index > 0 && index <= session.cached_threads.len() {
                let i = index - 1;
                let id = clone_string(&session.cached_threads[i].id);
                let title = shown_title_of(&session.cached_threads[i].title);
                let mut reply = String::from_str("✅ 已进入会话: ");
                reply.append(title.as_str());
                session.switch_thread(id.as_str());
                DispatchAction::Reply(reply)
            } else {
                DispatchAction::Reply(String::from_str("❌ 无效编号，请先发送 /threads 查看列表"))
            }
        },
        GatewayCommand::ProfileList => match session.require_thread() {
            Ok(t) => DispatchAction::ListProfiles { thread_id: String::from_str(t) },
            Err(e) => DispatchAction::Reply(error_reply_of(e)),
        },
        GatewayCommand::ProfileSwitch { index } => match session.require_thread() {
            Ok(t) => {
                if index > 0 && index <= session.cached_profiles.len() {
                    let i = index - 1;
                    let mut reply = String::from_str("✅ 已切换 Profile: ");
                    reply.append(session.cached_profiles[i].name.as_str());
                    DispatchAction::SwitchProfile {
                        thread_id: String::from_str(t),
                        profile_id: clone_string(&session.cached_profiles[i].id),
                        reply,
                    }
                } else {
                    DispatchAction::Reply(String::from_str("❌ 无效编号，请先发送 /profile 查看列表"))
                }
            },
            Err(e) => DispatchAction::Reply(error_reply_of(e)),
        },
        GatewayCommand::Stop => {
            let active = match session.state {
                SessionState::AgentRunning { .. } | SessionState::AwaitingApproval { .. } => true,
                _ => false,
            };
            if active {
                let thread_id = match &session.current_thread_id {
                    Some(t) => Some(clone_string(t)),
                    None => None,
                };
                session.state = SessionState::Idle;
                DispatchAction::CancelRun { thread_id, reply: String::from_str("⏹️ 已停止当前运行") }
            } else {
                DispatchAction::Reply(String::from_str("当前没有运行中的任务"))
            }
        },
        GatewayCommand::PlainText(text) => match session.require_thread() {
            Ok(t) => DispatchAction::RunPrompt { thread_id: String::from_str(t), prompt: text },
            Err(e) => DispatchAction::Reply(error_reply_of(e)),
        },
        _ => DispatchAction::Unhandled,
    }
}


fn as_opt_str(o: &Option<String>) -> (r: Option<&str>)
    ensures
        str_view(r) == opt_view(*o),
{
    match o {
        Some(s) => Some(s.as_str()),
        None => None,
    }
}

/// Shows the listed workspaces and waits for a number; the list is kept for
/// the selection.
pub fn after_workspace_list(session: &mut UserSession, workspaces: Vec<WorkspaceRecord>) -> (r: String)
    ensures
        r@ == workspace_list_text(workspaces@, opt_view(old(session).current_workspace_id)),
        final(session).cached_workspaces@ == workspaces@,
        final(session).state is AwaitingWorkspaceSelection,
        final(session).current_workspace_id == old(session).current_workspace_id,
        final(session).current_thread_id == old(session).current_thread_id,
{
    let text = render_workspace_list(workspaces.as_slice(), as_opt_str(&session.current_workspace_id));
    session.cached_workspaces = workspaces;
    session.state = SessionState::AwaitingWorkspaceSelection;
    text
}

/// Enters a newly added workspace and confirms it, or reports the failure.
pub fn after_workspace_add(session: &mut UserSession, added: Result<&WorkspaceRecord, &str>) -> (r: String)
    ensures
        match added {
            Ok(ws) => r@ == "✅ 已添加并切换到: "@ + ws.name@ + " ("@ + ws.display_path@ + ")"@
                && (final(session).current_workspace_id matches Some(w) && w@ == ws.id@)
                && final(session).current_thread_id is None && final(session).state is Idle,
            Err(e) => r@ == "❌ 添加 workspace 失败: "@ + e@ && *final(session) == *old(session),
        },
{
    match added {
        Ok(ws) => {
            session.switch_workspace(ws.id.as_str());
            let mut r = String::from_str("✅ 已添加并切换到: ");
            r.append(ws.name.as_str());
            r.append(" (");
            r.append(ws.display_path.as_str());
            r.append(")");
            r
        },
        Err(e) => {
            let mut r = String::from_str("❌ 添加 workspace 失败: ");
            r.append(e);
            r
        },
    }
}

/// Shows the listed threads and waits for a number; the list is kept for
/// the selection.
pub fn after_thread_list(session: &mut UserSession, threads: Vec<ThreadSummaryDto>) -> (r: String)
    ensures
        r@ == thread_list_text(threads@, opt_view(old(session).current_thread_id)),
        final(session).cached_threads@ == threads@,
        final(session).state is AwaitingThreadSelection,
        final(session).current_workspace_id == old(session).current_workspace_id,
        final(session).current_thread_id == old(session).current_thread_id,
{
    let text = render_thread_list(threads.as_slice(), as_opt_str(&session.current_thread_id));
    session.cached_threads = threads;
    session.state = SessionState::AwaitingThreadSelection;
    text
}

/// Enters a newly created thread and confirms it.
pub fn after_thread_created(session: &mut UserSession, thread_id: &str, title: &str) -> (r: String)
    ensures
        r@ == "✅ 新会话已创建: "@ + title@ + "\n发送消息开始对话"@,
        final(session).current_thread_id matches Some(t) && t@ == thread_id@,
        final(session).current_workspace_id == old(session).current_workspace_id,
        final(session).state is Idle,
{
    session.switch_thread(thread_id);
    let mut r = String::from_str("✅ 新会话已创建: ");
    r.append(title);
    r.append("\n发送消息开始对话");
    r
}

/// Shows the listed profiles, marking the thread's; the list is kept for
/// selection by number.
pub fn after_profile_list(
    session: &mut UserSession,
    profiles: Vec<AgentProfileRecord>,
    current_profile_id: Option<&str>,
) -> (r: String)
    ensures
        r@ == profile_list_text(profiles@, str_view(current_profile_id)),
        final(session).cached_profiles@ == profiles@,
        final(session).state == old(session).state,
        final(session).current_workspace_id == old(session).current_workspace_id,
        final(session).current_thread_id == old(session).current_thread_id,
{
    let text = render_profile_list(profiles.as_slice(), current_profile_id);
    session.cached_profiles = profiles;
    text
}

/// The `Debug` text std gives a string: quoted, with escapes.
pub uninterp spec fn debug_quoted(s: Seq<char>) -> Seq<char>;

/// std: the `Debug` formatting of a `str` (`format!("{:?}", s)`).
#[verifier::external_body]
fn debug_str(s: &str) -> (r: String)
    ensures
        r@ == debug_quoted(s@),
{
    format!("{:?}", s)
}

/// The `Debug` text of a session state.
pub open spec fn state_debug(st: SessionState) -> Seq<char> {
    match st {
        SessionState::Idle => "Idle"@,
        SessionState::AwaitingWorkspaceSelection => "AwaitingWorkspaceSelection"@,
        SessionState::AwaitingThreadSelection => "AwaitingThreadSelection"@,
        SessionState::AgentRunning { run_id } => "AgentRunning { run_id: "@ + debug_quoted(run_id@)
            + " }"@,
        SessionState::AwaitingApproval { tool_call_id, tool_name } => "AwaitingApproval { tool_call_id: "@
            + debug_quoted(tool_call_id@) + ", tool_name: "@ + debug_quoted(tool_name@) + " }"@,
    }
}

/// The `Debug` text of a session state, as the status reply shows it.
pub fn state_debug_text(st: &SessionState) -> (r: String)
    ensures
        r@ == state_debug(*st),
{
    match st {
        SessionState::Idle => String::from_str("Idle"),
        SessionState::AwaitingWorkspaceSelection => String::from_str("AwaitingWorkspaceSelection"),
        SessionState::AwaitingThreadSelection => String::from_str("AwaitingThreadSelection"),
        SessionState::AgentRunning { run_id } => {
            let mut r = String::from_str("AgentRunning { run_id: ");
            r.append(debug_str(run_id.as_str()).as_str());
            r.append(" }");
            r
        },
        SessionState::AwaitingApproval { tool_call_id, tool_name } => {
            let mut r = String::from_str("AwaitingApproval { tool_call_id: ");
            r.append(debug_str(tool_call_id.as_str()).as_str());
            r.append(", tool_name: ");
            r.append(debug_str(tool_name.as_str()).as_str());
            r.append(" }");
            r
        },
    }
}

/// What the status shows for the current workspace or thread: its looked-up
/// name, else its id, else `(未设置)`.
pub open spec fn shown_or_id(name: Option<Seq<char>>, id: Option<String>) -> Seq<char> {
    match id {
        Some(i) => match name {
            Some(n) => n,
            None => i@,
        },
        None => "(未设置)"@,
    }
}

fn shown_or_id_text(name: Option<String>, id: &Option<String>) -> (r: String)
    ensures
        r@ == shown_or_id(opt_view(name), *id),
{
    match id {
        Some(i) => match name {
            Some(n) => n,
            None => clone_string(i),
        },
        None => String::from_str("(未设置)"),
    }
}

/// The `/status` reply, given the current workspace's name and the current
/// thread's title as looked up (`None` when the lookup found nothing). An
/// empty title shows as `(无标题)`.
pub fn status_reply(session: &UserSession, workspace_name: Option<String>, thread_title: Option<String>) -> (r:
    String)
    ensures
        r@ == "📊 当前状态:\n  Workspace: "@ + shown_or_id(opt_view(workspace_name), session.current_workspace_id)
            + "\n  会话: "@ + shown_or_id(
            match thread_title {
                Some(t) => Some(title_shown(t@)),
                None => None,
            },
            session.current_thread_id,
        ) + "\n  状态: "@ + state_debug(session.state),
{
    let title = match &thread_title {
        Some(t) => Some(shown_title_of(t)),
        None => None,
    };
    let ws = shown_or_id_text(workspace_name, &session.current_workspace_id);
    let th = shown_or_id_text(title, &session.current_thread_id);
    let mut r = String::from_str("📊 当前状态:\n  Workspace: ");
    r.append(ws.as_str());
    r.append("\n  会话: ");
    r.append(th.as_str());
    r.append("\n  状态: ");
    r.append(state_debug_text(&session.state).as_str());
    r
}

/// The file extension used to name an attachment of a MIME type.
pub open spec fn extension_for_mime(m: Seq<char>) -> Seq<char> {
    if m == "image/jpeg"@ {
        "jpg"@
    } else if m == "image/png"@ {
        "png"@
    } else if m == "image/gif"@ {
        "gif"@
    } else if m == "image/webp"@ {
        "webp"@
    } else if m == "video/mp4"@ {
        "mp4"@
    } else if m == "video/quicktime"@ {
        "mov"@
    } else if m == "audio/mpeg"@ {
        "mp3"@
    } else if m == "audio/ogg"@ {
        "ogg"@
    } else if m == "audio/amr"@ {
        "amr"@
    } else if m == "audio/silk"@ {
        "silk"@
    } else if m == "application/pdf"@ {
        "pdf"@
    } else if m == "text/plain"@ {
        "txt"@
    } else {
        "bin"@
    }
}

/// Map a MIME type to a file extension for naming generated attachments.
pub fn mime_to_extension(mime: &str) -> (r: &'static str)
    ensures
        r@ == extension_for_mime(mime@),
{
    if str_eq(mime, "image/jpeg") {
        "jpg"
    } else if str_eq(mime, "image/png") {
        "png"
    } else if str_eq(mime, "image/gif") {
        "gif"
    } else if str_eq(mime, "image/webp") {
        "webp"
    } else if str_eq(mime, "video/mp4") {
        "mp4"
    } else if str_eq(mime, "video/quicktime") {
        "mov"
    } else if str_eq(mime, "audio/mpeg") {
        "mp3"
    } else if str_eq(mime, "audio/ogg") {
        "ogg"
    } else if str_eq(mime, "audio/amr") {
        "amr"
    } else if str_eq(mime, "audio/silk") {
        "silk"
    } else if str_eq(mime, "application/pdf") {
        "pdf"
    } else if str_eq(mime, "text/plain") {
        "txt"
    } else {
        "bin"
    }
}

/// The voice transcriptions among the attachments, in order.
pub open spec fn transcriptions(atts: Seq<MediaAttachment>) -> Seq<Seq<char>>
    decreases atts.len(),
{
    if atts.len() == 0 {
        Seq::empty()
    } else {
        let rest = transcriptions(atts.drop_last());
        match atts.last().transcription {
            Some(t) => rest.push(t@),
            None => rest,
        }
    }
}

/// The texts joined by newlines.
pub open spec fn join_lines(ts: Seq<Seq<char>>) -> Seq<char>
    decreases ts.len(),
{
    if ts.len() == 0 {
        Seq::empty()
    } else if ts.len() == 1 {
        ts[0]
    } else {
        join_lines(ts.drop_last()) + seq!['\n'] + ts.last()
    }
}

/// The prompt the agent gets: the message's text with the transcriptions of
/// its voice attachments appended (after a blank line), or the
/// transcriptions alone when the text is empty.
pub open spec fn effective_prompt_text(prompt: Seq<char>, atts: Seq<MediaAttachment>) -> Seq<char> {
    let ts = transcriptions(atts);
    if ts.len() == 0 {
        prompt
    } else if prompt.len() == 0 {
        join_lines(ts)
    } else {
        prompt + "\n\n"@ + join_lines(ts)
    }
}

/// Merges voice transcriptions into the prompt so the agent can "hear"
/// voice messages.
pub fn effective_prompt(prompt: &str, attachments: &[MediaAttachment]) -> (r: String)
    ensures
        r@ == effective_prompt_text(prompt@, attachments@),
{
    let mut joined = String::new();
    let mut count: usize = 0;
    let mut i: usize = 0;
    while i < attachments.len()
        invariant
            i <= attachments@.len(),
            count <= i,
            count == transcriptions(attachments@.subrange(0, i as int)).len(),
            joined@ == join_lines(transcriptions(attachments@.subrange(0, i as int))),
        decreases attachments@.len() - i,
    {
        let ghost before = transcriptions(attachments@.subrange(0, i as int));
        assert(attachments@.subrange(0, i + 1).drop_last() =~= attachments@.subrange(0, i as int));
        match &attachments[i].transcription {
            Some(t) => {
                if count > 0 {
                    joined.append("\n");
                }
                joined.append(t.as_str());
                proof {
                    reveal_strlit("\n");
                    let now = before.push(t@);
                    assert(now.drop_last() =~= before);
                    if count > 0 {
                        assert(joined@ =~= join_lines(before) + seq!['\n'] + t@);
                    } else {
                        assert(joined@ =~= t@);
                    }
                }
                count = count + 1;
            },
            None => {},
        }
        i += 1;
    }
    assert(attachments@.subrange(0, attachments@.len() as int) =~= attachments@);
    if count == 0 {
        String::from_str(prompt)
    } else if prompt.unicode_len() == 0 {
        joined
    } else {
        let mut r = String::from_str(prompt);
        r.append("\n\n");
        r.append(joined.as_str());
        r
    }
}

/// The name given to an attachment: its file name, else `<type>.<ext>`.
pub open spec fn attachment_name_text(a: MediaAttachment) -> Seq<char> {
    match a.file_name {
        Some(n) => n@,
        None => media_type_name(a.media_type) + "."@ + extension_for_mime(a.mime_type@),
    }
}

/// The name an attachment is saved under.
pub fn attachment_name(a: &MediaAttachment) -> (r: String)
    ensures
        r@ == attachment_name_text(*a),
{
    match &a.file_name {
        Some(n) => clone_string(n),
        None => {
            let mut r = String::from_str(a.media_type.as_str());
            r.append(".");
            r.append(mime_to_extension(a.mime_type.as_str()));
            r
        },
    }
}

/// An event of an agent run, as the runner sees it.
#[derive(Debug)]
pub enum RunEvent {
    /// More reply text.
    MessageDelta(String),
    /// A tool call needs the user's approval; the input is pretty-printed.
    ApprovalRequired { tool_call_id: String, tool_name: String, tool_input: String },
    RunCompleted,
    RunFailed(String),
    RunCancelled,
    RunLimitReached(String),
    RunInterrupted,
    /// The receiver fell behind and lost this many events.
    Lagged(u64),
    /// The event stream closed.
    Closed,
    /// The user asked to stop.
    StopRequested,
    /// The agent published a plan: its design section as Markdown, and its
    /// title.
    PlanUpdated { design_markdown: String, title: String },
    /// The run paused at a plan checkpoint, waiting for the plan's approval.
    RunCheckpointed,
    /// Any other event (reasoning, tool progress, ...), which is not shown.
    Other,
}

/// What the event pump does after an event.
#[derive(Debug)]
pub enum PumpAction {
    /// Keep reading events.
    Continue,
    /// Send the approval request and wait for the user's answer.
    AskApproval { message: String },
    /// The run is over: send the reply.
    Finish,
    /// Send the plan (formatted and split like a reply), then the request
    /// to approve it, and keep reading events.
    ShowPlan { design_markdown: String, approval_request: String },
    /// The run paused for plan approval: stop reading and send no reply.
    AwaitPlanApproval,
}

/// The text appended when a run is cancelled.
pub open spec fn cancelled_note() -> Seq<char> {
    "\n\n⏹️ 运行已取消"@
}

/// The text appended when a run is interrupted.
pub open spec fn interrupted_note() -> Seq<char> {
    "\n\n⚠️ 运行被中断"@
}

/// The text appended when events were lost.
pub open spec fn lagged_note(n: u64) -> Seq<char> {
    "\n[丢失 "@ + decimal(n as nat) + " 条事件]\n"@
}

/// Handles one event of a run, accumulating the reply in `acc`. Text is
/// appended; an approval request puts the session into waiting for it;
/// failures are recorded as errors; the end of the run, a cancellation, an
/// interruption or a stop request finish the pump. A published plan is shown
/// with a request to approve it; a plan checkpoint ends the pump without a
/// reply.
pub fn on_run_event(acc: &mut MessageAccumulator, session: &mut UserSession, event: RunEvent) -> (r:
    PumpAction)
    ensures
        match event {
            RunEvent::MessageDelta(d) => r is Continue && final(acc).text() == old(acc).text() + d@
                && final(acc).errored() == old(acc).errored() && *final(session) == *old(session),
            RunEvent::ApprovalRequired { tool_call_id, tool_name, tool_input } => (
            r matches PumpAction::AskApproval { message } && message@
                == crate::gateway::approval_bridge::approval_request_text(tool_name@, tool_input@))
                && *final(acc) == *old(acc) && *final(session) == with_state(
                *old(session),
                SessionState::AwaitingApproval { tool_call_id, tool_name },
            ),
            RunEvent::RunCompleted | RunEvent::Closed => r is Finish && *final(acc) == *old(acc)
                && *final(session) == *old(session),
            RunEvent::RunFailed(e) => r is Finish && final(acc).errored() && final(acc).text()
                == old(acc).text() + (if old(acc).text().len() > 0 {
                "\n\n"@
            } else {
                Seq::<char>::empty()
            }) + "❌ 错误: "@ + e@ && *final(session) == *old(session),
            RunEvent::RunLimitReached(e) => r is Finish && final(acc).errored() && final(acc).text()
                == old(acc).text() + (if old(acc).text().len() > 0 {
                "\n\n"@
            } else {
                Seq::<char>::empty()
            }) + "❌ 错误: "@ + "达到轮次上限: "@ + e@ && *final(session) == *old(session),
            RunEvent::RunCancelled | RunEvent::StopRequested => r is Finish && final(acc).text()
                == old(acc).text() + cancelled_note() && final(acc).errored() == old(acc).errored()
                && *final(session) == *old(session),
            RunEvent::RunInterrupted => r is Finish && final(acc).text() == old(acc).text()
                + interrupted_note() && final(acc).errored() == old(acc).errored() && *final(session)
                == *old(session),
            RunEvent::Lagged(n) => r is Continue && final(acc).text() == old(acc).text() + lagged_note(
                n,
            ) && final(acc).errored() == old(acc).errored() && *final(session) == *old(session),
            RunEvent::PlanUpdated { design_markdown, title } => (r matches PumpAction::ShowPlan {
                design_markdown: d,
                approval_request: a,
            } && d@ == design_markdown@ && a@ == plan_approval_request_text(title@)) && *final(acc)
                == *old(acc) && *final(session) == *old(session),
            RunEvent::RunCheckpointed => r is AwaitPlanApproval && *final(acc) == *old(acc)
                && *final(session) == *old(session),
            RunEvent::Other => r is Continue && *final(acc) == *old(acc) && *final(session) == *old(
                session,
            ),
        },
{
    match event {
        RunEvent::MessageDelta(d) => {
            acc.push_text(d.as_str());
            PumpAction::Continue
        },
        RunEvent::ApprovalRequired { tool_call_id, tool_name, tool_input } => {
            let message = crate::gateway::approval_bridge::format_approval_request(
                tool_name.as_str(),
                tool_input.as_str(),
            );
            session.state = SessionState::AwaitingApproval { tool_call_id, tool_name };
            PumpAction::AskApproval { message }
        },
        RunEvent::RunCompleted | RunEvent::Closed => PumpAction::Finish,
        RunEvent::RunFailed(e) => {
            acc.push_error(e.as_str());
            PumpAction::Finish
        },
        RunEvent::RunLimitReached(e) => {
            let mut msg = String::from_str("达到轮次上限: ");
            msg.append(e.as_str());
            acc.push_error(msg.as_str());
            PumpAction::Finish
        },
        RunEvent::RunCancelled | RunEvent::StopRequested => {
            acc.push_text("\n\n⏹️ 运行已取消");
            PumpAction::Finish
        },
        RunEvent::RunInterrupted => {
            acc.push_text("\n\n⚠️ 运行被中断");
            PumpAction::Finish
        },
        RunEvent::Lagged(n) => {
            let mut note = String::from_str("\n[丢失 ");
            note.append(decimal_string(n).as_str());
            note.append(" 条事件]\n");
            acc.push_text(note.as_str());
            PumpAction::Continue
        },
        RunEvent::PlanUpdated { design_markdown, title } => {
            let approval_request = crate::gateway::approval_bridge::format_plan_approval_request(
                title.as_str(),
            );
            PumpAction::ShowPlan { design_markdown, approval_request }
        },
        RunEvent::RunCheckpointed => PumpAction::AwaitPlanApproval,
        RunEvent::Other => PumpAction::Continue,
    }
}

/// After an approval was answered (`approved`; no answer in time or a stop
/// count as a refusal) and resolved (`Some(true)`: applied, `Some(false)`:
/// the request had expired, `None`: resolving failed), the session runs
/// again; the note to send, if any, is returned.
pub fn after_approval(session: &mut UserSession, run_id: &str, approved: bool, resolved: Option<bool>) -> (r:
    Option<&'static str>)
    ensures
        (final(session).state matches SessionState::AgentRunning { run_id: id } && id@ == run_id@),
        final(session).current_workspace_id == old(session).current_workspace_id,
        final(session).current_thread_id == old(session).current_thread_id,
        match resolved {
            Some(true) => r matches Some(t) && t@ == (if approved {
                "✅ 已批准"@
            } else {
                "❌ 已拒绝"@
            }),
            Some(false) => r matches Some(t) && t@ == "⚠️ 审批请求已过期"@,
            None => r is None,
        },
{
    session.state = SessionState::AgentRunning { run_id: String::from_str(run_id) };
    match resolved {
        Some(true) => if approved {
            Some("✅ 已批准")
        } else {
            Some("❌ 已拒绝")
        },
        Some(false) => Some("⚠️ 审批请求已过期"),
        None => None,
    }
}

/// The messages a finished run is answered with: the formatted reply in
/// chunks, or a note that the agent said nothing. The session becomes idle.
pub fn finish_run(acc: MessageAccumulator, session: &mut UserSession, platform: Platform) -> (r: Vec<String>)
    ensures
        acc.text().len() == 0 ==> r@.len() == 1 && r@[0]@ == "(Agent 未产生输出)"@,
        acc.text().len() > 0 ==> r@.len() == chunks_of(acc.text(), platform).len() && forall|i: int|
            0 <= i < r@.len() ==> #[trigger] r@[i]@ == chunks_of(acc.text(), platform)[i],
        *final(session) == with_state(*old(session), SessionState::Idle),
{
    let text = acc.finalize();
    session.state = SessionState::Idle;
    if text.as_str().unicode_len() == 0 {
        let mut v: Vec<String> = Vec::new();
        v.push(String::from_str("(Agent 未产生输出)"));
        v
    } else {
        format_and_split(text.as_str(), platform)
    }
}

} // verus!
