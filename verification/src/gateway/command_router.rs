//! Gateway command router: turns an inbound message text into a command.
use vstd::prelude::*;
use crate::text::{
    chars_eq_ignore_ascii_case, chars_eq_str, chars_of, eq_ignore_ascii_case, find_from,
    first_occurrence, has_prefix, occurs_at, parse_usize, parse_usize_spec,
    slice_chars, starts_with, string_from_chars, trim, trim_chars, trim_start,
    trim_start_index, words, words_of,
};

verus! {

/// Commands recognized by the gateway.
#[derive(Debug, Clone, PartialEq, Eq)]
pub enum GatewayCommand {
    WorkspaceList,
    WorkspaceAdd { path: String, name: Option<String> },
    WorkspaceSwitch { index: usize },
    ThreadList,
    ThreadNew { title: Option<String> },
    ThreadResume { index: usize },
    ProfileList,
    ProfileSwitch { index: usize },
    Stop,
    Status,
    Help,
    GoalSet { objective: String },
    GoalStatus,
    GoalCancel,
    /// A recognized `/goal` sub-command that needs the desktop GUI.
    GoalUnsupported { subcommand: String },
    PlainText(String),
}

/// Mathematical view of a [`GatewayCommand`], with strings as character sequences.
pub enum CommandView {
    WorkspaceList,
    WorkspaceAdd { path: Seq<char>, name: Option<Seq<char>> },
    WorkspaceSwitch { index: usize },
    ThreadList,
    ThreadNew { title: Option<Seq<char>> },
    ThreadResume { index: usize },
    ProfileList,
    ProfileSwitch { index: usize },
    Stop,
    Status,
    Help,
    GoalSet { objective: Seq<char> },
    GoalStatus,
    GoalCancel,
    GoalUnsupported { subcommand: Seq<char> },
    PlainText(Seq<char>),
}

impl View for GatewayCommand {
    type V = CommandView;

    open spec fn view(&self) -> CommandView {
        match self {
            GatewayCommand::WorkspaceList => CommandView::WorkspaceList,
            GatewayCommand::WorkspaceAdd { path, name } => CommandView::WorkspaceAdd {
                path: path@,
                name: match name {
                    Some(n) => Some(n@),
                    None => None,
                },
            },
            GatewayCommand::WorkspaceSwitch { index } => CommandView::WorkspaceSwitch { index: *index },
            GatewayCommand::ThreadList => CommandView::ThreadList,
            GatewayCommand::ThreadNew { title } => CommandView::ThreadNew {
                title: match title {
                    Some(t) => Some(t@),
                    None => None,
                },
            },
            GatewayCommand::ThreadResume { index } => CommandView::ThreadResume { index: *index },
            GatewayCommand::ProfileList => CommandView::ProfileList,
            GatewayCommand::ProfileSwitch { index } => CommandView::ProfileSwitch { index: *index },
            GatewayCommand::Stop => CommandView::Stop,
            GatewayCommand::Status => CommandView::Status,
            GatewayCommand::Help => CommandView::Help,
            GatewayCommand::GoalSet { objective } => CommandView::GoalSet { objective: objective@ },
            GatewayCommand::GoalStatus => CommandView::GoalStatus,
            GatewayCommand::GoalCancel => CommandView::GoalCancel,
            GatewayCommand::GoalUnsupported { subcommand } => CommandView::GoalUnsupported {
                subcommand: subcommand@,
            },
            GatewayCommand::PlainText(t) => CommandView::PlainText(t@),
        }
    }
}

/// `/ws add <path> [name]`: the path is the text up to the first space,
/// the name is everything after it.
pub open spec fn workspace_add_view(rest: Seq<char>) -> CommandView {
    match first_occurrence(rest, seq![' ']) {
        Some(i) => CommandView::WorkspaceAdd {
            path: rest.subrange(0, i),
            name: Some(rest.subrange(i + 1, rest.len() as int)),
        },
        None => CommandView::WorkspaceAdd { path: rest, name: None },
    }
}

/// The first word of `s`, or the empty sequence.
pub open spec fn first_word(s: Seq<char>) -> Seq<char> {
    let w = words(s);
    if w.len() > 0 {
        w[0]
    } else {
        Seq::empty()
    }
}

/// The `/goal` command for the text following `/goal` (already trimmed at
/// the start).
pub open spec fn goal_view(rest: Seq<char>) -> CommandView {
    if rest.len() == 0 {
        CommandView::GoalStatus
    } else if eq_ignore_ascii_case(rest, "status"@) || rest == "查看状态"@ {
        CommandView::GoalStatus
    } else if eq_ignore_ascii_case(rest, "cancel"@) || rest == "取消"@ {
        CommandView::GoalCancel
    } else if eq_ignore_ascii_case(rest, "pause"@) || eq_ignore_ascii_case(rest, "resume"@)
        || eq_ignore_ascii_case(rest, "clear"@) {
        CommandView::GoalUnsupported { subcommand: first_word(rest) }
    } else {
        CommandView::GoalSet { objective: rest }
    }
}

/// Whether `t` is `/<rest>` where `rest` parses as an index after `prefix`.
pub open spec fn index_after(t: Seq<char>, prefix: Seq<char>) -> Option<usize> {
    if has_prefix(t, prefix) {
        parse_usize_spec(trim(t.subrange(prefix.len() as int, t.len() as int)))
    } else {
        None
    }
}

/// The command a message text stands for.
pub open spec fn command_of(text: Seq<char>) -> CommandView {
    let t = trim(text);
    if eq_ignore_ascii_case(t, "/help"@) {
        CommandView::Help
    } else if eq_ignore_ascii_case(t, "/stop"@) {
        CommandView::Stop
    } else if eq_ignore_ascii_case(t, "/status"@) {
        CommandView::Status
    } else if eq_ignore_ascii_case(t, "/ws"@) || eq_ignore_ascii_case(t, "/workspaces"@) {
        CommandView::WorkspaceList
    } else if eq_ignore_ascii_case(t, "/threads"@) || eq_ignore_ascii_case(t, "/sessions"@) {
        CommandView::ThreadList
    } else if has_prefix(t, "/ws add "@) || has_prefix(t, "/ws add\t"@) {
        workspace_add_view(t.subrange(8, t.len() as int))
    } else if index_after(t, "/ws "@) is Some {
        CommandView::WorkspaceSwitch { index: index_after(t, "/ws "@)->0 }
    } else if eq_ignore_ascii_case(t, "/new"@) {
        CommandView::ThreadNew { title: None }
    } else if has_prefix(t, "/new "@) {
        CommandView::ThreadNew { title: Some(trim(t.subrange(5, t.len() as int))) }
    } else if index_after(t, "/resume "@) is Some {
        CommandView::ThreadResume { index: index_after(t, "/resume "@)->0 }
    } else if eq_ignore_ascii_case(t, "/profile"@) || eq_ignore_ascii_case(t, "/profiles"@) {
        CommandView::ProfileList
    } else if index_after(t, "/profile "@) is Some {
        CommandView::ProfileSwitch { index: index_after(t, "/profile "@)->0 }
    } else if t.len() >= 5 && eq_ignore_ascii_case(t.subrange(0, 5), "/goal"@) {
        goal_view(trim_start(t.subrange(5, t.len() as int)))
    } else {
        CommandView::PlainText(t)
    }
}

/// Parses the index that follows `prefix` in `t`, if `t` starts with it.
fn parse_index_after(t: &Vec<char>, prefix: &str) -> (r: Option<usize>)
    ensures
        r == index_after(t@, prefix@),
{
    let p = chars_of(prefix);
    if !starts_with(t.as_slice(), p.as_slice()) {
        return None;
    }
    let rest = slice_chars(t, p.len(), t.len());
    let tr = trim_chars(&rest);
    parse_usize(tr.as_slice())
}

fn eq_ic(t: &Vec<char>, s: &str) -> (r: bool)
    ensures
        r == eq_ignore_ascii_case(t@, s@),
{
    let v = chars_of(s);
    chars_eq_ignore_ascii_case(t.as_slice(), v.as_slice())
}

fn starts_with_str(t: &Vec<char>, s: &str) -> (r: bool)
    ensures
        r == has_prefix(t@, s@),
{
    let v = chars_of(s);
    starts_with(t.as_slice(), v.as_slice())
}

/// Builds the `/ws add` command for the text after the prefix.
fn workspace_add(rest: &Vec<char>) -> (r: GatewayCommand)
    ensures
        r@ == workspace_add_view(rest@),
{
    let space = [' '];
    assert(space@ =~= seq![' ']);
    match find_from(rest.as_slice(), &space, 0) {
        Some(i) => {
            proof {
                crate::text::lemma_first_occurrence_is(rest@, seq![' '], i as int);
                assert(i + 1 <= rest.len());
            }
            let path = string_from_chars(slice_chars(rest, 0, i).as_slice());
            let name = string_from_chars(slice_chars(rest, i + 1, rest.len()).as_slice());
            GatewayCommand::WorkspaceAdd { path, name: Some(name) }
        },
        None => {
            proof {
                assert(first_occurrence(rest@, seq![' ']) is None);
            }
            GatewayCommand::WorkspaceAdd { path: string_from_chars(rest.as_slice()), name: None }
        },
    }
}

/// Builds the `/goal` command for the text following `/goal`.
pub fn goal_command(rest: &Vec<char>) -> (r: GatewayCommand)
    ensures
        r@ == goal_view(rest@),
{
    let rest_str = string_from_chars(rest.as_slice());
    let c = rest.as_slice();
    if rest.len() == 0 {
        GatewayCommand::GoalStatus
    } else if eq_ic(rest, "status") || chars_eq_str(c, "查看状态") {
        GatewayCommand::GoalStatus
    } else if eq_ic(rest, "cancel") || chars_eq_str(c, "取消") {
        GatewayCommand::GoalCancel
    } else if eq_ic(rest, "pause") || eq_ic(rest, "resume") || eq_ic(rest, "clear") {
        let ws = words_of(rest);
        let sub = if ws.len() > 0 {
            proof {
                assert(ws@[0].deep_view() =~= ws@[0]@);
            }
            string_from_chars(ws[0].as_slice())
        } else {
            String::new()
        };
        GatewayCommand::GoalUnsupported { subcommand: sub }
    } else {
        GatewayCommand::GoalSet { objective: rest_str }
    }
}

/// Parses a raw message text into a gateway command.
pub fn parse(text: &str) -> (r: GatewayCommand)
    ensures
        r@ == command_of(text@),
{
    let raw = chars_of(text);
    let t = trim_chars(&raw);
    if eq_ic(&t, "/help") {
        return GatewayCommand::Help;
    }
    if eq_ic(&t, "/stop") {
        return GatewayCommand::Stop;
    }
    if eq_ic(&t, "/status") {
        return GatewayCommand::Status;
    }
    if eq_ic(&t, "/ws") || eq_ic(&t, "/workspaces") {
        return GatewayCommand::WorkspaceList;
    }
    if eq_ic(&t, "/threads") || eq_ic(&t, "/sessions") {
        return GatewayCommand::ThreadList;
    }
    if starts_with_str(&t, "/ws add ") || starts_with_str(&t, "/ws add\t") {
        proof {
            reveal_strlit("/ws add ");
            reveal_strlit("/ws add\t");
        }
        let rest = slice_chars(&t, 8, t.len());
        return workspace_add(&rest);
    }
    if let Some(index) = parse_index_after(&t, "/ws ") {
        return GatewayCommand::WorkspaceSwitch { index };
    }
    if eq_ic(&t, "/new") {
        return GatewayCommand::ThreadNew { title: None };
    }
    if starts_with_str(&t, "/new ") {
        proof {
            reveal_strlit("/new ");
        }
        let rest = slice_chars(&t, 5, t.len());
        let title = trim_chars(&rest);
        return GatewayCommand::ThreadNew { title: Some(string_from_chars(title.as_slice())) };
    }
    if let Some(index) = parse_index_after(&t, "/resume ") {
        return GatewayCommand::ThreadResume { index };
    }
    if eq_ic(&t, "/profile") || eq_ic(&t, "/profiles") {
        return GatewayCommand::ProfileList;
    }
    if let Some(index) = parse_index_after(&t, "/profile ") {
        return GatewayCommand::ProfileSwitch { index };
    }
    let t_str = string_from_chars(t.as_slice());
    if t.len() >= 5 && eq_ic(&slice_chars(&t, 0, 5), "/goal") {
        let after = slice_chars(&t, 5, t.len());
        let start = trim_start_index(&after);
        let rest = slice_chars(&after, start, after.len());
        return goal_command(&rest);
    }
    GatewayCommand::PlainText(t_str)
}

} // verus!
