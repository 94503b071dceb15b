//! WeCom (Enterprise WeChat) AI Bot over WebSocket: protocol frames, reading
//! inbound callbacks, de-duplication and debouncing of split messages, and
//! reading send acknowledgements.
use vstd::prelude::*;
use crate::gateway::dedup::TtlCache;
use crate::gateway::traits::{InboundMessage, SendResult};
use crate::gateway::platforms::weixin_auth::{signed_decimal, signed_decimal_string};
use crate::json::{find_key, get_text, json_get, json_i64, Json};
use crate::crypto::hex_lower;
use crate::persistence::rows::opt_text;
use crate::text::{chars_of, clone_string, str_eq, string_from_chars, trim, trim_str};

verus! {

pub const CMD_SUBSCRIBE: &'static str = "aibot_subscribe";
pub const CMD_PING: &'static str = "ping";
pub const CMD_MSG_CALLBACK: &'static str = "aibot_msg_callback";
pub const CMD_LEGACY_CALLBACK: &'static str = "aibot_callback";
pub const CMD_EVENT_CALLBACK: &'static str = "aibot_event_callback";
pub const CMD_RESPOND_MSG: &'static str = "aibot_respond_msg";
pub const CMD_SEND_MSG: &'static str = "aibot_send_msg";

/// Longest message sent, in characters.
pub const MAX_WECOM_MESSAGE_LENGTH: usize = 4000;

/// How long a message id counts as seen (ms).
pub const DEDUP_TTL_MS: u64 = 300_000;

/// How many message ids are kept before stale ones are dropped.
pub const DEDUP_MAX_SIZE: usize = 1000;

/// Wait for a follow-up piece of a message (ms).
pub const DEBOUNCE_DELAY_MS: u64 = 600;

/// Wait after a piece long enough to be one part of a split message (ms).
pub const DEBOUNCE_SPLIT_DELAY_MS: u64 = 2000;

/// Length (characters) from which a piece is taken as part of a split message.
pub const SPLIT_THRESHOLD: usize = 3900;

/// A version-4 UUID as 16 bytes: version nibble 4, RFC 4122 variant bits.
pub open spec fn is_v4_uuid(b: Seq<u8>) -> bool {
    &&& b.len() == 16
    &&& b[6] / 16 == 4
    &&& b[8] / 64 == 2
}

/// Text that is the lower-case hex form of some version-4 UUID.
pub open spec fn is_v4_uuid_hex(s: Seq<char>) -> bool {
    exists|b: Seq<u8>| is_v4_uuid(b) && s == hex_lower(b)
}

/// uuid: `Uuid::new_v4()` in its simple form: the lower-case hex text of a
/// random version-4 UUID; which bytes it holds is left open.
#[verifier::external_body]
fn uuid_v4_simple() -> (r: String)
    ensures
        is_v4_uuid_hex(r@),
{
    uuid::Uuid::new_v4().simple().to_string()
}

/// Text that is the lower-case hyphenated form (8-4-4-4-12 digits) of some
/// version-4 UUID.
pub open spec fn is_v4_uuid_hyphenated(s: Seq<char>) -> bool {
    exists|b: Seq<u8>|
        is_v4_uuid(b) && s == hex_lower(b.subrange(0, 4)) + "-"@ + hex_lower(b.subrange(4, 6))
            + "-"@ + hex_lower(b.subrange(6, 8)) + "-"@ + hex_lower(b.subrange(8, 10)) + "-"@
            + hex_lower(b.subrange(10, 16))
}

/// uuid: `Uuid::new_v4().to_string()`: the lower-case hyphenated text of a
/// random version-4 UUID; which bytes it holds is left open.
#[verifier::external_body]
fn uuid_v4_hyphenated() -> (r: String)
    ensures
        is_v4_uuid_hyphenated(r@),
{
    uuid::Uuid::new_v4().to_string()
}

/// A request id made of `prefix`, a hyphen and the 32 hex digits of some
/// version-4 UUID.
pub open spec fn is_request_id(rid: Seq<char>, prefix: Seq<char>) -> bool {
    exists|b: Seq<u8>| is_v4_uuid(b) && rid == prefix + "-"@ + hex_lower(b)
}

/// A fresh request id: `<prefix>-<32 hex digits>`.
pub fn new_req_id(prefix: &str) -> (r: String)
    ensures
        is_request_id(r@, prefix@),
{
    let mut r = String::from_str(prefix);
    r.append("-");
    let hex = uuid_v4_simple();
    r.append(hex.as_str());
    r
}

/// A string value.
pub fn jstr(s: &str) -> (r: Json)
    ensures
        r matches Json::Str(t) && t@ == s@,
{
    Json::Str(String::from_str(s))
}

/// A protocol frame: `{ cmd, headers: { req_id }, body }`.
pub fn build_frame(cmd: &str, req_id: &str, body: Json) -> (r: Json)
    ensures
        crate::json::get_text(r, "cmd"@) == Some(cmd@),
        (json_get(r, "headers"@) matches Some(h) && get_text(h, "req_id"@) == Some(req_id@)),
        json_get(r, "body"@) == Some(body),
{
    let mut headers: Vec<(String, Json)> = Vec::new();
    headers.push((String::from_str("req_id"), jstr(req_id)));
    let mut fields: Vec<(String, Json)> = Vec::new();
    fields.push((String::from_str("cmd"), jstr(cmd)));
    fields.push((String::from_str("headers"), Json::Object(headers)));
    fields.push((String::from_str("body"), body));
    let r = Json::Object(fields);
    proof {
        reveal_strlit("cmd");
        reveal_strlit("headers");
        reveal_strlit("body");
        reveal_strlit("req_id");
        reveal_with_fuel(crate::json::find_key, 4);
        let e = fields@;
        assert("cmd"@.len() == 3 && "headers"@.len() == 7 && "body"@.len() == 4);
        assert(e.drop_first()[0] == e[1] && e.drop_first().drop_first()[0] == e[2]);
        let h = headers@;
        assert(crate::json::find_key(h, "req_id"@) == Some(h[0].1));
    }
    r
}

/// The string at `v[a][b]`.
pub open spec fn text_at2(v: Json, a: Seq<char>, b: Seq<char>) -> Option<Seq<char>> {
    match json_get(v, a) {
        Some(x) => get_text(x, b),
        None => None,
    }
}

/// The string at `v[a][b]`, if there is one.
pub fn text_at2_of<'a>(v: &'a Json, a: &str, b: &str) -> (r: Option<&'a String>)
    ensures
        match r {
            Some(s) => text_at2(*v, a@, b@) == Some(s@),
            None => text_at2(*v, a@, b@) is None,
        },
{
    match v.get(a) {
        Some(x) => x.get_str(b),
        None => None,
    }
}

/// `t` trimmed, when that leaves something.
pub open spec fn trimmed_part(t: Option<Seq<char>>) -> Option<Seq<char>> {
    match t {
        Some(s) => if trim(s).len() > 0 {
            Some(trim(s))
        } else {
            None
        },
        None => None,
    }
}

fn trimmed_part_of(t: Option<&String>) -> (r: Option<String>)
    ensures
        opt_text(r) == trimmed_part(match t {
            Some(s) => Some(s@),
            None => None,
        }),
{
    match t {
        Some(s) => {
            let tr = trim_str(s.as_str());
            if tr.as_str().unicode_len() > 0 {
                Some(tr)
            } else {
                None
            }
        },
        None => None,
    }
}

/// The text parts of the items of a mixed message: the trimmed non-empty
/// `text.content` of each `text` item.
pub open spec fn mixed_parts(items: Seq<Json>) -> Seq<Seq<char>>
    decreases items.len(),
{
    if items.len() == 0 {
        Seq::empty()
    } else {
        let rest = mixed_parts(items.drop_last());
        let it = items.last();
        let is_text = match get_text(it, "msgtype"@) {
            Some(t) => t == "text"@,
            None => false,
        };
        if is_text {
            match trimmed_part(text_at2(it, "text"@, "content"@)) {
                Some(p) => rest.push(p),
                None => rest,
            }
        } else {
            rest
        }
    }
}

/// The text parts of a message body, in order.
pub open spec fn body_parts(body: Json) -> Seq<Seq<char>> {
    let msgtype = match get_text(body, "msgtype"@) {
        Some(t) => t,
        None => Seq::empty(),
    };
    if msgtype == "mixed"@ {
        match json_get(body, "mixed"@) {
            Some(m) => match json_get(m, "msg_item"@) {
                Some(Json::Array(items)) => mixed_parts(items@),
                _ => Seq::empty(),
            },
            None => Seq::empty(),
        }
    } else {
        let text = match trimmed_part(text_at2(body, "text"@, "content"@)) {
            Some(p) => seq![p],
            None => Seq::empty(),
        };
        let voice = if msgtype == "voice"@ {
            match trimmed_part(text_at2(body, "voice"@, "content"@)) {
                Some(p) => seq![p],
                None => Seq::empty(),
            }
        } else {
            Seq::empty()
        };
        let title = if msgtype == "appmsg"@ {
            match trimmed_part(text_at2(body, "appmsg"@, "title"@)) {
                Some(p) => seq![p],
                None => Seq::empty(),
            }
        } else {
            Seq::empty()
        };
        text + voice + title
    }
}

/// The parts joined by newlines.
pub open spec fn joined(ts: Seq<Seq<char>>) -> Seq<char>
    decreases ts.len(),
{
    if ts.len() == 0 {
        Seq::empty()
    } else if ts.len() == 1 {
        ts[0]
    } else {
        joined(ts.drop_last()) + seq!['\n'] + ts.last()
    }
}

/// The quoted message a body replies to: the trimmed text of a quoted text
/// or voice message.
pub open spec fn quote_text(body: Json) -> Option<Seq<char>> {
    match json_get(body, "quote"@) {
        Some(q) => {
            let qt = match get_text(q, "msgtype"@) {
                Some(t) => t,
                None => Seq::empty(),
            };
            if qt == "text"@ {
                trimmed_part(text_at2(q, "text"@, "content"@))
            } else if qt == "voice"@ {
                trimmed_part(text_at2(q, "voice"@, "content"@))
            } else {
                None
            }
        },
        None => None,
    }
}

/// Adds a part to newline-joined text (`started` tells whether a part is
/// already there).
pub fn push_joined(out: &mut String, started: &mut bool, part: String)
    ensures
        *final(started),
        final(out)@ == if !*old(started) {
            part@
        } else {
            old(out)@ + seq!['\n'] + part@
        },
{
    if *started {
        out.append("\n");
    } else {
        *out = String::new();
    }
    out.append(part.as_str());
    *started = true;
    proof {
        reveal_strlit("\n");
    }
}

/// Joining one more part adds a newline and the part (just the part when
/// there was none).
pub proof fn lemma_joined_push(ts: Seq<Seq<char>>, p: Seq<char>)
    ensures
        joined(ts.push(p)) == if ts.len() == 0 {
            p
        } else {
            joined(ts) + seq!['\n'] + p
        },
{
    assert(ts.push(p).drop_last() =~= ts);
}

/// The text of a message body and the text it quotes. Mixed messages give
/// their text items; others their text, plus the transcription of a voice
/// message or the title of a file; parts are trimmed and joined by newlines.
pub fn extract_text(body: &Json) -> (r: (String, Option<String>))
    ensures
        r.0@ == joined(body_parts(*body)),
        opt_text(r.1) == quote_text(*body),
{
    let msgtype = match body.get_str("msgtype") {
        Some(t) => clone_string(t),
        None => String::new(),
    };
    let mut out = String::new();
    let mut started = false;
    if str_eq(msgtype.as_str(), "mixed") {
        let items = match body.get("mixed") {
            Some(m) => match m.get("msg_item") {
                Some(v) => v.as_array(),
                None => None,
            },
            None => None,
        };
        match items {
            Some(items) => {
                let mut i: usize = 0;
                assert(items@.subrange(0, 0) =~= Seq::<Json>::empty());
                while i < items.len()
                    invariant
                        i <= items@.len(),
                        started == (mixed_parts(items@.subrange(0, i as int)).len() > 0),
                        out@ == joined(mixed_parts(items@.subrange(0, i as int))),
                    decreases items@.len() - i,
                {
                    let it = &items[i];
                    let ghost before = mixed_parts(items@.subrange(0, i as int));
                    assert(items@.subrange(0, i + 1).drop_last() =~= items@.subrange(0, i as int));
                    let is_text = match it.get_str("msgtype") {
                        Some(t) => str_eq(t.as_str(), "text"),
                        None => false,
                    };
                    if is_text {
                        match trimmed_part_of(text_at2_of(it, "text", "content")) {
                            Some(p) => {
                                proof {
                                    lemma_joined_push(before, p@);
                                }
                                push_joined(&mut out, &mut started, p);
                            },
                            None => {},
                        }
                    }
                    i += 1;
                }
                assert(items@.subrange(0, items@.len() as int) =~= items@);
            },
            None => {
                proof {
                    reveal_strlit("");
                }
            },
        }
    } else {
        let ghost mut parts: Seq<Seq<char>> = Seq::empty();
        match trimmed_part_of(text_at2_of(body, "text", "content")) {
            Some(p) => {
                proof {
                    lemma_joined_push(parts, p@);
                    parts = parts.push(p@);
                }
                push_joined(&mut out, &mut started, p);
            },
            None => {},
        }
        if str_eq(msgtype.as_str(), "voice") {
            match trimmed_part_of(text_at2_of(body, "voice", "content")) {
                Some(p) => {
                    proof {
                        lemma_joined_push(parts, p@);
                        parts = parts.push(p@);
                    }
                    push_joined(&mut out, &mut started, p);
                },
                None => {},
            }
        }
        if str_eq(msgtype.as_str(), "appmsg") {
            match trimmed_part_of(text_at2_of(body, "appmsg", "title")) {
                Some(p) => {
                    proof {
                        lemma_joined_push(parts, p@);
                        parts = parts.push(p@);
                    }
                    push_joined(&mut out, &mut started, p);
                },
                None => {},
            }
        }
        proof {
            reveal_strlit("");
            assert(parts =~= body_parts(*body));
        }
    }
    let quote = match body.get("quote") {
        Some(q) => {
            let qt = match q.get_str("msgtype") {
                Some(t) => clone_string(t),
                None => String::new(),
            };
            if str_eq(qt.as_str(), "text") {
                trimmed_part_of(text_at2_of(q, "text", "content"))
            } else if str_eq(qt.as_str(), "voice") {
                trimmed_part_of(text_at2_of(q, "voice", "content"))
            } else {
                None
            }
        },
        None => None,
    };
    proof {
        reveal_strlit("");
    }
    (out, quote)
}


/// The `cmd` of a frame, empty when absent.
pub open spec fn frame_cmd(v: Json) -> Seq<char> {
    match get_text(v, "cmd"@) {
        Some(c) => c,
        None => Seq::empty(),
    }
}

fn frame_cmd_of(v: &Json) -> (r: String)
    ensures
        r@ == frame_cmd(*v),
{
    match v.get_str("cmd") {
        Some(c) => clone_string(c),
        None => String::new(),
    }
}

/// Commands that are never acknowledgements of a send.
pub open spec fn non_ack_cmd(c: Seq<char>) -> bool {
    c == "aibot_msg_callback"@ || c == "aibot_callback"@ || c == "aibot_event_callback"@
        || c == "aibot_subscribe"@ || c == "ping"@
}

/// The request a frame acknowledges: its non-empty `headers.req_id`, unless
/// its command marks it as a callback, push or ping.
pub open spec fn ack_req_id_of(v: Json) -> Option<Seq<char>> {
    if non_ack_cmd(frame_cmd(v)) {
        None
    } else {
        match text_at2(v, "headers"@, "req_id"@) {
            Some(id) => if id.len() > 0 {
                Some(id)
            } else {
                None
            },
            None => None,
        }
    }
}

/// The request an inbound frame acknowledges, if any; the reader hands such
/// frames to the waiting sender instead of reading them as messages.
pub fn ack_req_id(frame: &Json) -> (r: Option<String>)
    ensures
        opt_text(r) == ack_req_id_of(*frame),
{
    let cmd = frame_cmd_of(frame);
    let c = cmd.as_str();
    if str_eq(c, "aibot_msg_callback") || str_eq(c, "aibot_callback") || str_eq(
        c,
        "aibot_event_callback",
    ) || str_eq(c, "aibot_subscribe") || str_eq(c, "ping") {
        return None;
    }
    match text_at2_of(frame, "headers", "req_id") {
        Some(id) => if id.as_str().unicode_len() > 0 {
            Some(clone_string(id))
        } else {
            None
        },
        None => None,
    }
}

/// What a frame received during the subscribe handshake means.
#[derive(Debug)]
pub enum HandshakeStep {
    /// Not the answer: keep waiting.
    Wait,
    /// Subscribed.
    Subscribed,
    /// Authentication was refused.
    Refused(String),
}

/// The `errcode` in a frame's body.
pub open spec fn body_errcode(v: Json) -> Option<i64> {
    match json_get(v, "body"@) {
        Some(b) => match json_get(b, "errcode"@) {
            Some(e) => json_i64(e),
            None => None,
        },
        None => None,
    }
}

fn body_errcode_of(v: &Json) -> (r: Option<i64>)
    ensures
        r == body_errcode(*v),
{
    match v.get("body") {
        Some(b) => match b.get("errcode") {
            Some(e) => e.as_i64(),
            None => None,
        },
        None => None,
    }
}

/// Reads a handshake frame (`None` when it is not JSON). Pings and frames
/// for other requests are skipped; the answer to the subscription succeeds
/// unless its body has a non-zero `errcode`.
pub fn handshake_step(frame: Option<&Json>, subscribe_req_id: &str) -> (r: HandshakeStep)
    ensures
        match frame {
            None => r is Wait,
            Some(v) => if frame_cmd(*v) == "ping"@ {
                r is Wait
            } else if text_at2(*v, "headers"@, "req_id"@) != Some(subscribe_req_id@) {
                r is Wait
            } else {
                match body_errcode(*v) {
                    Some(c) => if c == 0 {
                        r is Subscribed
                    } else {
                        r matches HandshakeStep::Refused(e) && e@
                            == "subscribe authentication failed: errcode="@ + signed_decimal(c as int)
                            + " errmsg="@ + match text_at2(*v, "body"@, "errmsg"@) {
                            Some(m) => m,
                            None => "unknown"@,
                        }
                    },
                    None => r is Subscribed,
                }
            },
        },
{
    let v = match frame {
        Some(v) => v,
        None => return HandshakeStep::Wait,
    };
    let cmd = frame_cmd_of(v);
    if str_eq(cmd.as_str(), "ping") {
        return HandshakeStep::Wait;
    }
    let matches_request = match text_at2_of(v, "headers", "req_id") {
        Some(id) => str_eq(id.as_str(), subscribe_req_id),
        None => false,
    };
    if !matches_request {
        return HandshakeStep::Wait;
    }
    match body_errcode_of(v) {
        Some(c) => if c == 0 {
            HandshakeStep::Subscribed
        } else {
            let mut e = String::from_str("subscribe authentication failed: errcode=");
            e.append(signed_decimal_string(c).as_str());
            e.append(" errmsg=");
            match text_at2_of(v, "body", "errmsg") {
                Some(m) => e.append(m.as_str()),
                None => e.append("unknown"),
            }
            HandshakeStep::Refused(e)
        },
        None => HandshakeStep::Subscribed,
    }
}

/// Whether a frame is a message callback.
pub open spec fn is_callback(v: Json) -> bool {
    frame_cmd(v) == "aibot_msg_callback"@ || frame_cmd(v) == "aibot_callback"@
}

/// Reads a message callback frame. The sender is `body.from.userid`; the
/// message id is `body.msgid`, else the request id, else a fresh UUID; the
/// chat is a non-empty `body.chatid`, else the sender; it is a group message
/// when `body.chattype` is `group`. Frames other than callbacks, without a
/// body, or without text give `None`.
pub fn parse_message(frame: &Json) -> (r: Option<InboundMessage>)
    ensures
        match r {
            Some(m) => is_callback(*frame) && (json_get(*frame, "body"@) matches Some(body) && {
                let req = text_at2(*frame, "headers"@, "req_id"@);
                &&& m.text@ == joined(body_parts(body))
                &&& m.text@.len() > 0
                &&& m.sender_id@ == match json_get(body, "from"@) {
                    Some(f) => match get_text(f, "userid"@) {
                        Some(u) => u,
                        None => Seq::empty(),
                    },
                    None => Seq::empty(),
                }
                &&& (get_text(body, "msgid"@) matches Some(id) ==> m.message_id@ == id)
                &&& (get_text(body, "msgid"@) is None && req is Some ==> Some(m.message_id@) == req)
                &&& (get_text(body, "msgid"@) is None && req is None ==> is_v4_uuid_hyphenated(
                    m.message_id@,
                ))
                &&& m.chat_id@ == match get_text(body, "chatid"@) {
                    Some(c) => if c.len() > 0 {
                        c
                    } else {
                        m.sender_id@
                    },
                    None => m.sender_id@,
                }
                &&& m.is_group == (get_text(body, "chattype"@) == Some("group"@))
                &&& opt_text(m.req_id) == req
                &&& m.media_urls@.len() == 0 && m.media_attachments@.len() == 0
            }),
            None => !is_callback(*frame) || json_get(*frame, "body"@) is None || (json_get(
                *frame,
                "body"@,
            ) matches Some(body) && joined(body_parts(body)).len() == 0),
        },
{
    let cmd = frame_cmd_of(frame);
    if !str_eq(cmd.as_str(), "aibot_msg_callback") && !str_eq(cmd.as_str(), "aibot_callback") {
        return None;
    }
    let body = match frame.get("body") {
        Some(b) => b,
        None => return None,
    };
    let req_id = match text_at2_of(frame, "headers", "req_id") {
        Some(r) => Some(clone_string(r)),
        None => None,
    };
    let sender_id = match body.get("from") {
        Some(f) => match f.get_str("userid") {
            Some(u) => clone_string(u),
            None => String::new(),
        },
        None => String::new(),
    };
    let message_id = match body.get_str("msgid") {
        Some(m) => clone_string(m),
        None => match &req_id {
            Some(r) => clone_string(r),
            None => uuid_v4_hyphenated(),
        },
    };
    let chat_id = match body.get_str("chatid") {
        Some(c) => if c.as_str().unicode_len() > 0 {
            clone_string(c)
        } else {
            clone_string(&sender_id)
        },
        None => clone_string(&sender_id),
    };
    let is_group = match body.get_str("chattype") {
        Some(t) => str_eq(t.as_str(), "group"),
        None => false,
    };
    let (text, _quote) = extract_text(body);
    if text.as_str().unicode_len() == 0 {
        return None;
    }
    Some(
        InboundMessage {
            message_id,
            sender_id,
            chat_id,
            text,
            is_group,
            media_urls: Vec::new(),
            media_attachments: Vec::new(),
            req_id,
        },
    )
}

/// The inbound side of the connection: recently seen message ids, and a
/// message held back briefly so that the pieces of a long message a user's
/// client split up arrive as one.
pub struct WecomReader {
    pub seen: TtlCache,
    pub pending: Option<InboundMessage>,
    pub last_chunk_len: usize,
}

/// How a held message and a new one from the same sender and chat merge.
pub open spec fn merged(p: InboundMessage, m: InboundMessage) -> (Seq<char>, Option<Seq<char>>) {
    (p.text@ + seq!['\n'] + m.text@, if m.req_id is Some {
        opt_text(m.req_id)
    } else {
        opt_text(p.req_id)
    })
}

impl WecomReader {
    /// A reader with nothing seen or held.
    pub fn new() -> (r: WecomReader)
        ensures
            r.seen.times().len() == 0 && r.seen.ttl() == DEDUP_TTL_MS,
            r.seen.capacity() == DEDUP_MAX_SIZE,
            r.pending is None && r.last_chunk_len == 0,
    {
        WecomReader { seen: TtlCache::new(DEDUP_TTL_MS, DEDUP_MAX_SIZE), pending: None, last_chunk_len: 0 }
    }

    /// How long to wait for a follow-up piece (ms): longer after a piece that
    /// looks like part of a split message.
    pub fn debounce_ms(&self) -> (r: u64)
        ensures
            r == (if self.last_chunk_len >= SPLIT_THRESHOLD {
                DEBOUNCE_SPLIT_DELAY_MS
            } else {
                DEBOUNCE_DELAY_MS
            }),
    {
        if self.last_chunk_len >= SPLIT_THRESHOLD {
            DEBOUNCE_SPLIT_DELAY_MS
        } else {
            DEBOUNCE_DELAY_MS
        }
    }

    /// Takes a parsed message received at `now` (ms). A message id seen
    /// within the time-to-live is dropped. A message from the sender and
    /// chat of the held one is appended to it (on a new line); any other
    /// message is held instead, and the one held before is returned for
    /// delivery.
    pub fn on_message(&mut self, msg: InboundMessage, now: u64) -> (r: Option<InboundMessage>)
        ensures
            msg.message_id@.len() > 0 && old(self).seen.fresh(msg.message_id@, now) ==> r is None
                && final(self).seen == old(self).seen && final(self).pending == old(self).pending
                && final(self).last_chunk_len == old(self).last_chunk_len,
            !(msg.message_id@.len() > 0 && old(self).seen.fresh(msg.message_id@, now)) ==> {
                &&& (msg.message_id@.len() > 0 ==> final(self).seen.fresh(msg.message_id@, now)
                    && final(self).seen.times().contains_key(msg.message_id@) && final(self).seen.times()[msg.message_id@]
                    == now)
                &&& final(self).last_chunk_len == msg.text@.len()
                &&& match old(self).pending {
                    Some(p) => if p.sender_id@ == msg.sender_id@ && p.chat_id@ == msg.chat_id@ {
                        r is None && (final(self).pending matches Some(q) && (q.text@, opt_text(
                            q.req_id,
                        )) == merged(p, msg) && q.message_id == p.message_id && q.sender_id
                            == p.sender_id && q.chat_id == p.chat_id)
                    } else {
                        r == Some(p) && final(self).pending == Some(msg)
                    },
                    None => r is None && final(self).pending == Some(msg),
                }
            },
            final(self).seen.ttl() == old(self).seen.ttl(),
    {
        if msg.message_id.as_str().unicode_len() > 0 {
            if self.seen.check_and_record(msg.message_id.as_str(), now) {
                return None;
            }
        }
        self.last_chunk_len = chars_of(msg.text.as_str()).len();
        let held = self.pending.take();
        match held {
            Some(mut p) => {
                if str_eq(p.sender_id.as_str(), msg.sender_id.as_str()) && str_eq(
                    p.chat_id.as_str(),
                    msg.chat_id.as_str(),
                ) {
                    p.text.append("\n");
                    p.text.append(msg.text.as_str());
                    if msg.req_id.is_some() {
                        p.req_id = msg.req_id;
                    }
                    proof {
                        reveal_strlit("\n");
                    }
                    self.pending = Some(p);
                    None
                } else {
                    self.pending = Some(msg);
                    Some(p)
                }
            },
            None => {
                self.pending = Some(msg);
                None
            },
        }
    }

    /// The debounce window passed: the held message, if any, is delivered.
    pub fn on_timeout(&mut self) -> (r: Option<InboundMessage>)
        ensures
            r == old(self).pending,
            final(self).pending is None,
            final(self).last_chunk_len == 0,
            final(self).seen == old(self).seen,
    {
        self.last_chunk_len = 0;
        self.pending.take()
    }

    /// The connection ended: the held message, if any, is delivered.
    pub fn flush(&mut self) -> (r: Option<InboundMessage>)
        ensures
            r == old(self).pending,
            final(self).pending is None,
            final(self).last_chunk_len == old(self).last_chunk_len,
            final(self).seen == old(self).seen,
    {
        self.pending.take()
    }
}

/// The text sent for a reply: cut to 3980 characters with a note when
/// longer than the platform allows.
pub open spec fn outbound_content(text: Seq<char>) -> Seq<char> {
    if text.len() > 4000 {
        text.subrange(0, 3980) + "\n\n…(已截断)"@
    } else {
        text
    }
}

/// The text sent for a reply, cut down when longer than a message allows.
pub fn outbound_text(text: &str) -> (r: String)
    ensures
        r@ == outbound_content(text@),
{
    let cs = chars_of(text);
    if cs.len() > MAX_WECOM_MESSAGE_LENGTH {
        let mut r = string_from_chars(crate::text::slice_chars(&cs, 0, MAX_WECOM_MESSAGE_LENGTH - 20).as_slice());
        r.append("\n\n…(已截断)");
        r
    } else {
        String::from_str(text)
    }
}

/// A markdown message body.
fn markdown_body(chat_id: Option<&str>, content: &str) -> (r: Json)
    ensures
        match chat_id {
            Some(c) => get_text(r, "chatid"@) == Some(c@),
            None => json_get(r, "chatid"@) is None,
        },
        get_text(r, "msgtype"@) == Some("markdown"@),
        text_at2(r, "markdown"@, "content"@) == Some(content@),
{
    let mut md: Vec<(String, Json)> = Vec::new();
    md.push((String::from_str("content"), jstr(content)));
    let mut fields: Vec<(String, Json)> = Vec::new();
    match chat_id {
        Some(c) => fields.push((String::from_str("chatid"), jstr(c))),
        None => {},
    }
    fields.push((String::from_str("msgtype"), jstr("markdown")));
    fields.push((String::from_str("markdown"), Json::Object(md)));
    let r = Json::Object(fields);
    proof {
        reveal_strlit("chatid");
        reveal_strlit("msgtype");
        reveal_strlit("markdown");
        reveal_strlit("content");
        reveal_with_fuel(find_key, 4);
        assert("chatid"@.len() == 6 && "msgtype"@.len() == 7 && "markdown"@.len() == 8);
        let e = fields@;
        if chat_id is Some {
            assert(e.drop_first()[0] == e[1] && e.drop_first().drop_first()[0] == e[2]);
            assert(e.drop_first().drop_first().drop_first().len() == 0);
        } else {
            assert(e.drop_first()[0] == e[1]);
            assert(e.drop_first().drop_first().len() == 0);
        }
        assert(find_key(md@, "content"@) == Some(md@[0].1));
    }
    r
}

/// The frame that sends `text` to a chat, and the request id its
/// acknowledgement will carry. A chat with a recorded request id (a group)
/// is answered with `aibot_respond_msg` under that id; otherwise
/// `aibot_send_msg` goes to the chat under a fresh id.
pub fn send_frame(chat_id: &str, text: &str, group_req_id: Option<&str>) -> (r: (String, Json))
    ensures
        ({
            let (rid, f) = r;
            let body = json_get(f, "body"@);
            &&& text_at2(f, "headers"@, "req_id"@) == Some(rid@)
            &&& (body matches Some(b) && get_text(b, "msgtype"@) == Some("markdown"@) && text_at2(
                b,
                "markdown"@,
                "content"@,
            ) == Some(outbound_content(text@)))
            &&& match group_req_id {
                Some(g) => rid@ == g@ && get_text(f, "cmd"@) == Some("aibot_respond_msg"@) && (
                body matches Some(b) && json_get(b, "chatid"@) is None),
                None => get_text(f, "cmd"@) == Some("aibot_send_msg"@) && (body matches Some(b)
                    && get_text(b, "chatid"@) == Some(chat_id@)) && is_request_id(
                    rid@,
                    "aibot_send_msg"@,
                ),
            }
        }),
{
    let content = outbound_text(text);
    match group_req_id {
        Some(g) => {
            let body = markdown_body(None, content.as_str());
            let f = build_frame("aibot_respond_msg", g, body);
            (String::from_str(g), f)
        },
        None => {
            let rid = new_req_id("aibot_send_msg");
            let body = markdown_body(Some(chat_id), content.as_str());
            let f = build_frame("aibot_send_msg", rid.as_str(), body);
            (rid, f)
        },
    }
}

/// The `errcode` of an acknowledgement: in its body, else at the top, else 0.
pub open spec fn ack_errcode(v: Json) -> i64 {
    match body_errcode(v) {
        Some(c) => c,
        None => match json_get(v, "errcode"@) {
            Some(e) => match json_i64(e) {
                Some(c) => c,
                None => 0,
            },
            None => 0,
        },
    }
}

/// The `errmsg` of an acknowledgement: in its body, else at the top.
pub open spec fn ack_errmsg(v: Json) -> Seq<char> {
    match text_at2(v, "body"@, "errmsg"@) {
        Some(m) => m,
        None => match get_text(v, "errmsg"@) {
            Some(m) => m,
            None => "unknown"@,
        },
    }
}

/// The result of a send, from the acknowledgement of request `req_id`.
pub fn send_result_from_ack(ack: &Json, req_id: String) -> (r: SendResult)
    ensures
        ack_errcode(*ack) == 0 ==> r.success && r.message_id == Some(req_id) && r.error is None,
        ack_errcode(*ack) != 0 ==> !r.success && r.message_id is None && (r.error matches Some(e)
            && e@ == "send rejected: errcode="@ + signed_decimal(ack_errcode(*ack) as int)
            + " errmsg="@ + ack_errmsg(*ack)),
{
    let code = match body_errcode_of(ack) {
        Some(c) => c,
        None => match ack.get("errcode") {
            Some(e) => match e.as_i64() {
                Some(c) => c,
                None => 0,
            },
            None => 0,
        },
    };
    if code == 0 {
        return SendResult::ok(Some(req_id));
    }
    let msg = match text_at2_of(ack, "body", "errmsg") {
        Some(m) => clone_string(m),
        None => match ack.get_str("errmsg") {
            Some(m) => clone_string(m),
            None => String::from_str("unknown"),
        },
    };
    let mut e = String::from_str("send rejected: errcode=");
    e.append(signed_decimal_string(code).as_str());
    e.append(" errmsg=");
    e.append(msg.as_str());
    SendResult::err(e.as_str())
}

/// The subscription request: `aibot_subscribe` with the bot's credentials
/// and device, under a fresh request id (returned with it).
pub fn subscribe_payload(bot_id: &str, secret: &str, device_id: &str) -> (r: (String, Json))
    ensures
        ({
            let (rid, f) = r;
            &&& get_text(f, "cmd"@) == Some("aibot_subscribe"@)
            &&& text_at2(f, "headers"@, "req_id"@) == Some(rid@)
            &&& is_request_id(rid@, "subscribe"@)
            &&& (json_get(f, "body"@) matches Some(b) && get_text(b, "bot_id"@) == Some(bot_id@)
                && get_text(b, "secret"@) == Some(secret@) && get_text(b, "device_id"@) == Some(
                device_id@,
            ))
        }),
{
    let rid = new_req_id("subscribe");
    let mut fields: Vec<(String, Json)> = Vec::new();
    fields.push((String::from_str("bot_id"), jstr(bot_id)));
    fields.push((String::from_str("secret"), jstr(secret)));
    fields.push((String::from_str("device_id"), jstr(device_id)));
    let body = Json::Object(fields);
    proof {
        reveal_strlit("bot_id");
        reveal_strlit("secret");
        reveal_strlit("device_id");
        reveal_with_fuel(find_key, 4);
        assert("bot_id"@.len() == 6 && "secret"@.len() == 6 && "device_id"@.len() == 9);
        assert("bot_id"@[0] != "secret"@[0]);
        let e = fields@;
        assert(e.drop_first()[0] == e[1] && e.drop_first().drop_first()[0] == e[2]);
    }
    let f = build_frame("aibot_subscribe", rid.as_str(), body);
    (rid, f)
}

/// A heartbeat: `ping` with an empty body under a fresh request id.
pub fn ping_payload() -> (r: Json)
    ensures
        get_text(r, "cmd"@) == Some("ping"@),
        (text_at2(r, "headers"@, "req_id"@) matches Some(rid) && is_request_id(rid, "ping"@)),
        (json_get(r, "body"@) matches Some(Json::Object(e)) && e@.len() == 0),
{
    let rid = new_req_id("ping");
    build_frame("ping", rid.as_str(), Json::Object(Vec::new()))
}


/// A message whose id was recorded at `t1` is a repeat, and so dropped,
/// when the id arrives again before the time-to-live has passed.
pub proof fn lemma_redelivery_dropped(reader: WecomReader, id: Seq<char>, t1: u64, t2: u64)
    requires
        reader.seen.times().contains_key(id),
        reader.seen.times()[id] == t1,
        reader.seen.ttl() == DEDUP_TTL_MS,
        t1 <= t2,
        t2 - t1 < DEDUP_TTL_MS,
    ensures
        reader.seen.fresh(id, t2),
{
}

/// A voice message without text content reads as its transcription,
/// trimmed: `voice.content` is what the message says.
pub proof fn lemma_voice_message_text(body: Json, content: Seq<char>)
    requires
        get_text(body, "msgtype"@) == Some("voice"@),
        text_at2(body, "voice"@, "content"@) == Some(content),
        trim(content).len() > 0,
        match text_at2(body, "text"@, "content"@) {
            Some(t) => trim(t).len() == 0,
            None => true,
        },
    ensures
        joined(body_parts(body)) == trim(content),
{
    reveal_strlit("voice");
    reveal_strlit("mixed");
    reveal_strlit("appmsg");
    assert("voice"@ != "mixed"@) by {
        assert("voice"@[0] != "mixed"@[0]);
    }
    assert("voice"@ != "appmsg"@) by {
        assert("voice"@[0] != "appmsg"@[0]);
    }
    let parts = body_parts(body);
    assert(parts =~= seq![trim(content)]);
}

/// A text message reads as its `text.content`, trimmed.
pub proof fn lemma_text_message_text(body: Json, content: Seq<char>)
    requires
        get_text(body, "msgtype"@) == Some("text"@),
        text_at2(body, "text"@, "content"@) == Some(content),
        trim(content).len() > 0,
    ensures
        joined(body_parts(body)) == trim(content),
{
    reveal_strlit("text");
    reveal_strlit("voice");
    reveal_strlit("mixed");
    reveal_strlit("appmsg");
    assert("text"@ != "mixed"@ && "text"@ != "voice"@ && "text"@ != "appmsg"@) by {
        assert("text"@[0] != "mixed"@[0] && "text"@[0] != "voice"@[0] && "text"@[0] != "appmsg"@[0]);
    }
    assert(body_parts(body) =~= seq![trim(content)]);
}

} // verus!
