//! WhatsApp Cloud API: webhook signature checks, reading inbound messages,
//! the subscription handshake, the per-message decisions of the webhook, and
//! reading send replies.
use vstd::prelude::*;
use vstd::utf8::encode_utf8;
use crate::crypto::{ct_eq, hex_decode, hex_decoded, hex_lower, hmac_sha256, hmac_sha256_tag, lemma_hex_round_trip};
use crate::gateway::config::{DmPolicy, WhatsAppConfig};
use crate::gateway::dedup::TtlCache;
use crate::gateway::platforms::feishu::list_contains;
use crate::gateway::platforms::wecom::{text_at2, text_at2_of};
use crate::gateway::platforms::weixin_auth::{signed_decimal, signed_decimal_string, text_or};
use crate::gateway::traits::{InboundMessage, SendResult};
use crate::json::{get_text, json_get, json_i64, json_text, string_views, Json};
use crate::text::{clone_string, clone_strings, decimal, decimal_string, has_prefix, has_suffix, str_eq};

verus! {

/// Replies longer than this many bytes are sent in chunks.
pub const MAX_WHATSAPP_MESSAGE_LENGTH: usize = 4096;

/// How long a message id counts as seen (ms): five minutes, both ends
/// included.
pub const DEDUP_TTL_MS: u64 = 300_001;
/// How many message ids are kept before the oldest are dropped.
pub const DEDUP_MAX_SIZE: usize = 1000;

/// Whether `X-Hub-Signature-256` is `sha256=` and the hex HMAC-SHA256 of
/// the body under the app secret.
pub open spec fn hub_signature_valid(app_secret: Seq<char>, body: Seq<u8>, header: Seq<char>) -> bool {
    has_prefix(header, "sha256="@) && match hex_decoded(encode_utf8(header.skip(7))) {
        Some(sig) => sig == hmac_sha256_tag(encode_utf8(app_secret), body),
        None => false,
    }
}

/// Verifies the Meta webhook signature (`sha256=<hex>`), comparing in
/// constant time.
pub fn verify_signature(app_secret: &str, body: &[u8], x_hub_signature_256: &str) -> (r: bool)
    ensures
        r == hub_signature_valid(app_secret@, body@, x_hub_signature_256@),
{
    let cs = crate::text::chars_of(x_hub_signature_256);
    let prefix = crate::text::chars_of("sha256=");
    proof {
        reveal_strlit("sha256=");
    }
    if !crate::text::starts_with(cs.as_slice(), prefix.as_slice()) {
        return false;
    }
    let hex_part = crate::text::substring(&cs, 7, cs.len());
    let key = app_secret.as_bytes_vec();
    let tag = hmac_sha256(key.as_slice(), body);
    match hex_decode(hex_part.as_str()) {
        Some(sig) => {
            if sig.len() != tag.len() {
                return false;
            }
            ct_eq(tag.as_slice(), sig.as_slice())
        },
        None => false,
    }
}

/// `ts` joined by `sep`.
pub open spec fn joined_with(ts: Seq<Seq<char>>, sep: Seq<char>) -> Seq<char>
    decreases ts.len(),
{
    if ts.len() == 0 {
        Seq::empty()
    } else if ts.len() == 1 {
        ts[0]
    } else {
        joined_with(ts.drop_last(), sep) + sep + ts.last()
    }
}

/// A coordinate as it is printed: the number's text, `0` when missing or
/// not a number.
pub open spec fn coordinate_text(v: Option<Json>) -> Seq<char> {
    match v {
        Some(Json::Int(n)) => signed_decimal(n as int),
        Some(Json::UInt(n)) => decimal(n as nat),
        Some(Json::Float(s)) => s@,
        _ => "0"@,
    }
}

/// The formatted names of the contacts that have one.
pub open spec fn contact_names(cs: Seq<Json>) -> Seq<Seq<char>>
    decreases cs.len(),
{
    if cs.len() == 0 {
        Seq::empty()
    } else {
        let rest = contact_names(cs.drop_last());
        match text_at2(cs.last(), "name"@, "formatted_name"@) {
            Some(n) => rest.push(n),
            None => rest,
        }
    }
}

/// The parts of a location text: the coordinates, then the non-empty name
/// and address.
pub open spec fn location_parts(loc: Option<Json>) -> Seq<Seq<char>> {
    let (lat, lng, name, address) = match loc {
        Some(l) => (
            coordinate_text(json_get(l, "latitude"@)),
            coordinate_text(json_get(l, "longitude"@)),
            text_or(get_text(l, "name"@), Seq::empty()),
            text_or(get_text(l, "address"@), Seq::empty()),
        ),
        None => ("0"@, "0"@, Seq::<char>::empty(), Seq::<char>::empty()),
    };
    let first = seq!["📍 "@ + lat + ", "@ + lng];
    let with_name = if name.len() > 0 {
        first.push(name)
    } else {
        first
    };
    if address.len() > 0 {
        with_name.push(address)
    } else {
        with_name
    }
}

/// Whether a message type carries media.
pub open spec fn is_media_type(t: Seq<char>) -> bool {
    t == "image"@ || t == "document"@ || t == "audio"@ || t == "video"@ || t == "sticker"@
}

/// The text of a message of type `t`; `None` for unsupported types.
pub open spec fn message_text(msg: Json, t: Seq<char>) -> Option<Seq<char>> {
    if t == "text"@ {
        Some(text_or(text_at2(msg, "text"@, "body"@), Seq::empty()))
    } else if is_media_type(t) {
        let caption = text_or(text_at2(msg, t, "caption"@), Seq::empty());
        let id = text_or(text_at2(msg, t, "id"@), Seq::empty());
        let head = "["@ + t + ": "@ + id + "]"@;
        Some(
            if caption.len() == 0 {
                head
            } else {
                head + "\n"@ + caption
            },
        )
    } else if t == "location"@ {
        Some(joined_with(location_parts(json_get(msg, "location"@)), " — "@))
    } else if t == "contacts"@ {
        Some(
            match json_get(msg, "contacts"@) {
                Some(Json::Array(cs)) => "👤 Contacts: "@ + joined_with(contact_names(cs@), ", "@),
                _ => "[contacts]"@,
            },
        )
    } else if t == "reaction"@ {
        Some("[reaction: "@ + text_or(text_at2(msg, "reaction"@, "emoji"@), "👍"@) + "]"@)
    } else {
        None
    }
}

/// What an inbound message carries: its id, sender and text; `None` when
/// the type is unsupported or any of them is empty.
pub open spec fn message_fields(msg: Json) -> Option<(Seq<char>, Seq<char>, Seq<char>)> {
    let id = text_or(get_text(msg, "id"@), Seq::empty());
    let from = text_or(get_text(msg, "from"@), Seq::empty());
    match message_text(msg, text_or(get_text(msg, "type"@), "unknown"@)) {
        Some(t) => if t.len() == 0 || id.len() == 0 || from.len() == 0 {
            None
        } else {
            Some((id, from, t))
        },
        None => None,
    }
}

fn text_or_of(v: &Json, key: &str, default: &str) -> (r: String)
    ensures
        r@ == text_or(get_text(*v, key@), default@),
{
    match v.get_str(key) {
        Some(t) => clone_string(t),
        None => String::from_str(default),
    }
}

fn text_at2_or(v: &Json, a: &str, b: &str, default: &str) -> (r: String)
    ensures
        r@ == text_or(text_at2(*v, a@, b@), default@),
{
    match text_at2_of(v, a, b) {
        Some(t) => clone_string(t),
        None => String::from_str(default),
    }
}

fn coordinate_text_of(v: Option<&Json>) -> (r: String)
    ensures
        r@ == coordinate_text(crate::json::deref_json(v)),
{
    match v {
        Some(Json::Int(n)) => signed_decimal_string(*n),
        Some(Json::UInt(n)) => decimal_string(*n),
        Some(Json::Float(s)) => clone_string(s),
        _ => String::from_str("0"),
    }
}

fn push_with_sep(out: &mut String, started: &mut bool, sep: &str, part: &str)
    ensures
        *final(started),
        final(out)@ == if !*old(started) {
            part@
        } else {
            old(out)@ + sep@ + part@
        },
{
    if *started {
        out.append(sep);
    } else {
        *out = String::new();
    }
    out.append(part);
    *started = true;
}

proof fn lemma_joined_with_push(ts: Seq<Seq<char>>, p: Seq<char>, sep: Seq<char>)
    ensures
        joined_with(ts.push(p), sep) == if ts.len() == 0 {
            p
        } else {
            joined_with(ts, sep) + sep + p
        },
{
    assert(ts.push(p).drop_last() =~= ts);
}

fn location_text(loc: Option<&Json>) -> (r: String)
    ensures
        r@ == joined_with(location_parts(crate::json::deref_json(loc)), " — "@),
{
    let (lat, lng, name, address) = match loc {
        Some(l) => (
            coordinate_text_of(l.get("latitude")),
            coordinate_text_of(l.get("longitude")),
            text_or_of(l, "name", ""),
            text_or_of(l, "address", ""),
        ),
        None => (String::from_str("0"), String::from_str("0"), String::new(), String::new()),
    };
    proof {
        reveal_strlit("");
    }
    let mut first = String::from_str("📍 ");
    first.append(lat.as_str());
    first.append(", ");
    first.append(lng.as_str());
    let ghost mut parts: Seq<Seq<char>> = Seq::empty();
    let mut out = String::new();
    let mut started = false;
    proof {
        lemma_joined_with_push(parts, first@, " — "@);
        parts = parts.push(first@);
    }
    push_with_sep(&mut out, &mut started, " — ", first.as_str());
    if name.as_str().unicode_len() > 0 {
        proof {
            lemma_joined_with_push(parts, name@, " — "@);
            parts = parts.push(name@);
        }
        push_with_sep(&mut out, &mut started, " — ", name.as_str());
    }
    if address.as_str().unicode_len() > 0 {
        proof {
            lemma_joined_with_push(parts, address@, " — "@);
            parts = parts.push(address@);
        }
        push_with_sep(&mut out, &mut started, " — ", address.as_str());
    }
    assert(parts =~= location_parts(crate::json::deref_json(loc)));
    out
}

fn contacts_text(cs: &Vec<Json>) -> (r: String)
    ensures
        r@ == "👤 Contacts: "@ + joined_with(contact_names(cs@), ", "@),
{
    let mut names = String::new();
    let mut started = false;
    let mut i: usize = 0;
    assert(cs@.subrange(0, 0) =~= Seq::<Json>::empty());
    proof {
        reveal_strlit("");
    }
    while i < cs.len()
        invariant
            i <= cs@.len(),
            started == (contact_names(cs@.subrange(0, i as int)).len() > 0),
            names@ == joined_with(contact_names(cs@.subrange(0, i as int)), ", "@),
        decreases cs@.len() - i,
    {
        let ghost before = contact_names(cs@.subrange(0, i as int));
        assert(cs@.subrange(0, i + 1).drop_last() =~= cs@.subrange(0, i as int));
        match text_at2_of(&cs[i], "name", "formatted_name") {
            Some(n) => {
                proof {
                    lemma_joined_with_push(before, n@, ", "@);
                }
                push_with_sep(&mut names, &mut started, ", ", n.as_str());
            },
            None => {},
        }
        i += 1;
    }
    assert(cs@.subrange(0, cs@.len() as int) =~= cs@);
    let mut r = String::from_str("👤 Contacts: ");
    r.append(names.as_str());
    r
}

fn message_text_of(msg: &Json, t: &str) -> (r: Option<String>)
    ensures
        crate::persistence::rows::opt_text(r) == message_text(*msg, t@),
{
    proof {
        reveal_strlit("");
    }
    if str_eq(t, "text") {
        Some(text_at2_or(msg, "text", "body", ""))
    } else if str_eq(t, "image") || str_eq(t, "document") || str_eq(t, "audio") || str_eq(t, "video") || str_eq(
        t,
        "sticker",
    ) {
        let caption = text_at2_or(msg, t, "caption", "");
        let id = text_at2_or(msg, t, "id", "");
        let mut r = String::from_str("[");
        r.append(t);
        r.append(": ");
        r.append(id.as_str());
        r.append("]");
        proof {
            reveal_strlit("");
        }
        if caption.as_str().unicode_len() > 0 {
            r.append("\n");
            r.append(caption.as_str());
        }
        Some(r)
    } else if str_eq(t, "location") {
        Some(location_text(msg.get("location")))
    } else if str_eq(t, "contacts") {
        match msg.get("contacts") {
            Some(c) => match c.as_array() {
                Some(cs) => Some(contacts_text(cs)),
                None => Some(String::from_str("[contacts]")),
            },
            None => Some(String::from_str("[contacts]")),
        }
    } else if str_eq(t, "reaction") {
        let mut r = String::from_str("[reaction: ");
        r.append(text_at2_or(msg, "reaction", "emoji", "👍").as_str());
        r.append("]");
        Some(r)
    } else {
        None
    }
}

/// Reads one entry of a webhook's `messages` array. A DM: the chat is the
/// sender.
pub fn parse_message(msg: &Json) -> (r: Option<InboundMessage>)
    ensures
        match message_fields(*msg) {
            None => r is None,
            Some(f) => r matches Some(m) && m.message_id@ == f.0 && m.sender_id@ == f.1 && m.chat_id@ == f.1
                && m.text@ == f.2 && !m.is_group && m.media_urls@.len() == 0 && m.media_attachments@.len() == 0
                && m.req_id is None,
        },
{
    let message_id = text_or_of(msg, "id", "");
    let from = text_or_of(msg, "from", "");
    let t = text_or_of(msg, "type", "unknown");
    proof {
        reveal_strlit("");
    }
    let text = match message_text_of(msg, t.as_str()) {
        Some(text) => text,
        None => return None,
    };
    if text.as_str().unicode_len() == 0 || message_id.as_str().unicode_len() == 0 || from.as_str().unicode_len()
        == 0 {
        return None;
    }
    let chat_id = clone_string(&from);
    Some(
        InboundMessage {
            message_id,
            sender_id: from,
            chat_id,
            text,
            is_group: false,
            media_urls: Vec::new(),
            media_attachments: Vec::new(),
            req_id: None,
        },
    )
}

/// Whether a DM from `sender` passes the DM policy.
pub open spec fn dm_allowed(policy: DmPolicy, allow_from: Seq<String>, sender: Seq<char>) -> bool {
    match policy {
        DmPolicy::Disabled => false,
        DmPolicy::Allowlist => exists|i: int| 0 <= i < allow_from.len() && #[trigger] allow_from[i]@ == sender,
        DmPolicy::Open => true,
    }
}

/// Whether a DM should be processed under the DM policy.
pub fn should_process_dm(policy: DmPolicy, allow_from: &Vec<String>, sender: &str) -> (r: bool)
    ensures
        r == dm_allowed(policy, allow_from@, sender@),
{
    match policy {
        DmPolicy::Disabled => false,
        DmPolicy::Allowlist => list_contains(allow_from, sender),
        DmPolicy::Open => true,
    }
}


/// The messages of a change's `value`; none when it reports statuses.
pub open spec fn value_messages(v: Json) -> Seq<Json> {
    if json_get(v, "statuses"@) is Some {
        Seq::empty()
    } else {
        match json_get(v, "messages"@) {
            Some(Json::Array(ms)) => ms@,
            _ => Seq::empty(),
        }
    }
}

/// The messages of some changes, in order.
pub open spec fn changes_messages(cs: Seq<Json>) -> Seq<Json>
    decreases cs.len(),
{
    if cs.len() == 0 {
        Seq::empty()
    } else {
        changes_messages(cs.drop_last()) + match json_get(cs.last(), "value"@) {
            Some(v) => value_messages(v),
            None => Seq::empty(),
        }
    }
}

/// The messages of some entries, in order.
pub open spec fn entries_messages(es: Seq<Json>) -> Seq<Json>
    decreases es.len(),
{
    if es.len() == 0 {
        Seq::empty()
    } else {
        entries_messages(es.drop_last()) + match json_get(es.last(), "changes"@) {
            Some(Json::Array(cs)) => changes_messages(cs@),
            _ => Seq::empty(),
        }
    }
}

/// The messages a webhook payload delivers: `entry[].changes[].value
/// .messages[]`, in order.
pub open spec fn payload_messages(p: Json) -> Seq<Json> {
    match json_get(p, "entry"@) {
        Some(Json::Array(es)) => entries_messages(es@),
        _ => Seq::empty(),
    }
}

/// The values a list of references points to.
pub open spec fn derefs(v: Seq<&Json>) -> Seq<Json> {
    v.map_values(|x: &Json| *x)
}

fn push_all<'a>(out: &mut Vec<&'a Json>, ms: &'a Vec<Json>)
    ensures
        derefs(final(out)@) == derefs(old(out)@) + ms@,
{
    let ghost start = derefs(out@);
    let mut k: usize = 0;
    while k < ms.len()
        invariant
            k <= ms@.len(),
            derefs(out@) == start + ms@.subrange(0, k as int),
        decreases ms@.len() - k,
    {
        let ghost before = out@;
        out.push(&ms[k]);
        assert(derefs(out@) =~= derefs(before).push(ms@[k as int]));
        assert(ms@.subrange(0, k + 1) =~= ms@.subrange(0, k as int).push(ms@[k as int]));
        k += 1;
    }
    assert(ms@.subrange(0, ms@.len() as int) =~= ms@);
}

/// The messages a webhook payload delivers, in order.
pub fn payload_message_list(payload: &Json) -> (r: Vec<&Json>)
    ensures
        derefs(r@) == payload_messages(*payload),
{
    let mut out: Vec<&Json> = Vec::new();
    assert(derefs(out@) =~= Seq::<Json>::empty());
    let es = match payload.get("entry") {
        Some(e) => match e.as_array() {
            Some(es) => es,
            None => return out,
        },
        None => return out,
    };
    let mut i: usize = 0;
    assert(es@.subrange(0, 0) =~= Seq::<Json>::empty());
    while i < es.len()
        invariant
            i <= es@.len(),
            derefs(out@) == entries_messages(es@.subrange(0, i as int)),
        decreases es@.len() - i,
    {
        assert(es@.subrange(0, i + 1).drop_last() =~= es@.subrange(0, i as int));
        let entry = &es[i];
        match entry.get("changes") {
            Some(c) => match c.as_array() {
                Some(cs) => {
                    let ghost start = derefs(out@);
                    let mut j: usize = 0;
                    assert(cs@.subrange(0, 0) =~= Seq::<Json>::empty());
                    assert(start + changes_messages(cs@.subrange(0, 0)) =~= start);
                    while j < cs.len()
                        invariant
                            j <= cs@.len(),
                            derefs(out@) == start + changes_messages(cs@.subrange(0, j as int)),
                        decreases cs@.len() - j,
                    {
                        assert(cs@.subrange(0, j + 1).drop_last() =~= cs@.subrange(0, j as int));
                        let ghost mid = derefs(out@);
                        match cs[j].get("value") {
                            Some(v) => {
                                if v.get("statuses").is_none() {
                                    match v.get("messages") {
                                        Some(m) => match m.as_array() {
                                            Some(ms) => push_all(&mut out, ms),
                                            None => {},
                                        },
                                        None => {},
                                    }
                                }
                                assert(derefs(out@) =~= mid + value_messages(*v));
                            },
                            None => {
                                assert(derefs(out@) =~= mid + Seq::<Json>::empty());
                            },
                        }
                        j += 1;
                    }
                    assert(cs@.subrange(0, cs@.len() as int) =~= cs@);
                },
                None => {
                    assert(derefs(out@) =~= derefs(out@) + Seq::<Json>::empty());
                },
            },
            None => {
                assert(derefs(out@) =~= derefs(out@) + Seq::<Json>::empty());
            },
        }
        i += 1;
    }
    assert(es@.subrange(0, es@.len() as int) =~= es@);
    out
}

/// Why a webhook POST was turned away.
#[derive(Debug, Clone, Copy, PartialEq, Eq, Structural)]
pub enum WebhookError {
    /// The signature does not match the body.
    SignatureMismatch,
    /// An app secret is configured but no signature came.
    MissingSignature,
    /// The body is not JSON.
    InvalidJson,
}

impl WebhookError {
    /// The HTTP status of the reply.
    pub open spec fn status_code(self) -> u16 {
        match self {
            WebhookError::InvalidJson => 400,
            _ => 401,
        }
    }

    /// The `error` text of the reply.
    pub open spec fn text(self) -> Seq<char> {
        match self {
            WebhookError::SignatureMismatch => "signature mismatch"@,
            WebhookError::MissingSignature => "missing signature header"@,
            WebhookError::InvalidJson => "invalid json"@,
        }
    }

    /// The HTTP status of the reply.
    pub fn status(&self) -> (r: u16)
        ensures
            r == self.status_code(),
    {
        match self {
            WebhookError::InvalidJson => 400,
            _ => 401,
        }
    }

    /// The `error` text of the reply.
    pub fn message(&self) -> (r: &'static str)
        ensures
            r@ == self.text(),
    {
        match self {
            WebhookError::SignatureMismatch => "signature mismatch",
            WebhookError::MissingSignature => "missing signature header",
            WebhookError::InvalidJson => "invalid json",
        }
    }
}

/// The reply to the subscription handshake (GET): `200` with the challenge
/// when the mode is `subscribe` and the token matches.
pub open spec fn handshake_reply(
    mode: Option<Seq<char>>,
    token: Option<Seq<char>>,
    challenge: Option<Seq<char>>,
    expected: Seq<char>,
) -> (u16, Seq<char>) {
    if mode != Some("subscribe"@) {
        (400, "Missing hub.mode=subscribe"@)
    } else if token != Some(expected) {
        (403, "Verify token mismatch"@)
    } else {
        match challenge {
            Some(c) => (200, c),
            None => (400, "Missing hub.challenge"@),
        }
    }
}

/// The webhook's state: secrets, DM policy and the message ids seen.
pub struct WhatsAppWebhook {
    pub app_secret: String,
    pub webhook_verify_token: String,
    pub dm_policy: DmPolicy,
    pub allow_from: Vec<String>,
    /// Message ids seen, for five minutes.
    pub seen: TtlCache,
}

impl WhatsAppWebhook {
    /// The webhook state for a configuration.
    pub fn new(config: &WhatsAppConfig) -> (r: WhatsAppWebhook)
        ensures
            r.app_secret@ == config.app_secret@,
            r.webhook_verify_token@ == config.webhook_verify_token@,
            r.dm_policy == config.dm_policy,
            string_views(r.allow_from@) == string_views(config.allow_from@),
            r.seen.times() == Map::<Seq<char>, u64>::empty(),
            r.seen.ttl() == DEDUP_TTL_MS,
            r.seen.capacity() == DEDUP_MAX_SIZE,
    {
        let allow = clone_strings(&config.allow_from);
        assert(string_views(allow@) =~= string_views(config.allow_from@));
        WhatsAppWebhook {
            app_secret: clone_string(&config.app_secret),
            webhook_verify_token: clone_string(&config.webhook_verify_token),
            dm_policy: config.dm_policy,
            allow_from: allow,
            seen: TtlCache::new(DEDUP_TTL_MS, DEDUP_MAX_SIZE),
        }
    }

    /// Answers the subscription handshake with a status and a body.
    pub fn verify_subscription(&self, mode: Option<&str>, token: Option<&str>, challenge: Option<String>) -> (r: (
        u16,
        String,
    ))
        ensures
            (r.0, r.1@) == handshake_reply(
                match mode {
                    Some(m) => Some(m@),
                    None => None,
                },
                match token {
                    Some(t) => Some(t@),
                    None => None,
                },
                crate::text::opt_view(challenge),
                self.webhook_verify_token@,
            ),
    {
        proof {
            reveal_strlit("subscribe");
        }
        let subscribed = match mode {
            Some(m) => str_eq(m, "subscribe"),
            None => false,
        };
        if !subscribed {
            return (400, String::from_str("Missing hub.mode=subscribe"));
        }
        let token_ok = match token {
            Some(t) => str_eq(t, self.webhook_verify_token.as_str()),
            None => false,
        };
        if !token_ok {
            return (403, String::from_str("Verify token mismatch"));
        }
        match challenge {
            Some(c) => (200, c),
            None => (400, String::from_str("Missing hub.challenge")),
        }
    }

    /// Checks the signature of a POST: a signature present must be valid;
    /// none is accepted only when no app secret is configured.
    pub fn check_signature(&self, signature: Option<&str>, body: &[u8]) -> (r: Result<(), WebhookError>)
        ensures
            match signature {
                Some(s) => if hub_signature_valid(self.app_secret@, body@, s@) {
                    r is Ok
                } else {
                    r == Err::<(), WebhookError>(WebhookError::SignatureMismatch)
                },
                None => if self.app_secret@.len() > 0 {
                    r == Err::<(), WebhookError>(WebhookError::MissingSignature)
                } else {
                    r is Ok
                },
            },
    {
        match signature {
            Some(s) => if verify_signature(self.app_secret.as_str(), body, s) {
                Ok(())
            } else {
                Err(WebhookError::SignatureMismatch)
            },
            None => if self.app_secret.as_str().unicode_len() > 0 {
                Err(WebhookError::MissingSignature)
            } else {
                Ok(())
            },
        }
    }

    /// Decides on one delivered message at `now` (ms): it is passed on
    /// unless it does not read as a message, its id was seen within five
    /// minutes, or the DM policy refuses its sender. A new id is recorded,
    /// and once more than the capacity are kept only the newest half stay.
    pub fn accept_message(&mut self, msg: &Json, now: u64) -> (r: Option<InboundMessage>)
        ensures
            final(self).app_secret == old(self).app_secret,
            final(self).webhook_verify_token == old(self).webhook_verify_token,
            final(self).dm_policy == old(self).dm_policy,
            final(self).allow_from == old(self).allow_from,
            final(self).seen.ttl() == old(self).seen.ttl(),
            final(self).seen.capacity() == old(self).seen.capacity(),
            match message_fields(*msg) {
                None => r is None && final(self).seen.times() == old(self).seen.times(),
                Some(f) => if old(self).seen.fresh(f.0, now) {
                    r is None && final(self).seen.times() == old(self).seen.times()
                } else {
                    &&& old(self).seen.times().insert(f.0, now).len() <= DEDUP_MAX_SIZE ==> final(self).seen.times()
                        == old(self).seen.times().insert(f.0, now)
                    &&& old(self).seen.times().insert(f.0, now).len() > DEDUP_MAX_SIZE ==> final(self).seen.times().len()
                        == DEDUP_MAX_SIZE / 2
                    &&& forall|k: Seq<char>| #[trigger]
                        final(self).seen.times().contains_key(k) ==> old(self).seen.times().insert(f.0, now).contains_key(k)
                            && final(self).seen.times()[k] == old(self).seen.times().insert(f.0, now)[k]
                    &&& forall|k: Seq<char>, j: Seq<char>|
                        old(self).seen.times().insert(f.0, now).contains_key(k) && !final(self).seen.times().contains_key(k)
                            && #[trigger] final(self).seen.times().contains_key(j)
                            ==> #[trigger] old(self).seen.times().insert(f.0, now)[k] <= final(self).seen.times()[j]
                    &&& if dm_allowed(old(self).dm_policy, old(self).allow_from@, f.1) {
                        r matches Some(m) && m.message_id@ == f.0 && m.sender_id@ == f.1 && m.chat_id@ == f.1
                            && m.text@ == f.2 && !m.is_group && m.media_urls@.len() == 0
                            && m.media_attachments@.len() == 0 && m.req_id is None
                    } else {
                        r is None
                    }
                },
            },
    {
        let m = match parse_message(msg) {
            Some(m) => m,
            None => return None,
        };
        if self.seen.is_fresh(m.message_id.as_str(), now) {
            return None;
        }
        self.seen.record(m.message_id.as_str(), now);
        if self.seen.len() > DEDUP_MAX_SIZE {
            self.seen.evict_oldest(DEDUP_MAX_SIZE / 2);
        }
        if !m.is_group && !should_process_dm(self.dm_policy, &self.allow_from, m.sender_id.as_str()) {
            return None;
        }
        Some(m)
    }
}

/// The result of a send from the API reply: an `error` object fails with
/// its code (`-1` when missing) and message; otherwise the id of the first
/// sent message.
pub fn parse_send_result(resp: &Json) -> (r: SendResult)
    ensures
        match json_get(*resp, "error"@) {
            Some(e) => {
                let code = match json_get(e, "code"@) {
                    Some(c) => match json_i64(c) {
                        Some(n) => n,
                        None => -1i64,
                    },
                    None => -1i64,
                };
                !r.success && r.message_id is None && (r.error matches Some(x) && x@ == "WhatsApp API error: code="@
                    + signed_decimal(code as int) + ", msg="@ + text_or(get_text(e, "message"@), "unknown"@))
            },
            None => r.success && r.error is None && crate::persistence::rows::opt_text(r.message_id) == match json_get(
                *resp,
                "messages"@,
            ) {
                Some(Json::Array(ms)) => if ms@.len() > 0 {
                    get_text(ms@[0], "id"@)
                } else {
                    None
                },
                _ => None,
            },
        },
{
    match resp.get("error") {
        Some(e) => {
            let code = match e.get("code") {
                Some(c) => match c.as_i64() {
                    Some(n) => n,
                    None => -1,
                },
                None => -1,
            };
            let mut text = String::from_str("WhatsApp API error: code=");
            text.append(signed_decimal_string(code).as_str());
            text.append(", msg=");
            text.append(text_or_of(e, "message", "unknown").as_str());
            SendResult::err(text.as_str())
        },
        None => {
            let id = match resp.get("messages") {
                Some(m) => match m.as_array() {
                    Some(ms) => if ms.len() > 0 {
                        match ms[0].get_str("id") {
                            Some(t) => Some(clone_string(t)),
                            None => None,
                        }
                    } else {
                        None
                    },
                    None => None,
                },
                None => None,
            };
            SendResult::ok(id)
        },
    }
}


/// Whether an object entry is `key: "text"`.
pub open spec fn text_field(f: (String, Json), key: Seq<char>, text: Seq<char>) -> bool {
    f.0@ == key && json_text(f.1) == Some(text)
}

/// Whether `b` is the body of a text message to `to`, replying to
/// `reply_to` when given.
pub open spec fn is_text_body(b: Json, to: Seq<char>, text: Seq<char>, reply_to: Option<Seq<char>>) -> bool {
    match b {
        Json::Object(fs) => {
            &&& fs@.len() == if reply_to is Some {
                6int
            } else {
                5int
            }
            &&& text_field(fs@[0], "messaging_product"@, "whatsapp"@)
            &&& text_field(fs@[1], "recipient_type"@, "individual"@)
            &&& text_field(fs@[2], "to"@, to)
            &&& text_field(fs@[3], "type"@, "text"@)
            &&& fs@[4].0@ == "text"@
            &&& fs@[4].1 matches Json::Object(t) && t@.len() == 2 && t@[0].0@ == "preview_url"@ && t@[0].1
                == Json::Bool(false) && text_field(t@[1], "body"@, text)
            &&& reply_to matches Some(id) ==> fs@[5].0@ == "context"@ && (fs@[5].1 matches Json::Object(c)
                && c@.len() == 1 && text_field(c@[0], "message_id"@, id))
        },
        _ => false,
    }
}

fn text_entry(key: &str, text: &str) -> (r: (String, Json))
    ensures
        text_field(r, key@, text@),
{
    (String::from_str(key), Json::Str(String::from_str(text)))
}

/// The request body that sends `text` to `to`, as a reply when `reply_to`
/// is given.
pub fn send_text_body(to: &str, text: &str, reply_to: Option<&str>) -> (r: Json)
    ensures
        is_text_body(
            r,
            to@,
            text@,
            match reply_to {
                Some(id) => Some(id@),
                None => None,
            },
        ),
{
    let mut fs: Vec<(String, Json)> = Vec::new();
    fs.push(text_entry("messaging_product", "whatsapp"));
    fs.push(text_entry("recipient_type", "individual"));
    fs.push(text_entry("to", to));
    fs.push(text_entry("type", "text"));
    let mut t: Vec<(String, Json)> = Vec::new();
    t.push((String::from_str("preview_url"), Json::Bool(false)));
    t.push(text_entry("body", text));
    fs.push((String::from_str("text"), Json::Object(t)));
    match reply_to {
        Some(id) => {
            let mut c: Vec<(String, Json)> = Vec::new();
            c.push(text_entry("message_id", id));
            fs.push((String::from_str("context"), Json::Object(c)));
        },
        None => {},
    }
    Json::Object(fs)
}


/// A message passed on at `t1` while fewer than the capacity of ids were
/// kept is a repeat, and so dropped, when delivered again at any `t2` up to
/// five minutes later.
pub proof fn lemma_redelivery_dropped(before: WhatsAppWebhook, after: WhatsAppWebhook, msg: Json, t1: u64, t2: u64)
    requires
        message_fields(msg) is Some,
        !before.seen.fresh(message_fields(msg).unwrap().0, t1),
        before.seen.times().insert(message_fields(msg).unwrap().0, t1).len() <= DEDUP_MAX_SIZE,
        after.seen.times() == before.seen.times().insert(message_fields(msg).unwrap().0, t1),
        after.seen.ttl() == DEDUP_TTL_MS,
        t1 <= t2 <= t1 + 300_000,
    ensures
        after.seen.fresh(message_fields(msg).unwrap().0, t2),
{
}


/// A body signed with the app secret is accepted: `sha256=` followed by
/// the lower-case hex HMAC-SHA256 of the body verifies.
pub proof fn lemma_signed_body_accepted(app_secret: Seq<char>, body: Seq<u8>)
    ensures
        hub_signature_valid(
            app_secret,
            body,
            "sha256="@ + hex_lower(hmac_sha256_tag(encode_utf8(app_secret), body)),
        ),
{
    let tag = hmac_sha256_tag(encode_utf8(app_secret), body);
    let header = "sha256="@ + hex_lower(tag);
    reveal_strlit("sha256=");
    assert(header.subrange(0, 7) =~= "sha256="@);
    assert(header.skip(7) =~= hex_lower(tag));
    lemma_hex_round_trip(tag);
}

/// A location message that names an address reads, at its end, " — " and
/// that address; it starts with the pin and the coordinates.
pub proof fn lemma_location_ends_with_address(msg: Json, loc: Json, address: Seq<char>)
    requires
        get_text(msg, "type"@) == Some("location"@),
        json_get(msg, "location"@) == Some(loc),
        get_text(loc, "address"@) == Some(address),
        address.len() > 0,
    ensures
        message_text(msg, "location"@) matches Some(t) && has_suffix(t, " — "@ + address) && has_prefix(t, "📍 "@),
        message_fields(msg) matches Some(f) ==> has_suffix(f.2, " — "@ + address),
{
    reveal_strlit("location");
    reveal_strlit("text");
    reveal_strlit("image");
    reveal_strlit("document");
    reveal_strlit("audio");
    reveal_strlit("video");
    reveal_strlit("sticker");
    assert("location"@ != "text"@ && !is_media_type("location"@)) by {
        assert("location"@[0] != "text"@[0]);
        assert("location"@.len() != "image"@.len() && "location"@[0] != "document"@[0]);
        assert("location"@.len() != "audio"@.len() && "location"@.len() != "video"@.len());
        assert("location"@[0] != "sticker"@[0]);
    }
    assert(text_or(get_text(msg, "type"@), "unknown"@) == "location"@);
    let parts = location_parts(Some(loc));
    let n = parts.len();
    assert(parts.last() == address);
    assert(n >= 2);
    assert(parts.drop_last().len() >= 1);
    let head = joined_with(parts.drop_last(), " — "@);
    let t = joined_with(parts, " — "@);
    assert(t == head + " — "@ + address);
    assert(t.subrange(t.len() - (" — "@ + address).len(), t.len() as int) =~= " — "@ + address);
    lemma_joined_with_first(parts, " — "@);
    reveal_strlit("📍 ");
    assert(parts[0].subrange(0, 2) =~= "📍 "@);
    assert(t.subrange(0, 2) =~= "📍 "@);
    assert(message_text(msg, "location"@) == Some(t));
}

/// A location message reads as the pin and the two coordinates, then its
/// name and its address, each after " — ", each only when it is a
/// non-empty string.
pub proof fn lemma_location_text(msg: Json, loc: Json)
    requires
        get_text(msg, "type"@) == Some("location"@),
        json_get(msg, "location"@) == Some(loc),
    ensures
        message_text(msg, "location"@) == Some(
            "📍 "@ + coordinate_text(json_get(loc, "latitude"@)) + ", "@ + coordinate_text(json_get(loc, "longitude"@))
                + (match get_text(loc, "name"@) {
                Some(n) => if n.len() > 0 {
                    " — "@ + n
                } else {
                    Seq::empty()
                },
                None => Seq::empty(),
            }) + (match get_text(loc, "address"@) {
                Some(a) => if a.len() > 0 {
                    " — "@ + a
                } else {
                    Seq::empty()
                },
                None => Seq::empty(),
            }),
        ),
{
    reveal_strlit("location");
    reveal_strlit("text");
    reveal_strlit("image");
    reveal_strlit("document");
    reveal_strlit("audio");
    reveal_strlit("video");
    reveal_strlit("sticker");
    assert("location"@ != "text"@ && !is_media_type("location"@)) by {
        assert("location"@[0] != "text"@[0]);
        assert("location"@.len() != "image"@.len() && "location"@[0] != "document"@[0]);
        assert("location"@.len() != "audio"@.len() && "location"@.len() != "video"@.len());
        assert("location"@[0] != "sticker"@[0]);
    }
    let parts = location_parts(Some(loc));
    let first = "📍 "@ + coordinate_text(json_get(loc, "latitude"@)) + ", "@ + coordinate_text(
        json_get(loc, "longitude"@),
    );
    let name = text_or(get_text(loc, "name"@), Seq::empty());
    let address = text_or(get_text(loc, "address"@), Seq::empty());
    let with_name = if name.len() > 0 {
        seq![first].push(name)
    } else {
        seq![first]
    };
    let jn = if name.len() > 0 {
        first + " — "@ + name
    } else {
        first
    };
    assert(joined_with(seq![first], " — "@) == first);
    if name.len() > 0 {
        assert(seq![first].push(name).drop_last() =~= seq![first]);
    }
    assert(joined_with(with_name, " — "@) == jn);
    if address.len() > 0 {
        assert(with_name.push(address).drop_last() =~= with_name);
        assert(joined_with(parts, " — "@) == jn + " — "@ + address);
        assert(jn + " — "@ + address =~= jn + (" — "@ + address));
    } else {
        assert(jn =~= jn + Seq::<char>::empty());
    }
    if name.len() > 0 {
        assert(first + " — "@ + name =~= first + (" — "@ + name));
    } else {
        assert(first =~= first + Seq::<char>::empty());
    }
}

/// Text joined with a separator starts with its first part.
proof fn lemma_joined_with_first(ts: Seq<Seq<char>>, sep: Seq<char>)
    requires
        ts.len() > 0,
    ensures
        joined_with(ts, sep).len() >= ts[0].len(),
        joined_with(ts, sep).subrange(0, ts[0].len() as int) == ts[0],
    decreases ts.len(),
{
    if ts.len() > 1 {
        lemma_joined_with_first(ts.drop_last(), sep);
        let j = joined_with(ts.drop_last(), sep);
        assert((j + sep + ts.last()).subrange(0, ts[0].len() as int) =~= j.subrange(0, ts[0].len() as int));
    }
}

} // verus!
