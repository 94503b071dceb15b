//! Feishu/Lark: webhook signature checks and payload decryption, reading
//! message events and rich-text posts, building markdown posts, and the
//! decisions of the webhook handler.
use vstd::prelude::*;
use vstd::string::StringSliceAdditionalSpecFns;
use vstd::utf8::encode_utf8;
use crate::crypto::{
    hex_lower, lemma_hex_round_trip, aes256_cbc_decrypt, aes256_cbc_pkcs7_decrypted, base64_decode, base64_standard_decoded, ct_eq,
    hex_decode, hex_decoded, sha256, sha256_digest, utf8_decode,
};
use crate::gateway::config::{FeishuConfig, GroupPolicy};
use crate::gateway::dedup::TtlCache;
use crate::gateway::platforms::wecom::{joined, lemma_joined_push, push_joined};
use crate::gateway::platforms::weixin_auth::{signed_decimal, signed_decimal_string, text_either, text_or};
use crate::gateway::traits::{InboundMessage, SendResult};
use crate::json::{get_text, json_get, json_i64, json_text, Json};
use crate::persistence::rows::opt_text;
use crate::json::string_views;
use crate::text::{
    chars_of, clone_opt, clone_string, clone_strings, contains_seq, opt_view, has_prefix, lines, lines_of, str_eq, string_from_chars, trim,
    trim_chars,
};

verus! {

/// Whether a sender is the bot itself (by its open id or user id).
pub open spec fn self_sender(sender: Seq<char>, open_id: Seq<char>, user_id: Seq<char>) -> bool {
    (open_id.len() > 0 && sender == open_id) || (user_id.len() > 0 && sender == user_id)
}

/// Whether a sender is the bot itself (self-echo defence).
pub fn is_self_sender(sender_id: &str, open_id: &str, user_id: &str) -> (r: bool)
    ensures
        r == self_sender(sender_id@, open_id@, user_id@),
{
    if open_id.unicode_len() > 0 && str_eq(sender_id, open_id) {
        return true;
    }
    if user_id.unicode_len() > 0 && str_eq(sender_id, user_id) {
        return true;
    }
    false
}

/// The bytes a Feishu signature signs: timestamp, nonce, key and body.
pub open spec fn lark_sign_base(key: Seq<char>, timestamp: Seq<char>, nonce: Seq<char>, body: Seq<u8>) -> Seq<u8> {
    encode_utf8(timestamp) + encode_utf8(nonce) + encode_utf8(key) + body
}

/// Whether `X-Lark-Signature` is the hex SHA-256 of the signed bytes.
pub open spec fn lark_signature_valid(
    key: Seq<char>,
    timestamp: Seq<char>,
    nonce: Seq<char>,
    body: Seq<u8>,
    sig: Seq<char>,
) -> bool {
    match hex_decoded(encode_utf8(sig)) {
        Some(b) => b == sha256_digest(lark_sign_base(key, timestamp, nonce, body)),
        None => false,
    }
}

/// Verifies the webhook signature: plain SHA-256 (not HMAC) of timestamp,
/// nonce, encrypt key and raw body, compared in constant time with the hex
/// signature.
pub fn verify_lark_signature(encrypt_key: &str, timestamp: &str, nonce: &str, body: &[u8], x_lark_signature: &str) -> (r:
    bool)
    ensures
        r == lark_signature_valid(encrypt_key@, timestamp@, nonce@, body@, x_lark_signature@),
{
    let mut data = timestamp.as_bytes_vec();
    let mut n = nonce.as_bytes_vec();
    data.append(&mut n);
    let mut k = encrypt_key.as_bytes_vec();
    data.append(&mut k);
    let mut b = crate::text::bytes_to_vec(body);
    data.append(&mut b);
    let digest = sha256(data.as_slice());
    match hex_decode(x_lark_signature) {
        Some(sig) => {
            if sig.len() != digest.len() {
                return false;
            }
            ct_eq(digest.as_slice(), sig.as_slice())
        },
        None => false,
    }
}

/// Why an encrypted event payload could not be opened.
#[derive(Debug, Clone, Copy, PartialEq, Eq, Structural)]
pub enum DecryptError {
    /// The payload is not base64.
    Base64,
    /// Fewer than 16 bytes: no room for the IV.
    TooShort,
    /// Decryption or unpadding failed.
    Cipher,
    /// The plaintext is not UTF-8.
    NotUtf8,
}

/// What decrypting an event payload gives: AES-256-CBC under the SHA-256 of
/// the encrypt key, the IV being the first 16 bytes of the base64 payload.
pub open spec fn decrypted_payload(key: Seq<char>, data: Seq<char>) -> Result<Seq<char>, DecryptError> {
    match base64_standard_decoded(encode_utf8(data)) {
        None => Err(DecryptError::Base64),
        Some(bytes) => if bytes.len() < 16 {
            Err(DecryptError::TooShort)
        } else {
            match aes256_cbc_pkcs7_decrypted(
                sha256_digest(encode_utf8(key)),
                bytes.subrange(0, 16),
                bytes.subrange(16, bytes.len() as int),
            ) {
                None => Err(DecryptError::Cipher),
                Some(plain) => if vstd::utf8::valid_utf8(plain) {
                    Ok(vstd::utf8::decode_utf8(plain))
                } else {
                    Err(DecryptError::NotUtf8)
                },
            }
        },
    }
}

/// Decrypts a Feishu event payload (when an encrypt key is configured).
pub fn decrypt_event_payload(encrypt_key: &str, encrypted_data: &str) -> (r: Result<String, DecryptError>)
    ensures
        match r {
            Ok(s) => decrypted_payload(encrypt_key@, encrypted_data@) == Ok::<Seq<char>, DecryptError>(s@),
            Err(e) => decrypted_payload(encrypt_key@, encrypted_data@) == Err::<Seq<char>, DecryptError>(e),
        },
{
    let key_bytes = encrypt_key.as_bytes_vec();
    let key = sha256(key_bytes.as_slice());
    let bytes = match base64_decode(encrypted_data) {
        Some(b) => b,
        None => return Err(DecryptError::Base64),
    };
    if bytes.len() < 16 {
        return Err(DecryptError::TooShort);
    }
    let iv = crate::text::byte_range(&bytes, 0, 16);
    let ct = crate::text::byte_range(&bytes, 16, bytes.len());
    let plain = match aes256_cbc_decrypt(key.as_slice(), iv.as_slice(), ct.as_slice()) {
        Some(p) => p,
        None => return Err(DecryptError::Cipher),
    };
    match utf8_decode(plain) {
        Some(s) => Ok(s),
        None => Err(DecryptError::NotUtf8),
    }
}

/// Whether a group message passes the group policy.
pub open spec fn group_allowed(policy: GroupPolicy, allow: Seq<String>, block: Seq<String>, chat: Seq<char>) -> bool {
    match policy {
        GroupPolicy::Disabled => false,
        GroupPolicy::Allowlist => exists|i: int| 0 <= i < allow.len() && #[trigger] allow[i]@ == chat,
        GroupPolicy::Blacklist => !exists|i: int| 0 <= i < block.len() && #[trigger] block[i]@ == chat,
        GroupPolicy::Open => true,
    }
}

/// Whether a string list holds `s`.
pub fn list_contains(list: &Vec<String>, s: &str) -> (r: bool)
    ensures
        r == exists|i: int| 0 <= i < list@.len() && #[trigger] list@[i]@ == s@,
{
    let mut i: usize = 0;
    while i < list.len()
        invariant
            i <= list@.len(),
            forall|k: int| 0 <= k < i ==> #[trigger] list@[k]@ != s@,
        decreases list@.len() - i,
    {
        if str_eq(list[i].as_str(), s) {
            return true;
        }
        i += 1;
    }
    false
}

/// Whether a group message should be processed under the group policy.
pub fn should_process_group_message(policy: GroupPolicy, allowlist: &Vec<String>, blacklist: &Vec<String>, chat_id: &str) -> (r:
    bool)
    ensures
        r == group_allowed(policy, allowlist@, blacklist@, chat_id@),
{
    match policy {
        GroupPolicy::Disabled => false,
        GroupPolicy::Allowlist => list_contains(allowlist, chat_id),
        GroupPolicy::Blacklist => !list_contains(blacklist, chat_id),
        GroupPolicy::Open => true,
    }
}

/// The result of a message send from the API reply: `code` 0 succeeds with
/// `data.message_id`; other codes fail with the code and `msg`.
pub fn parse_send_result(resp: &Json) -> (r: SendResult)
    ensures
        ({
            let code = match json_get(*resp, "code"@) {
                Some(c) => match json_i64(c) {
                    Some(n) => n,
                    None => -1i64,
                },
                None => -1i64,
            };
            if code != 0 {
                !r.success && r.message_id is None && (r.error matches Some(e) && e@
                    == "Feishu API error: code="@ + signed_decimal(code as int) + ", msg="@ + match get_text(
                    *resp,
                    "msg"@,
                ) {
                    Some(m) => m,
                    None => "unknown"@,
                })
            } else {
                r.success && r.error is None && opt_text(r.message_id) == match json_get(*resp, "data"@) {
                    Some(d) => get_text(d, "message_id"@),
                    None => None,
                }
            }
        }),
{
    let code = match resp.get("code") {
        Some(c) => match c.as_i64() {
            Some(n) => n,
            None => -1,
        },
        None => -1,
    };
    if code != 0 {
        let mut e = String::from_str("Feishu API error: code=");
        e.append(signed_decimal_string(code).as_str());
        e.append(", msg=");
        match resp.get_str("msg") {
            Some(m) => e.append(m.as_str()),
            None => e.append("unknown"),
        }
        return SendResult::err(e.as_str());
    }
    let message_id = match resp.get("data") {
        Some(d) => match d.get_str("message_id") {
            Some(m) => Some(clone_string(m)),
            None => None,
        },
        None => None,
    };
    SendResult::ok(message_id)
}


/// `s` without the markdown marks `*`, `_` and backquote.
pub open spec fn without_marks(s: Seq<char>) -> Seq<char>
    decreases s.len(),
{
    if s.len() == 0 {
        Seq::empty()
    } else {
        let rest = without_marks(s.drop_last());
        let c = s.last();
        if c == '*' || c == '_' || c == '`' {
            rest
        } else {
            rest.push(c)
        }
    }
}

/// `s` with each `~~`, read left to right, removed.
pub open spec fn without_tildes(s: Seq<char>) -> Seq<char>
    decreases s.len(),
{
    if s.len() == 0 {
        Seq::empty()
    } else if s.len() >= 2 && s[0] == '~' && s[1] == '~' {
        without_tildes(s.skip(2))
    } else {
        seq![s[0]] + without_tildes(s.skip(1))
    }
}

/// A line with its inline formatting stripped.
pub open spec fn plain_line(l: Seq<char>) -> Seq<char> {
    without_tildes(without_marks(l))
}

fn remove_marks(l: &Vec<char>) -> (r: Vec<char>)
    ensures
        r@ == without_marks(l@),
{
    let mut out: Vec<char> = Vec::new();
    let mut i: usize = 0;
    while i < l.len()
        invariant
            i <= l@.len(),
            out@ == without_marks(l@.subrange(0, i as int)),
        decreases l@.len() - i,
    {
        assert(l@.subrange(0, i + 1).drop_last() =~= l@.subrange(0, i as int));
        let c = l[i];
        if !(c == '*' || c == '_' || c == '`') {
            out.push(c);
        }
        i += 1;
    }
    assert(l@.subrange(0, l@.len() as int) =~= l@);
    out
}

fn remove_tildes(s: &Vec<char>) -> (r: Vec<char>)
    ensures
        r@ == without_tildes(s@),
{
    let mut out: Vec<char> = Vec::new();
    let mut i: usize = 0;
    assert(s@.skip(0) =~= s@);
    while i < s.len()
        invariant
            i <= s@.len(),
            out@ + without_tildes(s@.skip(i as int)) == without_tildes(s@),
        decreases s@.len() - i,
    {
        let ghost rest = s@.skip(i as int);
        if i + 1 < s.len() && s[i] == '~' && s[i + 1] == '~' {
            assert(rest.skip(2) =~= s@.skip(i + 2));
            i += 2;
        } else {
            assert(rest.skip(1) =~= s@.skip(i + 1));
            assert(rest[0] == s@[i as int]);
            let ghost before = out@;
            out.push(s[i]);
            assert(out@ + without_tildes(s@.skip(i + 1)) =~= before + (seq![s@[i as int]]
                + without_tildes(s@.skip(i + 1))));
            i += 1;
        }
    }
    assert(s@.skip(i as int).len() == 0);
    assert(out@ + Seq::<char>::empty() =~= out@);
    out
}

/// Output of the plain-text conversion over some lines, and whether a code
/// block is open after them.
pub open spec fn strip_state(ls: Seq<Seq<char>>) -> (Seq<char>, bool)
    decreases ls.len(),
{
    if ls.len() == 0 {
        (Seq::empty(), false)
    } else {
        let (out, code) = strip_state(ls.drop_last());
        let l = ls.last();
        if has_prefix(trim(l), "```"@) {
            (out, !code)
        } else if code {
            (out + l + seq!['\n'], code)
        } else {
            (out + plain_line(l) + seq!['\n'], code)
        }
    }
}

/// The plain-text fallback of a markdown text: fence lines dropped, code
/// kept verbatim, inline marks removed elsewhere, lines joined by newlines.
pub open spec fn stripped_markdown(text: Seq<char>) -> Seq<char> {
    let out = strip_state(lines(text)).0;
    if out.len() > 0 && out.last() == '\n' {
        out.drop_last()
    } else {
        out
    }
}

/// Strips markdown formatting for a safe plain-text fallback.
pub fn strip_markdown(text: &str) -> (r: String)
    ensures
        r@ == stripped_markdown(text@),
{
    let cs = chars_of(text);
    let ls = lines_of(&cs);
    let fence = chars_of("```");
    let mut out: Vec<char> = Vec::new();
    let mut in_code = false;
    let mut i: usize = 0;
    while i < ls.len()
        invariant
            ls.deep_view() == lines(text@),
            fence@ == "```"@,
            i <= ls@.len(),
            (out@, in_code) == strip_state(ls.deep_view().subrange(0, i as int)),
        decreases ls@.len() - i,
    {
        let ghost sub = ls.deep_view().subrange(0, i + 1);
        assert(sub.drop_last() =~= ls.deep_view().subrange(0, i as int));
        assert(sub.last() == ls@[i as int]@);
        let line = &ls[i];
        let t = trim_chars(line);
        if crate::text::starts_with(t.as_slice(), fence.as_slice()) {
            in_code = !in_code;
        } else if in_code {
            let mut j: usize = 0;
            let ghost before = out@;
            while j < line.len()
                invariant
                    j <= line@.len(),
                    out@ == before + line@.subrange(0, j as int),
                decreases line@.len() - j,
            {
                out.push(line[j]);
                j += 1;
            }
            out.push('\n');
            assert(out@ =~= before + line@ + seq!['\n']);
        } else {
            let p = remove_tildes(&remove_marks(line));
            let ghost before = out@;
            let mut j: usize = 0;
            while j < p.len()
                invariant
                    j <= p@.len(),
                    out@ == before + p@.subrange(0, j as int),
                decreases p@.len() - j,
            {
                out.push(p[j]);
                j += 1;
            }
            out.push('\n');
            assert(out@ =~= before + plain_line(line@) + seq!['\n']);
        }
        i += 1;
    }
    assert(ls.deep_view().subrange(0, ls@.len() as int) =~= ls.deep_view());
    if out.len() > 0 && out[out.len() - 1] == '\n' {
        out.pop();
    }
    string_from_chars(out.as_slice())
}


/// The string at `v[key]`, or empty.
pub open spec fn text_or_empty(v: Json, key: Seq<char>) -> Seq<char> {
    match get_text(v, key) {
        Some(t) => t,
        None => Seq::empty(),
    }
}

fn text_or_empty_of(v: &Json, key: &str) -> (r: String)
    ensures
        r@ == text_or_empty(*v, key@),
{
    match v.get_str(key) {
        Some(t) => clone_string(t),
        None => String::new(),
    }
}

/// The text a rich-text element contributes to its line.
pub open spec fn element_text(e: Json) -> Seq<char> {
    let tag = text_or_empty(e, "tag"@);
    if tag == "text"@ {
        text_or_empty(e, "text"@)
    } else if tag == "a"@ {
        let t = text_or_empty(e, "text"@);
        let h = text_or_empty(e, "href"@);
        if h.len() > 0 {
            "["@ + t + "]("@ + h + ")"@
        } else {
            t
        }
    } else if tag == "at"@ {
        "@"@ + match text_either(e, "user_name"@, "user_id"@) {
            Some(n) => n,
            None => "@user"@,
        }
    } else if tag == "img"@ || tag == "image"@ {
        "[image]"@
    } else if tag == "media"@ || tag == "file"@ || tag == "audio"@ || tag == "video"@ {
        "["@ + tag + "]"@
    } else if tag == "emoji"@ || tag == "emotion"@ {
        text_or_empty(e, "emoji"@)
    } else if tag == "br"@ {
        "\n"@
    } else if tag == "hr"@ {
        "\n---\n"@
    } else {
        text_or_empty(e, "text"@)
    }
}

fn element_text_of(e: &Json) -> (r: String)
    ensures
        r@ == element_text(*e),
{
    let tag = text_or_empty_of(e, "tag");
    let t = tag.as_str();
    if str_eq(t, "text") {
        text_or_empty_of(e, "text")
    } else if str_eq(t, "a") {
        let text = text_or_empty_of(e, "text");
        let href = text_or_empty_of(e, "href");
        if href.as_str().unicode_len() > 0 {
            let mut r = String::from_str("[");
            r.append(text.as_str());
            r.append("](");
            r.append(href.as_str());
            r.append(")");
            r
        } else {
            text
        }
    } else if str_eq(t, "at") {
        let mut r = String::from_str("@");
        match crate::gateway::platforms::weixin_auth::get_either(e, "user_name", "user_id") {
            Some(n) => r.append(n.as_str()),
            None => r.append("@user"),
        }
        r
    } else if str_eq(t, "img") || str_eq(t, "image") {
        String::from_str("[image]")
    } else if str_eq(t, "media") || str_eq(t, "file") || str_eq(t, "audio") || str_eq(t, "video") {
        let mut r = String::from_str("[");
        r.append(t);
        r.append("]");
        r
    } else if str_eq(t, "emoji") || str_eq(t, "emotion") {
        text_or_empty_of(e, "emoji")
    } else if str_eq(t, "br") {
        String::from_str("\n")
    } else if str_eq(t, "hr") {
        String::from_str("\n---\n")
    } else {
        text_or_empty_of(e, "text")
    }
}

/// The line a row of elements makes.
pub open spec fn row_text(es: Seq<Json>) -> Seq<char>
    decreases es.len(),
{
    if es.len() == 0 {
        Seq::empty()
    } else {
        row_text(es.drop_last()) + element_text(es.last())
    }
}

/// The non-empty lines of the rows that are arrays.
pub open spec fn post_row_parts(rows: Seq<Json>) -> Seq<Seq<char>>
    decreases rows.len(),
{
    if rows.len() == 0 {
        Seq::empty()
    } else {
        let rest = post_row_parts(rows.drop_last());
        match rows.last() {
            Json::Array(es) => if row_text(es@).len() > 0 {
                rest.push(row_text(es@))
            } else {
                rest
            },
            _ => rest,
        }
    }
}

/// The parts of a post: its non-empty title, then its non-empty lines.
pub open spec fn post_parts(c: Json) -> Seq<Seq<char>> {
    let title = match get_text(c, "title"@) {
        Some(t) => if t.len() > 0 {
            seq![t]
        } else {
            Seq::empty()
        },
        None => Seq::empty(),
    };
    title + match json_get(c, "content"@) {
        Some(Json::Array(rows)) => post_row_parts(rows@),
        _ => Seq::empty(),
    }
}

/// The text of a rich-text post (its parsed content): title and lines,
/// joined by newlines.
pub fn extract_post_text(content: &Json) -> (r: String)
    ensures
        r@ == joined(post_parts(*content)),
{
    let ghost mut parts: Seq<Seq<char>> = Seq::empty();
    let mut out = String::new();
    let mut started = false;
    match content.get_str("title") {
        Some(t) => if t.as_str().unicode_len() > 0 {
            proof {
                lemma_joined_push(parts, t@);
                parts = parts.push(t@);
            }
            push_joined(&mut out, &mut started, clone_string(t));
        },
        None => {},
    }
    let ghost title_parts = parts;
    let rows = match content.get("content") {
        Some(c) => c.as_array(),
        None => None,
    };
    match rows {
        Some(rows) => {
            let mut i: usize = 0;
            assert(rows@.subrange(0, 0) =~= Seq::<Json>::empty());
            while i < rows.len()
                invariant
                    i <= rows@.len(),
                    started == (parts.len() > 0),
                    parts == title_parts + post_row_parts(rows@.subrange(0, i as int)),
                    out@ == joined(parts),
                decreases rows@.len() - i,
            {
                assert(rows@.subrange(0, i + 1).drop_last() =~= rows@.subrange(0, i as int));
                match rows[i].as_array() {
                    Some(es) => {
                        let mut line = String::new();
                        let mut j: usize = 0;
                        while j < es.len()
                            invariant
                                j <= es@.len(),
                                line@ == row_text(es@.subrange(0, j as int)),
                            decreases es@.len() - j,
                        {
                            assert(es@.subrange(0, j + 1).drop_last() =~= es@.subrange(0, j as int));
                            let piece = element_text_of(&es[j]);
                            line.append(piece.as_str());
                            j += 1;
                        }
                        assert(es@.subrange(0, es@.len() as int) =~= es@);
                        if line.as_str().unicode_len() > 0 {
                            proof {
                                lemma_joined_push(parts, line@);
                                parts = parts.push(line@);
                                assert(parts =~= title_parts + post_row_parts(rows@.subrange(0, i + 1)));
                            }
                            push_joined(&mut out, &mut started, line);
                        } else {
                            assert(parts =~= title_parts + post_row_parts(rows@.subrange(0, i + 1)));
                        }
                    },
                    None => {
                        assert(parts =~= title_parts + post_row_parts(rows@.subrange(0, i + 1)));
                    },
                }
                i += 1;
            }
            assert(rows@.subrange(0, rows@.len() as int) =~= rows@);
        },
        None => {},
    }
    assert(parts =~= post_parts(*content));
    out
}


/// The first of `v[a]`, `v[b]`, `v[c]` that is present, if it is a string.
pub open spec fn first_text3(v: Json, a: Seq<char>, b: Seq<char>, c: Seq<char>) -> Option<Seq<char>> {
    match json_get(v, a) {
        Some(x) => json_text(x),
        None => text_either(v, b, c),
    }
}

/// The sender of an event: its union id, else user id, else open id.
pub open spec fn event_sender_id(sender: Json) -> Seq<char> {
    match json_get(sender, "sender_id"@) {
        Some(id) => text_or(first_text3(id, "union_id"@, "user_id"@, "open_id"@), Seq::empty()),
        None => Seq::empty(),
    }
}

/// The chat of an event; in a DM without one, the sender's open id (or
/// the sender id).
pub open spec fn event_chat_id(msg: Json, sender: Json) -> Seq<char> {
    let chat = text_or_empty(msg, "chat_id"@);
    if chat.len() > 0 {
        chat
    } else {
        match json_get(sender, "sender_id"@) {
            Some(id) => text_or(get_text(id, "open_id"@), event_sender_id(sender)),
            None => event_sender_id(sender),
        }
    }
}

/// The message type, `text` when absent.
pub open spec fn event_message_type(msg: Json) -> Seq<char> {
    text_or(get_text(msg, "message_type"@), "text"@)
}

/// Whether the chat type is `group` (`p2p` when absent).
pub open spec fn event_is_group(msg: Json) -> bool {
    text_or(get_text(msg, "chat_type"@), "p2p"@) == "group"@
}

/// The text a message of type `msg_type` with parsed `content` carries;
/// `None` for unsupported types.
pub open spec fn message_text(msg_type: Seq<char>, content: Json) -> Option<Seq<char>> {
    if msg_type == "text"@ {
        Some(text_or_empty(content, "text"@))
    } else if msg_type == "post"@ {
        Some(joined(post_parts(content)))
    } else if msg_type == "image"@ {
        let key = text_or_empty(content, "image_key"@);
        Some(
            if key.len() == 0 {
                "[image]"@
            } else {
                "[image: "@ + key + "]"@
            },
        )
    } else if msg_type == "file"@ || msg_type == "audio"@ || msg_type == "media"@ {
        Some("["@ + msg_type + " attachment]"@)
    } else {
        None
    }
}

fn text_or_of(v: &Json, key: &str, default: &str) -> (r: String)
    ensures
        r@ == text_or(get_text(*v, key@), default@),
{
    match v.get_str(key) {
        Some(t) => clone_string(t),
        None => String::from_str(default),
    }
}

fn event_sender_id_of(sender: &Json) -> (r: String)
    ensures
        r@ == event_sender_id(*sender),
{
    match sender.get("sender_id") {
        Some(id) => {
            let t = match id.get("union_id") {
                Some(x) => x.as_str(),
                None => crate::gateway::platforms::weixin_auth::get_either(id, "user_id", "open_id"),
            };
            match t {
                Some(t) => clone_string(t),
                None => String::new(),
            }
        },
        None => String::new(),
    }
}

fn message_text_of(msg_type: &str, content: &Json) -> (r: Option<String>)
    ensures
        opt_text(r) == message_text(msg_type@, *content),
{
    if str_eq(msg_type, "text") {
        Some(text_or_empty_of(content, "text"))
    } else if str_eq(msg_type, "post") {
        Some(extract_post_text(content))
    } else if str_eq(msg_type, "image") {
        let key = text_or_empty_of(content, "image_key");
        if key.as_str().unicode_len() == 0 {
            Some(String::from_str("[image]"))
        } else {
            let mut t = String::from_str("[image: ");
            t.append(key.as_str());
            t.append("]");
            Some(t)
        }
    } else if str_eq(msg_type, "file") || str_eq(msg_type, "audio") || str_eq(msg_type, "media") {
        let mut t = String::from_str("[");
        t.append(msg_type);
        t.append(" attachment]");
        Some(t)
    } else {
        None
    }
}

/// Reads a message event; `content` is the message's `content` string as
/// parsed (`Null` when it does not parse). `None` when the event has no
/// message or sender, the type is unsupported, or the text is empty.
pub fn parse_message_event(event: &Json, content: &Json) -> (r: Option<InboundMessage>)
    ensures
        match (json_get(*event, "message"@), json_get(*event, "sender"@)) {
            (Some(msg), Some(sender)) => match message_text(event_message_type(msg), *content) {
                Some(t) => if t.len() == 0 {
                    r is None
                } else {
                    r matches Some(m) && m.message_id@ == text_or_empty(msg, "message_id"@) && m.sender_id@
                        == event_sender_id(sender) && m.chat_id@ == event_chat_id(msg, sender) && m.text@ == t
                        && m.is_group == event_is_group(msg) && m.media_urls@.len() == 0
                        && m.media_attachments@.len() == 0 && m.req_id is None
                },
                None => r is None,
            },
            _ => r is None,
        },
{
    let msg = match event.get("message") {
        Some(m) => m,
        None => return None,
    };
    let sender = match event.get("sender") {
        Some(s) => s,
        None => return None,
    };
    let sender_id = event_sender_id_of(sender);
    let chat_id = text_or_empty_of(msg, "chat_id");
    let message_id = text_or_empty_of(msg, "message_id");
    let msg_type = text_or_of(msg, "message_type", "text");
    let chat_type = text_or_of(msg, "chat_type", "p2p");
    let is_group = str_eq(chat_type.as_str(), "group");
    let text = match message_text_of(msg_type.as_str(), content) {
        Some(t) => t,
        None => return None,
    };
    if text.as_str().unicode_len() == 0 {
        return None;
    }
    let effective_chat_id = if chat_id.as_str().unicode_len() == 0 {
        match sender.get("sender_id") {
            Some(id) => match id.get_str("open_id") {
                Some(o) => clone_string(o),
                None => clone_string(&sender_id),
            },
            None => clone_string(&sender_id),
        }
    } else {
        chat_id
    };
    Some(
        InboundMessage {
            message_id,
            sender_id,
            chat_id: effective_chat_id,
            text,
            is_group,
            media_urls: Vec::new(),
            media_attachments: Vec::new(),
            req_id: None,
        },
    )
}


/// Whether `e` is the element `{"tag": "md", "text": text}`.
pub open spec fn is_md_element(e: Json, text: Seq<char>) -> bool {
    match e {
        Json::Object(fields) => fields@.len() == 2 && fields@[0].0@ == "tag"@ && json_text(fields@[0].1) == Some(
            "md"@,
        ) && fields@[1].0@ == "text"@ && json_text(fields@[1].1) == Some(text),
        _ => false,
    }
}

/// `rows` with the pending lines added as one segment, unless there are
/// none or they are only white space.
pub open spec fn flush_segment(cur: Seq<Seq<char>>, rows: Seq<Seq<char>>) -> Seq<Seq<char>> {
    if cur.len() > 0 && trim(joined(cur)).len() > 0 {
        rows.push(joined(cur))
    } else {
        rows
    }
}

/// The segments finished, the lines pending, and whether a code block is
/// open, after scanning some lines: a fence line closes the pending text
/// before it opens a block, and closes the block's segment after it.
pub open spec fn fence_scan(ls: Seq<Seq<char>>) -> (Seq<Seq<char>>, Seq<Seq<char>>, bool)
    decreases ls.len(),
{
    if ls.len() == 0 {
        (Seq::empty(), Seq::empty(), false)
    } else {
        let (rows, cur, code) = fence_scan(ls.drop_last());
        let l = ls.last();
        if has_prefix(trim(l), "```"@) {
            if !code {
                (flush_segment(cur, rows), seq![l], true)
            } else {
                (flush_segment(cur.push(l), rows), Seq::empty(), false)
            }
        } else {
            (rows, cur.push(l), code)
        }
    }
}

/// The texts of the rows a markdown post is sent as: the whole text when
/// it holds no fence (or nothing else is left), else code blocks isolated
/// in rows of their own.
pub open spec fn markdown_segments(content: Seq<char>) -> Seq<Seq<char>> {
    if content.len() == 0 {
        seq![Seq::empty()]
    } else if !contains_seq(content, "```"@) {
        seq![content]
    } else {
        let (rows, cur, code) = fence_scan(lines(content));
        let all = flush_segment(cur, rows);
        if all.len() == 0 {
            seq![content]
        } else {
            all
        }
    }
}

fn join_lines(cur: &Vec<Vec<char>>) -> (r: Vec<char>)
    ensures
        r@ == joined(cur.deep_view()),
{
    let mut out: Vec<char> = Vec::new();
    let mut i: usize = 0;
    while i < cur.len()
        invariant
            i <= cur@.len(),
            out@ == joined(cur.deep_view().subrange(0, i as int)),
        decreases cur@.len() - i,
    {
        let ghost before = cur.deep_view().subrange(0, i as int);
        proof {
            assert(cur.deep_view()[i as int] =~= cur@[i as int]@);
            lemma_joined_push(before, cur@[i as int]@);
            assert(before.push(cur@[i as int]@) =~= cur.deep_view().subrange(0, i + 1));
        }
        if i > 0 {
            out.push('\n');
        }
        let line = &cur[i];
        let ghost start = out@;
        let mut j: usize = 0;
        while j < line.len()
            invariant
                j <= line@.len(),
                out@ == start + line@.subrange(0, j as int),
            decreases line@.len() - j,
        {
            out.push(line[j]);
            j += 1;
        }
        assert(line@.subrange(0, line@.len() as int) =~= line@);
        i += 1;
    }
    assert(cur.deep_view().subrange(0, cur@.len() as int) =~= cur.deep_view());
    out
}

fn flush_rows(cur: &mut Vec<Vec<char>>, rows: &mut Vec<String>)
    ensures
        string_views(final(rows)@) == flush_segment(old(cur).deep_view(), string_views(old(rows)@)),
        final(cur)@.len() == 0,
{
    if cur.len() > 0 {
        let seg = join_lines(cur);
        let (a, b) = crate::text::trim_bounds(&seg);
        if a < b {
            let ghost before = rows@;
            rows.push(string_from_chars(seg.as_slice()));
            assert(string_views(rows@) =~= string_views(before).push(seg@));
        }
        *cur = Vec::new();
    }
}

fn markdown_segment_list(content: &str) -> (r: Vec<String>)
    ensures
        string_views(r@) == markdown_segments(content@),
{
    let cs = chars_of(content);
    let whole = String::from_str(content);
    let mut single: Vec<String> = Vec::new();
    single.push(whole);
    assert(string_views(single@) =~= seq![content@]);
    if cs.len() == 0 {
        assert(content@ =~= Seq::<char>::empty());
        return single;
    }
    let fence = chars_of("```");
    if !crate::text::contains(cs.as_slice(), fence.as_slice()) {
        return single;
    }
    let ls = lines_of(&cs);
    let mut rows: Vec<String> = Vec::new();
    let mut cur: Vec<Vec<char>> = Vec::new();
    let mut in_code = false;
    let mut i: usize = 0;
    assert(ls.deep_view().subrange(0, 0) =~= Seq::<Seq<char>>::empty());
    assert(string_views(rows@) =~= Seq::<Seq<char>>::empty());
    assert(cur.deep_view() =~= Seq::<Seq<char>>::empty());
    while i < ls.len()
        invariant
            ls.deep_view() == lines(content@),
            fence@ == "```"@,
            i <= ls@.len(),
            (string_views(rows@), cur.deep_view(), in_code) == fence_scan(ls.deep_view().subrange(0, i as int)),
        decreases ls@.len() - i,
    {
        let ghost sub = ls.deep_view().subrange(0, i + 1);
        assert(sub.drop_last() =~= ls.deep_view().subrange(0, i as int));
        assert(sub.last() == ls@[i as int]@);
        let line = &ls[i];
        let t = trim_chars(line);
        if crate::text::starts_with(t.as_slice(), fence.as_slice()) {
            if !in_code {
                flush_rows(&mut cur, &mut rows);
                let ghost before = cur.deep_view();
                cur.push(line.clone());
                assert(cur.deep_view() =~= seq![line@]);
            } else {
                let ghost before = cur.deep_view();
                cur.push(line.clone());
                assert(cur.deep_view() =~= before.push(line@));
                flush_rows(&mut cur, &mut rows);
                assert(cur.deep_view() =~= Seq::<Seq<char>>::empty());
            }
            in_code = !in_code;
        } else {
            let ghost before = cur.deep_view();
            cur.push(line.clone());
            assert(cur.deep_view() =~= before.push(line@));
        }
        i += 1;
    }
    assert(ls.deep_view().subrange(0, ls@.len() as int) =~= ls.deep_view());
    flush_rows(&mut cur, &mut rows);
    if rows.len() == 0 {
        single
    } else {
        rows
    }
}

fn md_element(text: String) -> (r: Json)
    ensures
        is_md_element(r, text@),
{
    let mut fields: Vec<(String, Json)> = Vec::new();
    fields.push((String::from_str("tag"), Json::Str(String::from_str("md"))));
    fields.push((String::from_str("text"), Json::Str(text)));
    Json::Object(fields)
}

/// The rows of a markdown post, one `md` element each; code blocks are
/// isolated in rows of their own so that the renderer does not swallow the
/// text after a fence.
pub fn build_markdown_post_rows(content: &str) -> (r: Vec<Vec<Json>>)
    ensures
        r@.len() == markdown_segments(content@).len(),
        forall|i: int|
            0 <= i < r@.len() ==> #[trigger] r@[i]@.len() == 1 && is_md_element(
                r@[i]@[0],
                markdown_segments(content@)[i],
            ),
{
    let segs = markdown_segment_list(content);
    let mut out: Vec<Vec<Json>> = Vec::new();
    let mut i: usize = 0;
    while i < segs.len()
        invariant
            string_views(segs@) == markdown_segments(content@),
            i <= segs@.len(),
            out@.len() == i,
            forall|k: int| 0 <= k < i ==> #[trigger] out@[k]@.len() == 1 && is_md_element(out@[k]@[0], segs@[k]@),
        decreases segs@.len() - i,
    {
        let mut row: Vec<Json> = Vec::new();
        row.push(md_element(clone_string(&segs[i])));
        out.push(row);
        i += 1;
    }
    proof {
        assert forall|k: int| 0 <= k < out@.len() implies #[trigger] out@[k]@.len() == 1 && is_md_element(
            out@[k]@[0],
            markdown_segments(content@)[k],
        ) by {
            assert(string_views(segs@)[k] == segs@[k]@);
        }
    }
    out
}


/// Replies longer than this many bytes are sent in chunks.
pub const MAX_FEISHU_MESSAGE_LENGTH: usize = 6000;

/// How long a message id counts as seen by the webhook (ms): a day.
pub const DEDUP_TTL_MS: u64 = 86_400_000;
/// How many message ids the webhook keeps before dropping the oldest.
pub const DEDUP_MAX_SIZE: usize = 2048;

/// Why the webhook turned a request away.
#[derive(Debug, Clone, Copy, PartialEq, Eq, Structural)]
pub enum WebhookError {
    /// A signature is required but a header is missing.
    MissingSignature,
    /// The signature does not match the body.
    SignatureMismatch,
    /// The body is not JSON.
    InvalidJson,
    /// The decrypted payload is not JSON.
    BadEncryptedPayload,
    /// The payload could not be decrypted.
    DecryptionFailed,
    /// An encrypted payload came but no key is configured.
    KeyNotConfigured,
    /// The verification token does not match.
    TokenMismatch,
}

impl WebhookError {
    /// The HTTP status of the reply.
    pub open spec fn status_code(self) -> u16 {
        match self {
            WebhookError::MissingSignature | WebhookError::SignatureMismatch => 401,
            WebhookError::TokenMismatch => 403,
            _ => 400,
        }
    }

    /// The `error` text of the reply.
    pub open spec fn text(self) -> Seq<char> {
        match self {
            WebhookError::MissingSignature => "missing signature headers"@,
            WebhookError::SignatureMismatch => "signature mismatch"@,
            WebhookError::InvalidJson => "invalid json"@,
            WebhookError::BadEncryptedPayload => "bad encrypted payload"@,
            WebhookError::DecryptionFailed => "decryption failed"@,
            WebhookError::KeyNotConfigured => "encryption key not configured"@,
            WebhookError::TokenMismatch => "token mismatch"@,
        }
    }

    /// The HTTP status of the reply.
    pub fn status(&self) -> (r: u16)
        ensures
            r == self.status_code(),
    {
        match self {
            WebhookError::MissingSignature | WebhookError::SignatureMismatch => 401,
            WebhookError::TokenMismatch => 403,
            _ => 400,
        }
    }

    /// The `error` text of the reply.
    pub fn message(&self) -> (r: &'static str)
        ensures
            r@ == self.text(),
    {
        match self {
            WebhookError::MissingSignature => "missing signature headers",
            WebhookError::SignatureMismatch => "signature mismatch",
            WebhookError::InvalidJson => "invalid json",
            WebhookError::BadEncryptedPayload => "bad encrypted payload",
            WebhookError::DecryptionFailed => "decryption failed",
            WebhookError::KeyNotConfigured => "encryption key not configured",
            WebhookError::TokenMismatch => "token mismatch",
        }
    }
}

/// Checks the signature headers of a webhook request. Without a non-empty
/// encrypt key nothing is checked; with one, the signature and timestamp
/// headers must be present and the signature valid.
pub fn check_webhook_signature(encrypt_key: &Option<String>, signature: &str, timestamp: &str, nonce: &str, body: &[u8]) -> (r:
    Result<(), WebhookError>)
    ensures
        match encrypt_key {
            Some(k) => if k@.len() == 0 {
                r is Ok
            } else if signature@.len() == 0 || timestamp@.len() == 0 {
                r == Err::<(), WebhookError>(WebhookError::MissingSignature)
            } else if !lark_signature_valid(k@, timestamp@, nonce@, body@, signature@) {
                r == Err::<(), WebhookError>(WebhookError::SignatureMismatch)
            } else {
                r is Ok
            },
            None => r is Ok,
        },
{
    match encrypt_key {
        Some(k) => {
            if k.as_str().unicode_len() == 0 {
                return Ok(());
            }
            if signature.unicode_len() == 0 || timestamp.unicode_len() == 0 {
                return Err(WebhookError::MissingSignature);
            }
            if !verify_lark_signature(k.as_str(), timestamp, nonce, body, signature) {
                return Err(WebhookError::SignatureMismatch);
            }
            Ok(())
        },
        None => Ok(()),
    }
}

/// Opens an encrypted payload: `Ok(None)` when the payload has no
/// `encrypt` string (it is used as it is), `Ok(Some(text))` with the
/// decrypted JSON text, or the error to answer with.
pub fn open_webhook_payload(encrypt_key: &Option<String>, payload: &Json) -> (r: Result<Option<String>, WebhookError>)
    ensures
        match get_text(*payload, "encrypt"@) {
            None => r == Ok::<Option<String>, WebhookError>(None),
            Some(data) => match encrypt_key {
                Some(k) => if k@.len() == 0 {
                    r == Err::<Option<String>, WebhookError>(WebhookError::KeyNotConfigured)
                } else {
                    match r {
                        Ok(Some(t)) => decrypted_payload(k@, data) == Ok::<Seq<char>, DecryptError>(t@),
                        Ok(None) => false,
                        Err(e) => e == WebhookError::DecryptionFailed && decrypted_payload(k@, data) is Err,
                    }
                },
                None => r == Err::<Option<String>, WebhookError>(WebhookError::KeyNotConfigured),
            },
        },
{
    match payload.get_str("encrypt") {
        None => Ok(None),
        Some(data) => match encrypt_key {
            Some(k) => {
                if k.as_str().unicode_len() == 0 {
                    return Err(WebhookError::KeyNotConfigured);
                }
                match decrypt_event_payload(k.as_str(), data.as_str()) {
                    Ok(t) => Ok(Some(t)),
                    Err(_) => Err(WebhookError::DecryptionFailed),
                }
            },
            None => Err(WebhookError::KeyNotConfigured),
        },
    }
}


/// What a message event carries: id, sender, chat, text and whether it is
/// a group chat; `None` when it is not a message to pass on.
pub open spec fn event_fields(event: Json, content: Json) -> Option<
    (Seq<char>, Seq<char>, Seq<char>, Seq<char>, bool),
> {
    match (json_get(event, "message"@), json_get(event, "sender"@)) {
        (Some(msg), Some(sender)) => match message_text(event_message_type(msg), content) {
            Some(t) => if t.len() == 0 {
                None
            } else {
                Some(
                    (
                        text_or_empty(msg, "message_id"@),
                        event_sender_id(sender),
                        event_chat_id(msg, sender),
                        t,
                        event_is_group(msg),
                    ),
                )
            },
            None => None,
        },
        _ => None,
    }
}

/// The fields of an inbound message that an event determines.
pub open spec fn inbound_fields(m: InboundMessage) -> (Seq<char>, Seq<char>, Seq<char>, Seq<char>, bool) {
    (m.message_id@, m.sender_id@, m.chat_id@, m.text@, m.is_group)
}

/// The reply the webhook sends.
#[derive(Debug)]
pub enum WebhookReply {
    /// `200` with an empty object.
    Empty,
    /// `200` echoing the URL-verification challenge.
    Challenge(String),
    /// The error status and text.
    Rejected(WebhookError),
}

/// The webhook's state: the tokens it checks, the bot's identity, the group
/// policy, and the message ids seen.
pub struct FeishuWebhook {
    pub verification_token: Option<String>,
    /// The bot's open id (empty until known).
    pub open_id: String,
    /// The bot's user id (empty until known).
    pub user_id: String,
    pub group_policy: GroupPolicy,
    pub group_allowlist: Vec<String>,
    pub group_blacklist: Vec<String>,
    /// Message ids seen, for a day.
    pub seen: TtlCache,
}

impl FeishuWebhook {
    /// The webhook state for a configuration, before the bot's identity is
    /// known.
    pub fn new(config: &FeishuConfig) -> (r: FeishuWebhook)
        ensures
            opt_view(r.verification_token) == opt_view(config.verification_token),
            r.open_id@.len() == 0,
            r.user_id@.len() == 0,
            r.group_policy == config.group_policy,
            string_views(r.group_allowlist@) == string_views(config.group_allowlist@),
            string_views(r.group_blacklist@) == string_views(config.group_blacklist@),
            r.seen.times() == Map::<Seq<char>, u64>::empty(),
            r.seen.ttl() == DEDUP_TTL_MS,
            r.seen.capacity() == DEDUP_MAX_SIZE,
    {
        let allow = clone_strings(&config.group_allowlist);
        let block = clone_strings(&config.group_blacklist);
        assert(string_views(allow@) =~= string_views(config.group_allowlist@));
        assert(string_views(block@) =~= string_views(config.group_blacklist@));
        FeishuWebhook {
            verification_token: clone_opt(&config.verification_token),
            open_id: String::new(),
            user_id: String::new(),
            group_policy: config.group_policy,
            group_allowlist: allow,
            group_blacklist: block,
            seen: TtlCache::new(DEDUP_TTL_MS, DEDUP_MAX_SIZE),
        }
    }

    /// Answers an (opened) payload at `now` (ms): a URL-verification
    /// challenge is echoed once its token matches; an event with a wrong
    /// token is refused; a message event is passed on unless it is the
    /// bot's own, a repeat within a day, or a group message the policy
    /// refuses. `content` is the event message's `content` as parsed.
    pub fn handle_payload(&mut self, payload: &Json, content: &Json, now: u64) -> (r: (WebhookReply, Option<InboundMessage>))
        ensures
            final(self).verification_token == old(self).verification_token,
            final(self).open_id == old(self).open_id,
            final(self).user_id == old(self).user_id,
            final(self).group_policy == old(self).group_policy,
            final(self).group_allowlist == old(self).group_allowlist,
            final(self).group_blacklist == old(self).group_blacklist,
            final(self).seen.ttl() == old(self).seen.ttl(),
            final(self).seen.capacity() == old(self).seen.capacity(),
            ({
                let token = get_text(*payload, "token"@);
                let expected = opt_view(old(self).verification_token);
                if get_text(*payload, "challenge"@) is Some && token is Some && get_text(*payload, "type"@) == Some(
                    "url_verification"@,
                ) {
                    &&& r.1 is None
                    &&& final(self).seen.times() == old(self).seen.times()
                    &&& if expected is Some && token != expected {
                        r.0 matches WebhookReply::Rejected(e) && e == WebhookError::TokenMismatch
                    } else {
                        r.0 matches WebhookReply::Challenge(c) && Some(c@) == get_text(*payload, "challenge"@)
                    }
                } else if expected is Some && token is Some && token != expected {
                    &&& r.0 matches WebhookReply::Rejected(e) && e == WebhookError::TokenMismatch
                    &&& r.1 is None
                    &&& final(self).seen.times() == old(self).seen.times()
                } else {
                    &&& r.0 is Empty
                    &&& match json_get(*payload, "event"@) {
                        None => r.1 is None && final(self).seen.times() == old(self).seen.times(),
                        Some(ev) => if text_or(get_text(ev, "type"@), "unknown"@) != "im.message.receive_v1"@ {
                            r.1 is None && final(self).seen.times() == old(self).seen.times()
                        } else {
                            match event_fields(ev, *content) {
                                None => r.1 is None && final(self).seen.times() == old(self).seen.times(),
                                Some(f) => {
                                    let (id, sender, chat, text, group) = f;
                                    if self_sender(sender, old(self).open_id@, old(self).user_id@) || (id.len() > 0
                                        && old(self).seen.fresh(id, now)) {
                                        r.1 is None && final(self).seen.times() == old(self).seen.times()
                                    } else {
                                        &&& id.len() == 0 ==> final(self).seen.times() == old(self).seen.times()
                                        &&& id.len() > 0 && old(self).seen.times().insert(id, now).len()
                                            <= DEDUP_MAX_SIZE ==> final(self).seen.times() == old(
                                            self,
                                        ).seen.times().insert(id, now)
                                        &&& id.len() > 0 && old(self).seen.times().insert(id, now).len()
                                            > DEDUP_MAX_SIZE ==> final(self).seen.times().len() == DEDUP_MAX_SIZE
                                            / 2 && (forall|k: Seq<char>| #[trigger]
                                            final(self).seen.times().contains_key(k) ==> old(
                                            self,
                                        ).seen.times().insert(id, now).contains_key(k) && final(self).seen.times()[k]
                                            == old(self).seen.times().insert(id, now)[k]) && (forall|k: Seq<char>, j: Seq<char>|
                                            old(self).seen.times().insert(id, now).contains_key(k)
                                            && !final(self).seen.times().contains_key(k)
                                            && #[trigger] final(self).seen.times().contains_key(j)
                                            ==> #[trigger] old(self).seen.times().insert(id, now)[k]
                                            <= final(self).seen.times()[j])
                                        &&& if group && !group_allowed(
                                            old(self).group_policy,
                                            old(self).group_allowlist@,
                                            old(self).group_blacklist@,
                                            chat,
                                        ) {
                                            r.1 is None
                                        } else {
                                            r.1 matches Some(m) && inbound_fields(m) == f && m.media_urls@.len() == 0
                                                && m.media_attachments@.len() == 0 && m.req_id is None
                                        }
                                    }
                                },
                            }
                        },
                    }
                }
            }),
    {
        let token = payload.get_str("token");
        let challenge = payload.get_str("challenge");
        let typ = payload.get_str("type");
        let token_mismatch = match (&self.verification_token, token) {
            (Some(e), Some(t)) => !str_eq(e.as_str(), t.as_str()),
            _ => false,
        };
        match (challenge, token, typ) {
            (Some(c), Some(_), Some(ty)) => {
                if str_eq(ty.as_str(), "url_verification") {
                    if token_mismatch {
                        return (WebhookReply::Rejected(WebhookError::TokenMismatch), None);
                    }
                    return (WebhookReply::Challenge(clone_string(c)), None);
                }
            },
            _ => {},
        }
        if token_mismatch {
            return (WebhookReply::Rejected(WebhookError::TokenMismatch), None);
        }
        let ev = match payload.get("event") {
            Some(ev) => ev,
            None => return (WebhookReply::Empty, None),
        };
        let event_type = text_or_of(ev, "type", "unknown");
        if !str_eq(event_type.as_str(), "im.message.receive_v1") {
            return (WebhookReply::Empty, None);
        }
        let msg = match parse_message_event(ev, content) {
            Some(m) => m,
            None => return (WebhookReply::Empty, None),
        };
        if is_self_sender(msg.sender_id.as_str(), self.open_id.as_str(), self.user_id.as_str()) {
            return (WebhookReply::Empty, None);
        }
        if msg.message_id.as_str().unicode_len() > 0 {
            if self.seen.is_fresh(msg.message_id.as_str(), now) {
                return (WebhookReply::Empty, None);
            }
            self.seen.record(msg.message_id.as_str(), now);
            if self.seen.len() > DEDUP_MAX_SIZE {
                self.seen.evict_oldest(DEDUP_MAX_SIZE / 2);
            }
        }
        if msg.is_group && !should_process_group_message(
            self.group_policy,
            &self.group_allowlist,
            &self.group_blacklist,
            msg.chat_id.as_str(),
        ) {
            return (WebhookReply::Empty, None);
        }
        (WebhookReply::Empty, Some(msg))
    }
}

/// The `content` string of a payload's event message, `{}` when absent:
/// what is to be parsed and handed to `handle_payload`.
pub fn event_content(payload: &Json) -> (r: String)
    ensures
        r@ == match json_get(*payload, "event"@) {
            Some(ev) => match json_get(ev, "message"@) {
                Some(msg) => text_or(get_text(msg, "content"@), "{}"@),
                None => "{}"@,
            },
            None => "{}"@,
        },
{
    match payload.get("event") {
        Some(ev) => match ev.get("message") {
            Some(msg) => text_or_of(msg, "content", "{}"),
            None => String::from_str("{}"),
        },
        None => String::from_str("{}"),
    }
}


/// Reply error codes meaning the message replied to was withdrawn or is
/// missing: the reply is then sent as a new message.
pub open spec fn is_reply_fallback_code(code: i64) -> bool {
    code == 230011 || code == 231003
}

/// The `code` of an API reply, `-1` when missing or not an integer.
pub open spec fn reply_code(resp: Json) -> i64 {
    match json_get(resp, "code"@) {
        Some(c) => match json_i64(c) {
            Some(n) => n,
            None => -1i64,
        },
        None => -1i64,
    }
}

/// Whether a failed reply is to be sent again as a new message.
pub fn reply_needs_fallback(resp: &Json) -> (r: bool)
    ensures
        r == is_reply_fallback_code(reply_code(*resp)),
{
    let code: i64 = match resp.get("code") {
        Some(c) => match c.as_i64() {
            Some(n) => n,
            None => -1,
        },
        None => -1,
    };
    code == 230011 || code == 231003
}

/// Whether a text is sent as a markdown post: longer than 2000 bytes, or
/// holding a code fence. Otherwise it goes as plain text.
pub open spec fn sent_as_post(text: Seq<char>) -> bool {
    encode_utf8(text).len() > 2000 || contains_seq(text, "```"@)
}

/// Whether `c` is `{"text": text}`.
pub open spec fn is_text_content(c: Json, text: Seq<char>) -> bool {
    match c {
        Json::Object(fields) => fields@.len() == 1 && fields@[0].0@ == "text"@ && json_text(fields@[0].1) == Some(
            text,
        ),
        _ => false,
    }
}

/// Whether `c` is `{"zh_cn": {"title": "", "content": rows}}` with the
/// markdown rows of `text`.
pub open spec fn is_post_content(c: Json, text: Seq<char>) -> bool {
    match c {
        Json::Object(fields) => fields@.len() == 1 && fields@[0].0@ == "zh_cn"@ && match fields@[0].1 {
            Json::Object(inner) => inner@.len() == 2 && inner@[0].0@ == "title"@ && json_text(inner@[0].1) == Some(
                Seq::<char>::empty(),
            ) && inner@[1].0@ == "content"@ && match inner@[1].1 {
                Json::Array(rows) => rows@.len() == markdown_segments(text).len() && forall|i: int|
                    0 <= i < rows@.len() ==> match #[trigger] rows@[i] {
                        Json::Array(es) => es@.len() == 1 && is_md_element(es@[0], markdown_segments(text)[i]),
                        _ => false,
                    },
                _ => false,
            },
            _ => false,
        },
        _ => false,
    }
}

/// The content `{"text": text}` of a plain-text message.
pub fn text_content(text: &str) -> (r: Json)
    ensures
        is_text_content(r, text@),
{
    let mut fields: Vec<(String, Json)> = Vec::new();
    fields.push((String::from_str("text"), Json::Str(String::from_str(text))));
    Json::Object(fields)
}

/// The message type (`true` for a post, `false` for text) and the content
/// an outgoing text is sent with.
pub fn message_payload(text: &str) -> (r: (bool, Json))
    ensures
        r.0 == sent_as_post(text@),
        r.0 ==> is_post_content(r.1, text@),
        !r.0 ==> is_text_content(r.1, text@),
{
    let cs = chars_of(text);
    let fence = chars_of("```");
    proof {
        reveal_strlit("```");
    }
    let post = text.as_bytes().len() > 2000 || crate::text::contains(cs.as_slice(), fence.as_slice());
    if !post {
        return (false, text_content(text));
    }
    let segs = markdown_segment_list(text);
    let mut ordered: Vec<Json> = Vec::new();
    let mut i: usize = 0;
    while i < segs.len()
        invariant
            string_views(segs@) == markdown_segments(text@),
            i <= segs@.len(),
            ordered@.len() == i,
            forall|k: int| 0 <= k < i ==> match #[trigger] ordered@[k] {
                Json::Array(es) => es@.len() == 1 && is_md_element(es@[0], markdown_segments(text@)[k]),
                _ => false,
            },
        decreases segs@.len() - i,
    {
        assert(string_views(segs@)[i as int] == segs@[i as int]@);
        let mut row: Vec<Json> = Vec::new();
        row.push(md_element(clone_string(&segs[i])));
        ordered.push(Json::Array(row));
        i += 1;
    }
    let mut inner: Vec<(String, Json)> = Vec::new();
    inner.push((String::from_str("title"), Json::Str(String::new())));
    inner.push((String::from_str("content"), Json::Array(ordered)));
    let mut outer: Vec<(String, Json)> = Vec::new();
    outer.push((String::from_str("zh_cn"), Json::Object(inner)));
    (true, Json::Object(outer))
}

/// After a post was refused: the plain-text version to send instead, when
/// stripping the markdown changes the text.
pub fn plain_text_retry(text: &str, sent_post: bool, result: &SendResult) -> (r: Option<String>)
    ensures
        match r {
            Some(p) => !result.success && sent_post && p@ == stripped_markdown(text@) && p@ != text@,
            None => result.success || !sent_post || stripped_markdown(text@) == text@,
        },
{
    if result.success || !sent_post {
        return None;
    }
    let plain = strip_markdown(text);
    if str_eq(plain.as_str(), text) {
        None
    } else {
        Some(plain)
    }
}


/// A message event passed on at `t1` while fewer than the capacity of ids
/// were kept is a repeat, and so dropped, when delivered again within a day.
pub proof fn lemma_redelivery_dropped(before: FeishuWebhook, after: FeishuWebhook, id: Seq<char>, t1: u64, t2: u64)
    requires
        id.len() > 0,
        !before.seen.fresh(id, t1),
        before.seen.times().insert(id, t1).len() <= DEDUP_MAX_SIZE,
        after.seen.times() == before.seen.times().insert(id, t1),
        after.seen.ttl() == DEDUP_TTL_MS,
        t1 <= t2,
        t2 - t1 < DEDUP_TTL_MS,
    ensures
        after.seen.fresh(id, t2),
{
}


/// A request signed with the encrypt key is accepted: the lower-case hex
/// SHA-256 of timestamp, nonce, key and body verifies.
pub proof fn lemma_signed_request_accepted(key: Seq<char>, timestamp: Seq<char>, nonce: Seq<char>, body: Seq<u8>)
    ensures
        lark_signature_valid(
            key,
            timestamp,
            nonce,
            body,
            hex_lower(sha256_digest(lark_sign_base(key, timestamp, nonce, body))),
        ),
{
    lemma_hex_round_trip(sha256_digest(lark_sign_base(key, timestamp, nonce, body)));
}


/// How long before its expiry the tenant token is refreshed (ms).
pub const TOKEN_REFRESH_MARGIN_MS: u64 = 300_000;

/// Whether the tenant token is to be refreshed at `now` (ms): within the
/// margin before its expiry, or after it.
pub fn token_needs_refresh(now: u64, expires_at: u64) -> (r: bool)
    ensures
        r == (now + TOKEN_REFRESH_MARGIN_MS >= expires_at),
{
    if now > u64::MAX - TOKEN_REFRESH_MARGIN_MS {
        true
    } else {
        now + TOKEN_REFRESH_MARGIN_MS >= expires_at
    }
}

/// The error text of a failed API reply: the prefix, its `code` and its
/// `msg` (`unknown` when missing).
pub open spec fn api_error_text(prefix: Seq<char>, resp: Json) -> Seq<char> {
    prefix + ": code="@ + signed_decimal(reply_code(resp) as int) + ", msg="@ + text_or(
        get_text(resp, "msg"@),
        "unknown"@,
    )
}

fn api_error_of(prefix: &str, resp: &Json) -> (r: String)
    ensures
        r@ == api_error_text(prefix@, *resp),
{
    let code: i64 = match resp.get("code") {
        Some(c) => match c.as_i64() {
            Some(n) => n,
            None => -1,
        },
        None => -1,
    };
    let mut e = String::from_str(prefix);
    e.append(": code=");
    e.append(signed_decimal_string(code).as_str());
    e.append(", msg=");
    e.append(text_or_of(resp, "msg", "unknown").as_str());
    e
}

/// The tenant token and its lifetime (seconds, 7200 when missing) from the
/// token reply, or the error it reports.
pub fn token_from_reply(resp: &Json) -> (r: Result<(String, u64), String>)
    ensures
        reply_code(*resp) != 0 ==> (r matches Err(e) && e@ == api_error_text("Feishu token error"@, *resp)),
        reply_code(*resp) == 0 ==> (r matches Ok((t, exp)) && t@ == text_or_empty(*resp, "tenant_access_token"@)
            && exp == match json_get(*resp, "expire"@) {
            Some(v) => match crate::json::json_u64(v) {
                Some(n) => n,
                None => 7200u64,
            },
            None => 7200u64,
        }),
{
    if reply_needs_error(resp) {
        return Err(api_error_of("Feishu token error", resp));
    }
    let token = text_or_empty_of(resp, "tenant_access_token");
    let expire = match resp.get("expire") {
        Some(v) => match v.as_u64() {
            Some(n) => n,
            None => 7200,
        },
        None => 7200,
    };
    Ok((token, expire))
}

fn reply_needs_error(resp: &Json) -> (r: bool)
    ensures
        r == (reply_code(*resp) != 0),
{
    let code: i64 = match resp.get("code") {
        Some(c) => match c.as_i64() {
            Some(n) => n,
            None => -1,
        },
        None => -1,
    };
    code != 0
}

/// The bot's open id and user id from the bot-info reply (empty when
/// missing), or the error it reports.
pub fn bot_identity_from_reply(resp: &Json) -> (r: Result<(String, String), String>)
    ensures
        reply_code(*resp) != 0 ==> (r matches Err(e) && e@ == api_error_text("Feishu bot info error"@, *resp)),
        reply_code(*resp) == 0 ==> (r matches Ok((o, u)) && o@ == match json_get(*resp, "bot"@) {
            Some(b) => text_or_empty(b, "open_id"@),
            None => Seq::empty(),
        } && u@ == match json_get(*resp, "bot"@) {
            Some(b) => text_or_empty(b, "user_id"@),
            None => Seq::empty(),
        }),
{
    if reply_needs_error(resp) {
        return Err(api_error_of("Feishu bot info error", resp));
    }
    match resp.get("bot") {
        Some(b) => Ok((text_or_empty_of(b, "open_id"), text_or_empty_of(b, "user_id"))),
        None => Ok((String::new(), String::new())),
    }
}

/// A file, audio or media message reads as `[<type> attachment]`, whatever
/// its content: such messages are delivered, not dropped.
pub proof fn lemma_attachment_message_text(msg_type: Seq<char>, content: Json)
    requires
        msg_type == "file"@ || msg_type == "audio"@ || msg_type == "media"@,
    ensures
        message_text(msg_type, content) == Some("["@ + msg_type + " attachment]"@),
        ("["@ + msg_type + " attachment]"@).len() > 0,
{
    reveal_strlit("file");
    reveal_strlit("audio");
    reveal_strlit("media");
    reveal_strlit("text");
    reveal_strlit("post");
    reveal_strlit("image");
    reveal_strlit("[");
    assert(msg_type != "text"@ && msg_type != "post"@ && msg_type != "image"@) by {
        if msg_type == "file"@ {
            assert(msg_type[0] != "text"@[0] && msg_type[0] != "post"@[0] && msg_type[0] != "image"@[0]);
        } else if msg_type == "audio"@ {
            assert(msg_type[0] != "text"@[0] && msg_type[0] != "post"@[0] && msg_type[0] != "image"@[0]);
        } else {
            assert(msg_type[0] != "text"@[0] && msg_type[0] != "post"@[0] && msg_type[0] != "image"@[0]);
        }
    }
}

/// A text message reads as its `text`; an image as `[image: <key>]`, or
/// `[image]` without a key.
pub proof fn lemma_text_and_image_message_text(content: Json)
    ensures
        message_text("text"@, content) == Some(text_or_empty(content, "text"@)),
        message_text("image"@, content) == Some(
            if text_or_empty(content, "image_key"@).len() == 0 {
                "[image]"@
            } else {
                "[image: "@ + text_or_empty(content, "image_key"@) + "]"@
            },
        ),
{
    reveal_strlit("text");
    reveal_strlit("post");
    reveal_strlit("image");
    assert("image"@ != "text"@ && "image"@ != "post"@) by {
        assert("image"@[0] != "text"@[0] && "image"@[0] != "post"@[0]);
    }
}

} // verus!
