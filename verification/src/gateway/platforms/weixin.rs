//! WeChat (iLink Bot) message handling: outbound text chunking, inbound
//! update parsing and de-duplication.
use vstd::prelude::*;
use crate::gateway::dedup::{still_fresh, TtlCache};
use crate::gateway::platforms::weixin_auth::{
    get_either, signed_decimal, signed_decimal_string, text_either, text_or as auth_text_or,
};
use crate::gateway::platforms::weixin_media::{
    attachments_of, extract_media_attachments, MediaAttachment, MediaAttachmentView, MessageItem,
};
use crate::gateway::traits::{InboundMessage, SendResult};
use crate::json::{get_text, json_get, json_i64, json_u64, Json};
use crate::persistence::rows::opt_text;
use crate::text::{
    all_digits, chars_of, clone_string, decimal, decimal_string, is_digit, slice_chars, str_eq,
    string_from_chars, trim, trim_chars,
};

verus! {

/// Index of the last occurrence of `c` in `s`.
pub open spec fn last_index_of(s: Seq<char>, c: char) -> Option<int>
    decreases s.len(),
{
    if s.len() == 0 {
        None
    } else if s.last() == c {
        Some(s.len() - 1)
    } else {
        last_index_of(s.drop_last(), c)
    }
}

proof fn lemma_last_index_bounds(s: Seq<char>, c: char)
    ensures
        last_index_of(s, c) matches Some(i) ==> 0 <= i < s.len() && s[i] == c,
        last_index_of(s, c) is None ==> forall|k: int| 0 <= k < s.len() ==> s[k] != c,
    decreases s.len(),
{
    if s.len() > 0 && s.last() != c {
        lemma_last_index_bounds(s.drop_last(), c);
        assert forall|k: int| 0 <= k < s.len() - 1 implies s.drop_last()[k] == s[k] by {}
    }
}

fn last_index(s: &Vec<char>, end: usize, c: char) -> (r: Option<usize>)
    requires
        end <= s@.len(),
    ensures
        r matches Some(i) ==> last_index_of(s@.subrange(0, end as int), c) == Some(i as int),
        r is None ==> last_index_of(s@.subrange(0, end as int), c) is None,
{
    let mut j = end;
    while j > 0
        invariant
            j <= end <= s@.len(),
            last_index_of(s@.subrange(0, end as int), c) == last_index_of(s@.subrange(0, j as int), c),
        decreases j,
    {
        assert(s@.subrange(0, j as int).drop_last() =~= s@.subrange(0, j - 1));
        if s[j - 1] == c {
            return Some(j - 1);
        }
        j -= 1;
    }
    None
}

/// Where a chunk of `r` ends: after the last newline within the first
/// `max` characters, else after the last space there, else at `max`; a
/// split point of zero is replaced by `max`.
pub open spec fn split_point(r: Seq<char>, max: nat) -> int {
    let window = r.subrange(0, max as int);
    let at = match last_index_of(window, '\n') {
        Some(i) => i,
        None => match last_index_of(window, ' ') {
            Some(i) => i,
            None => max as int,
        },
    };
    if at == 0 {
        max as int
    } else {
        at
    }
}

/// The chunks of `r` (longer than `max` characters) after splitting.
pub open spec fn split_rest(r: Seq<char>, max: nat) -> Seq<Seq<char>>
    decreases r.len(),
{
    if r.len() == 0 {
        Seq::empty()
    } else if r.len() <= max || max == 0 {
        seq![r]
    } else {
        let k = split_point(r, max);
        if 0 < k <= r.len() {
            let rest = r.subrange(k, r.len() as int);
            let rest2 = if rest.len() > 0 && rest[0] == '\n' {
                rest.drop_first()
            } else {
                rest
            };
            seq![r.subrange(0, k)] + split_rest(rest2, max)
        } else {
            seq![r]
        }
    }
}

/// The chunks a text is sent in: the text itself when it fits, else pieces
/// split preferably at newlines, then spaces.
pub open spec fn split_text_spec(t: Seq<char>, max: nat) -> Seq<Seq<char>> {
    if t.len() <= max {
        seq![t]
    } else {
        split_rest(t, max)
    }
}

proof fn lemma_split_point(r: Seq<char>, max: nat)
    requires
        0 < max < r.len(),
    ensures
        0 < split_point(r, max) <= max,
{
    let window = r.subrange(0, max as int);
    lemma_last_index_bounds(window, '\n');
    lemma_last_index_bounds(window, ' ');
}

proof fn lemma_split_rest_bounded(r: Seq<char>, max: nat)
    requires
        max > 0,
    ensures
        forall|i: int| 0 <= i < split_rest(r, max).len() ==> #[trigger] split_rest(r, max)[i].len() <= max,
    decreases r.len(),
{
    if r.len() > max {
        lemma_split_point(r, max);
        let k = split_point(r, max);
        let rest = r.subrange(k, r.len() as int);
        let rest2 = if rest.len() > 0 && rest[0] == '\n' { rest.drop_first() } else { rest };
        lemma_split_rest_bounded(rest2, max);
        let s = split_rest(r, max);
        assert forall|i: int| 0 <= i < s.len() implies #[trigger] s[i].len() <= max by {
            if i > 0 {
                assert(s[i] == split_rest(rest2, max)[i - 1]);
            }
        }
    }
}

/// Every chunk produced by `split_text` has at most `max` characters.
pub proof fn lemma_split_text_bounded(t: Seq<char>, max: nat)
    requires
        max > 0,
    ensures
        forall|i: int| 0 <= i < split_text_spec(t, max).len() ==> #[trigger] split_text_spec(t, max)[i].len() <= max,
{
    if t.len() > max {
        lemma_split_rest_bounded(t, max);
    }
}

/// Splits outbound text into chunks of at most `max_chars` characters,
/// preferring to break at a newline (which is dropped) or a space.
pub fn split_text(text: &str, max_chars: usize) -> (r: Vec<String>)
    requires
        max_chars > 0,
    ensures
        r@.len() == split_text_spec(text@, max_chars as nat).len(),
        forall|i: int| 0 <= i < r@.len() ==> #[trigger] r@[i]@ == split_text_spec(text@, max_chars as nat)[i],
        forall|i: int| 0 <= i < r@.len() ==> #[trigger] r@[i]@.len() <= max_chars,
{
    proof {
        lemma_split_text_bounded(text@, max_chars as nat);
    }
    let cs = chars_of(text);
    let mut chunks: Vec<String> = Vec::new();
    if cs.len() <= max_chars {
        chunks.push(String::from_str(text));
        return chunks;
    }
    let mut remaining = cs;
    let ghost target = split_text_spec(text@, max_chars as nat);
    loop
        invariant
            max_chars > 0,
            target == split_text_spec(text@, max_chars as nat),
            forall|k: int| 0 <= k < target.len() ==> #[trigger] target[k].len() <= max_chars,
            target.len() == chunks@.len() + split_rest(remaining@, max_chars as nat).len(),
            forall|k: int| 0 <= k < chunks@.len() ==> #[trigger] chunks@[k]@ == target[k],
            forall|k: int| 0 <= k < split_rest(remaining@, max_chars as nat).len() ==>
                #[trigger] split_rest(remaining@, max_chars as nat)[k] == target[chunks@.len() + k],
        decreases remaining@.len(),
    {
        if remaining.len() == 0 {
            return chunks;
        }
        if remaining.len() <= max_chars {
            assert(split_rest(remaining@, max_chars as nat) == seq![remaining@]);
            assert(split_rest(remaining@, max_chars as nat)[0] == target[chunks@.len() as int + 0]);
            assert(target[chunks@.len() as int] == remaining@);
            chunks.push(string_from_chars(remaining.as_slice()));
            return chunks;
        }
        let byte_limit = max_chars;
        proof {
            lemma_split_point(remaining@, max_chars as nat);
            assert(remaining@.subrange(0, max_chars as int) =~= remaining@.subrange(0, byte_limit as int));
        }
        let split_at = match last_index(&remaining, byte_limit, '\n') {
            Some(i) => i,
            None => match last_index(&remaining, byte_limit, ' ') {
                Some(i) => i,
                None => byte_limit,
            },
        };
        let split_at = if split_at == 0 {
            byte_limit
        } else {
            split_at
        };
        assert(split_at as int == split_point(remaining@, max_chars as nat));
        let piece = slice_chars(&remaining, 0, split_at);
        let ghost old_rest = remaining@;
        let mut next = slice_chars(&remaining, split_at, remaining.len());
        if next.len() > 0 && next[0] == '\n' {
            next.remove(0);
        }
        let ghost sr = split_rest(old_rest, max_chars as nat);
        proof {
            assert(sr == seq![old_rest.subrange(0, split_at as int)] + split_rest(next@, max_chars as nat));
            assert(sr[0] == piece@);
            assert forall|k: int| 0 <= k < split_rest(next@, max_chars as nat).len() implies
                #[trigger] split_rest(next@, max_chars as nat)[k] == sr[k + 1] by {}
        }
        chunks.push(string_from_chars(piece.as_slice()));
        remaining = next;
    }
}


/// How long a message id or content fingerprint counts as seen (ms).
pub const DEDUP_TTL_MS: u64 = 300_000;

/// How many ids or fingerprints are kept before stale ones are dropped.
pub const DEDUP_MAX_ENTRIES: usize = 2000;

/// The fingerprint std's `DefaultHasher` gives a sender and a text, hashed
/// in that order.
pub uninterp spec fn content_hash(sender: Seq<char>, text: Seq<char>) -> u64;

/// std: `BuildHasher::hash_one` of the pair `(sender, text)` with a
/// default-built `DefaultHasher`, which hashes the sender and then the
/// text. `DefaultHasher::new()` starts from fixed keys, so the value depends
/// on the two strings alone.
#[verifier::external_body]
fn fingerprint(sender: &str, text: &str) -> (r: u64)
    ensures
        r == content_hash(sender@, text@),
{
    let builder = std::hash::BuildHasherDefault::<std::collections::hash_map::DefaultHasher>::default();
    std::hash::BuildHasher::hash_one(&builder, (sender, text))
}

/// The message id of an update: a non-empty string, or a number in decimal.
pub open spec fn update_message_id(u: Json) -> Option<Seq<char>> {
    let id = match json_get(u, "message_id"@) {
        Some(v) => match v {
            Json::Str(s) => Some(s@),
            _ => match json_i64(v) {
                Some(n) => Some(signed_decimal(n as int)),
                None => match json_u64(v) {
                    Some(n) => Some(decimal(n as nat)),
                    None => None,
                },
            },
        },
        None => None,
    };
    match id {
        Some(s) => if s.len() > 0 {
            Some(s)
        } else {
            None
        },
        None => None,
    }
}

fn message_id_of(u: &Json) -> (r: Option<String>)
    ensures
        opt_text(r) == update_message_id(*u),
{
    let id = match u.get("message_id") {
        Some(v) => match v.as_str() {
            Some(s) => Some(clone_string(s)),
            None => match v.as_i64() {
                Some(n) => Some(signed_decimal_string(n)),
                None => match v.as_u64() {
                    Some(n) => Some(decimal_string(n)),
                    None => None,
                },
            },
        },
        None => None,
    };
    match id {
        Some(s) => if s.as_str().unicode_len() > 0 {
            Some(s)
        } else {
            None
        },
        None => None,
    }
}

/// The sender of an update: `from_user_id`, else the legacy `sender_id`.
pub open spec fn update_sender(u: Json) -> Seq<char> {
    auth_text_or(text_either(u, "from_user_id"@, "sender_id"@), Seq::empty())
}

/// The text of an update: that of its first item, else a top-level `text`.
pub open spec fn update_text(u: Json) -> Seq<char> {
    let first = match json_get(u, "item_list"@) {
        Some(Json::Array(items)) => if items@.len() > 0 {
            match json_get(items@[0], "text_item"@) {
                Some(ti) => get_text(ti, "text"@),
                None => None,
            }
        } else {
            None
        },
        _ => None,
    };
    match first {
        Some(t) => t,
        None => auth_text_or(get_text(u, "text"@), Seq::empty()),
    }
}

fn text_of_update(u: &Json) -> (r: String)
    ensures
        r@ == update_text(*u),
{
    let first = match u.get("item_list") {
        Some(v) => match v.as_array() {
            Some(items) => if items.len() > 0 {
                match items[0].get("text_item") {
                    Some(ti) => ti.get_str("text"),
                    None => None,
                }
            } else {
                None
            },
            None => None,
        },
        None => None,
    };
    match first {
        Some(t) => clone_string(t),
        None => match u.get_str("text") {
            Some(t) => clone_string(t),
            None => String::new(),
        },
    }
}

/// The group an update came from: a non-empty `group_id`.
pub open spec fn update_group(u: Json) -> Option<Seq<char>> {
    match get_text(u, "group_id"@) {
        Some(g) => if g.len() > 0 {
            Some(g)
        } else {
            None
        },
        None => None,
    }
}

/// Texts exempt from content de-duplication: commands, and numbers (users
/// pick "2" from one list and then "2" from another).
pub open spec fn exempt_from_content_dedup(text: Seq<char>) -> bool {
    (text.len() > 0 && text[0] == '/') || (text.len() > 0 && all_digits(trim(text)))
}

/// The cache key of a content fingerprint.
pub open spec fn fingerprint_key(sender: Seq<char>, text: Seq<char>) -> Seq<char> {
    decimal(content_hash(sender, text) as nat)
}

/// Inbound state of the WeChat adapter: the bot's own account (its echoes
/// are dropped), the CDN base for media URLs, and the ids and content
/// fingerprints seen recently.
pub struct WeixinInbox {
    pub account_id: String,
    pub cdn_base_url: String,
    pub seen: TtlCache,
    pub seen_content: TtlCache,
}

impl WeixinInbox {
    /// An inbox remembering messages for five minutes, up to 2000 at once.
    pub fn new(account_id: String, cdn_base_url: String) -> (r: WeixinInbox)
        ensures
            r.account_id == account_id && r.cdn_base_url == cdn_base_url,
            r.seen.times().len() == 0 && r.seen_content.times().len() == 0,
            r.seen.ttl() == DEDUP_TTL_MS && r.seen_content.ttl() == DEDUP_TTL_MS,
            r.seen.capacity() == DEDUP_MAX_ENTRIES && r.seen_content.capacity() == DEDUP_MAX_ENTRIES,
    {
        WeixinInbox {
            account_id,
            cdn_base_url,
            seen: TtlCache::new(DEDUP_TTL_MS, DEDUP_MAX_ENTRIES),
            seen_content: TtlCache::new(DEDUP_TTL_MS, DEDUP_MAX_ENTRIES),
        }
    }

    /// Reads one update received at `now` (ms); `items` is its `item_list`
    /// as parsed into message items (`None` when absent or malformed).
    /// Repeats of an id seen within the time-to-live are dropped, as are the
    /// bot's own messages, empty ones, and (except for commands and numbers)
    /// a text the same sender sent within the time-to-live under another id.
    pub fn parse_update(&mut self, update: &Json, items: Option<Vec<MessageItem>>, now: u64) -> (r:
        Option<InboundMessage>)
        ensures
            final(self).account_id == old(self).account_id,
            final(self).cdn_base_url == old(self).cdn_base_url,
            final(self).seen.ttl() == old(self).seen.ttl(),
            final(self).seen_content.ttl() == old(self).seen_content.ttl(),
            match update_message_id(*update) {
                None => r is None && final(self).seen.times() == old(self).seen.times()
                    && final(self).seen_content.times() == old(self).seen_content.times(),
                Some(id) => if old(self).seen.fresh(id, now) {
                    r is None && final(self).seen.times() == old(self).seen.times()
                        && final(self).seen_content.times() == old(self).seen_content.times()
                } else {
                    let sender = update_sender(*update);
                    let text = update_text(*update);
                    let atts = match items {
                        Some(v) => attachments_of(v@, old(self).cdn_base_url@),
                        None => Seq::empty(),
                    };
                    let checked = !exempt_from_content_dedup(text);
                    let repeat = checked && old(self).seen_content.fresh(
                        fingerprint_key(sender, text),
                        now,
                    );
                    &&& final(self).seen.fresh(id, now)
                    &&& final(self).seen.times().contains_key(id) && final(self).seen.times()[id] == now
                    &&& (r is Some <==> (sender.len() > 0 && sender != old(self).account_id@ && (
                    text.len() > 0 || atts.len() > 0) && !repeat))
                    &&& (r matches Some(m) ==> {
                        &&& m.message_id@ == id
                        &&& m.sender_id@ == sender
                        &&& m.text@ == text
                        &&& m.media_attachments@.map_values(|a: MediaAttachment| a@) == atts
                        &&& m.media_urls@.len() == atts.len()
                        &&& (forall|i: int| 0 <= i < atts.len() ==> #[trigger] m.media_urls@[i]@ == atts[i].url)
                        &&& m.is_group == (update_group(*update) is Some)
                        &&& m.chat_id@ == match update_group(*update) {
                            Some(g) => g,
                            None => sender,
                        }
                        &&& m.req_id is None
                        &&& (checked ==> final(self).seen_content.fresh(fingerprint_key(sender, text), now))
                    })
                },
            },
    {
        let id = match message_id_of(update) {
            Some(id) => id,
            None => return None,
        };
        if self.seen.check_and_record(id.as_str(), now) {
            return None;
        }
        let sender = match get_either(update, "from_user_id", "sender_id") {
            Some(s) => clone_string(s),
            None => String::new(),
        };
        if sender.as_str().unicode_len() == 0 || str_eq(sender.as_str(), self.account_id.as_str()) {
            return None;
        }
        let text = text_of_update(update);
        let media_attachments = match &items {
            Some(v) => extract_media_attachments(v.as_slice(), self.cdn_base_url.as_str()),
            None => {
                let v: Vec<MediaAttachment> = Vec::new();
                assert(v@.map_values(|a: MediaAttachment| a@) =~= Seq::<MediaAttachmentView>::empty());
                v
            },
        };
        let tc = chars_of(text.as_str());
        if tc.len() == 0 && media_attachments.len() == 0 {
            return None;
        }
        let is_command = tc.len() > 0 && tc[0] == '/';
        let trimmed = trim_chars(&tc);
        let is_numeric_reply = tc.len() > 0 && digits_only(&trimmed);
        if !is_command && !is_numeric_reply {
            let key = decimal_string(fingerprint(sender.as_str(), text.as_str()));
            if self.seen_content.is_fresh(key.as_str(), now) {
                return None;
            }
            self.seen_content.record(key.as_str(), now);
            assert(self.seen_content.fresh(key@, now));
        }
        let ghost content_before = self.seen_content;
        if self.seen_content.len() > DEDUP_MAX_ENTRIES {
            self.seen_content.evict_expired(now);
            proof {
                let k = fingerprint_key(sender@, text@);
                if content_before.fresh(k, now) {
                    assert(self.seen_content.times().contains_key(k));
                    assert(self.seen_content.times()[k] == content_before.times()[k]);
                }
            }
        }
        let group = match update.get_str("group_id") {
            Some(g) => if g.as_str().unicode_len() > 0 {
                Some(clone_string(g))
            } else {
                None
            },
            None => None,
        };
        let is_group = group.is_some();
        let chat_id = match group {
            Some(g) => g,
            None => clone_string(&sender),
        };
        let mut media_urls: Vec<String> = Vec::new();
        let mut i: usize = 0;
        while i < media_attachments.len()
            invariant
                i <= media_attachments@.len(),
                media_urls@.len() == i,
                forall|k: int| 0 <= k < i ==> #[trigger] media_urls@[k]@ == media_attachments@[k].url@,
            decreases media_attachments@.len() - i,
        {
            media_urls.push(clone_string(&media_attachments[i].url));
            i += 1;
        }
        proof {
            assert forall|k: int| 0 <= k < media_attachments@.len() implies media_attachments@.map_values(
                |a: MediaAttachment| a@,
            )[k].url == media_attachments@[k].url@ by {}
        }
        Some(
            InboundMessage {
                message_id: id,
                sender_id: sender,
                chat_id,
                text,
                is_group,
                media_urls,
                media_attachments,
                req_id: None,
            },
        )
    }
}

fn digits_only(s: &Vec<char>) -> (r: bool)
    ensures
        r == all_digits(s@),
{
    let mut i: usize = 0;
    while i < s.len()
        invariant
            i <= s@.len(),
            forall|k: int| 0 <= k < i ==> is_digit(s@[k]),
        decreases s@.len() - i,
    {
        if !('0' <= s[i] && s[i] <= '9') {
            return false;
        }
        i += 1;
    }
    true
}


/// An integer field of a reply.
pub open spec fn int_field(v: Json, key: Seq<char>) -> Option<i64> {
    match json_get(v, key) {
        Some(x) => json_i64(x),
        None => None,
    }
}

fn int_field_of(v: &Json, key: &str) -> (r: Option<i64>)
    ensures
        r == int_field(*v, key@),
{
    match v.get(key) {
        Some(x) => x.as_i64(),
        None => None,
    }
}

/// The reply's `errmsg`, or `default`.
pub open spec fn errmsg_or(v: Json, default: Seq<char>) -> Seq<char> {
    auth_text_or(get_text(v, "errmsg"@), default)
}

fn errmsg_or_text(v: &Json, default: &str) -> (r: String)
    ensures
        r@ == errmsg_or(*v, default@),
{
    match v.get_str("errmsg") {
        Some(m) => clone_string(m),
        None => String::from_str(default),
    }
}

/// The error a `getupdates` reply reports, if any. A non-zero `errcode`, or
/// a `ret` that is neither zero nor the `errcode`, is an error: `-14` (and
/// `-2` with an "unknown error" message) mean the session expired, `-2`
/// otherwise means rate limiting.
pub open spec fn getupdates_error_text(v: Json) -> Option<Seq<char>> {
    let errcode = match int_field(v, "errcode"@) {
        Some(n) => n,
        None => 0,
    };
    let ret = match int_field(v, "ret"@) {
        Some(n) => n,
        None => 0,
    };
    let msg = errmsg_or(v, "unknown error"@);
    if errcode != 0 || (ret != 0 && ret != errcode) {
        if errcode == -14 {
            Some("[session_expired] errcode=-14: "@ + msg)
        } else if errcode == -2 && crate::text::contains_seq(msg, "unknown error"@) {
            Some("[session_expired] stale session errcode=-2: "@ + msg)
        } else if errcode == -2 {
            Some("[rate_limited] errcode=-2: "@ + msg)
        } else {
            Some("getupdates error "@ + signed_decimal(errcode as int) + ": "@ + msg)
        }
    } else {
        None
    }
}

/// The error a `getupdates` reply reports, if any.
pub fn getupdates_error(data: &Json) -> (r: Option<String>)
    ensures
        opt_text(r) == getupdates_error_text(*data),
{
    let errcode = match int_field_of(data, "errcode") {
        Some(n) => n,
        None => 0,
    };
    let ret = match int_field_of(data, "ret") {
        Some(n) => n,
        None => 0,
    };
    if errcode != 0 || (ret != 0 && ret != errcode) {
        let msg = errmsg_or_text(data, "unknown error");
        let mc = chars_of(msg.as_str());
        let mut e = if errcode == -14 {
            String::from_str("[session_expired] errcode=-14: ")
        } else if errcode == -2 && crate::text::contains(mc.as_slice(), chars_of("unknown error").as_slice()) {
            String::from_str("[session_expired] stale session errcode=-2: ")
        } else if errcode == -2 {
            String::from_str("[rate_limited] errcode=-2: ")
        } else {
            let mut e = String::from_str("getupdates error ");
            e.append(signed_decimal_string(errcode).as_str());
            e.append(": ");
            e
        };
        e.append(msg.as_str());
        Some(e)
    } else {
        None
    }
}

/// The new long-poll cursor a reply carries: a non-empty `get_updates_buf`.
pub open spec fn next_sync_buf(v: Json) -> Option<Seq<char>> {
    match get_text(v, "get_updates_buf"@) {
        Some(b) => if b.len() > 0 {
            Some(b)
        } else {
            None
        },
        None => None,
    }
}

/// The long-poll cursor to keep after a `getupdates` reply, if it carries
/// a new one.
pub fn updated_sync_buf(data: &Json) -> (r: Option<String>)
    ensures
        opt_text(r) == next_sync_buf(*data),
{
    match data.get_str("get_updates_buf") {
        Some(b) => if b.as_str().unicode_len() > 0 {
            Some(clone_string(b))
        } else {
            None
        },
        None => None,
    }
}

/// The key a peer's context token is kept under: `<account>:<peer>`.
pub fn context_token_key(account_id: &str, peer_id: &str) -> (r: String)
    ensures
        r@ == account_id@ + ":"@ + peer_id@,
{
    let mut k = String::from_str(account_id);
    k.append(":");
    k.append(peer_id);
    k
}

/// How many times a message is sent before giving up.
pub const MAX_SEND_RETRIES: u32 = 4;

/// How a send attempt ended: with a reply (its `errcode` and `errmsg`) or a
/// transport error.
#[derive(Debug)]
pub enum SendAttempt {
    Reply { errcode: i64, errmsg: String },
    Transport(String),
}

/// What to do after a send attempt.
#[derive(Debug)]
pub enum SendStep {
    /// Stop with this result.
    Done(SendResult),
    /// The session expired: clear the saved session and stop with this result.
    ClearSession(SendResult),
    /// Try again at once, without the context token.
    RetryWithoutToken,
    /// Try again after this many milliseconds.
    RetryAfter(u64),
}

/// The retry policy of a text send. Success ends it; an expired session
/// (`-14`) is retried once without the context token and then clears the
/// session; other failures are retried after 1, 2 and 3 seconds, the fourth
/// failure being final.
pub fn send_step(attempt: u32, outcome: SendAttempt) -> (r: SendStep)
    requires
        attempt < MAX_SEND_RETRIES,
    ensures
        match outcome {
            SendAttempt::Reply { errcode, errmsg } => if errcode == 0 {
                r matches SendStep::Done(res) && res.success && res.message_id is None
            } else if errcode == -14 && attempt == 0 {
                r is RetryWithoutToken
            } else if errcode == -14 {
                r matches SendStep::ClearSession(res) && !res.success && (res.error matches Some(e)
                    && e@ == "session expired, cleared"@)
            } else if attempt < MAX_SEND_RETRIES - 1 {
                r == SendStep::RetryAfter((1000 * (attempt + 1)) as u64)
            } else {
                r matches SendStep::Done(res) && !res.success && (res.error matches Some(e) && e@
                    == "send failed: "@ + signed_decimal(errcode as int) + " "@ + errmsg@)
            },
            SendAttempt::Transport(msg) => if attempt < MAX_SEND_RETRIES - 1 {
                r == SendStep::RetryAfter((1000 * (attempt + 1)) as u64)
            } else {
                r matches SendStep::Done(res) && !res.success && (res.error matches Some(e) && e@
                    == "send failed: "@ + msg@)
            },
        },
{
    match outcome {
        SendAttempt::Reply { errcode, errmsg } => {
            if errcode == 0 {
                return SendStep::Done(SendResult::ok(None));
            }
            if errcode == -14 && attempt == 0 {
                return SendStep::RetryWithoutToken;
            }
            if errcode == -14 {
                return SendStep::ClearSession(SendResult::err("session expired, cleared"));
            }
            if attempt < MAX_SEND_RETRIES - 1 {
                return SendStep::RetryAfter(1000 * (attempt as u64 + 1));
            }
            let mut e = String::from_str("send failed: ");
            e.append(signed_decimal_string(errcode).as_str());
            e.append(" ");
            e.append(errmsg.as_str());
            SendStep::Done(SendResult::err(e.as_str()))
        },
        SendAttempt::Transport(msg) => {
            if attempt < MAX_SEND_RETRIES - 1 {
                return SendStep::RetryAfter(1000 * (attempt as u64 + 1));
            }
            let mut e = String::from_str("send failed: ");
            e.append(msg.as_str());
            SendStep::Done(SendResult::err(e.as_str()))
        },
    }
}

/// The context token sent with attempt `attempt`: the cached one on the
/// first attempt, none after.
pub fn token_for_attempt(attempt: u32, cached: Option<&String>) -> (r: String)
    ensures
        r@ == (if attempt == 0 {
            match cached {
                Some(t) => t@,
                None => Seq::empty(),
            }
        } else {
            Seq::<char>::empty()
        }),
{
    if attempt == 0 {
        match cached {
            Some(t) => clone_string(t),
            None => String::new(),
        }
    } else {
        String::new()
    }
}

/// The wait (ms) after a failed poll, `None` to stop polling (the session
/// expired and is to be cleared). Rate limiting backs off by three seconds
/// per consecutive error (up to ten); other errors wait two seconds, thirty
/// from the third in a row.
pub open spec fn poll_backoff_ms(err: Seq<char>, consecutive: u32) -> Option<u64> {
    if crate::text::contains_seq(err, "[session_expired]"@) {
        None
    } else if crate::text::contains_seq(err, "[rate_limited]"@) {
        Some((3000 * (if consecutive < 10 {
            consecutive as int
        } else {
            10
        })) as u64)
    } else if consecutive >= 3 {
        Some(30_000)
    } else {
        Some(2000)
    }
}

/// How long to wait (ms) after a failed poll, given its error text and the
/// number of failures in a row; `None` when the session expired.
pub fn poll_backoff(err: &str, consecutive: u32) -> (r: Option<u64>)
    ensures
        r == poll_backoff_ms(err@, consecutive),
{
    let ec = chars_of(err);
    if crate::text::contains(ec.as_slice(), chars_of("[session_expired]").as_slice()) {
        None
    } else if crate::text::contains(ec.as_slice(), chars_of("[rate_limited]").as_slice()) {
        let n: u64 = if consecutive < 10 {
            consecutive as u64
        } else {
            10
        };
        Some(3000 * n)
    } else if consecutive >= 3 {
        Some(30_000)
    } else {
        Some(2000)
    }
}

/// The status code of a `getconfig` or `sendtyping` reply: `ret`, else
/// `errcode`, else zero.
pub open spec fn reply_code(v: Json) -> i64 {
    match int_field(v, "ret"@) {
        Some(n) => n,
        None => match int_field(v, "errcode"@) {
            Some(n) => n,
            None => 0,
        },
    }
}

/// The status code of a `getconfig` or `sendtyping` reply.
pub fn reply_code_of(data: &Json) -> (r: i64)
    ensures
        r == reply_code(*data),
{
    match int_field_of(data, "ret") {
        Some(n) => n,
        None => match int_field_of(data, "errcode") {
            Some(n) => n,
            None => 0,
        },
    }
}

/// The typing ticket a successful `getconfig` reply carries (non-empty).
pub open spec fn typing_ticket_of(v: Json) -> Option<Seq<char>> {
    if reply_code(v) != 0 {
        None
    } else {
        match get_text(v, "typing_ticket"@) {
            Some(t) => if t.len() > 0 {
                Some(t)
            } else {
                None
            },
            None => None,
        }
    }
}

/// The typing ticket of a successful `getconfig` reply.
pub fn typing_ticket_from_reply(data: &Json) -> (r: Option<String>)
    ensures
        opt_text(r) == typing_ticket_of(*data),
{
    if reply_code_of(data) != 0 {
        return None;
    }
    match data.get_str("typing_ticket") {
        Some(t) => if t.as_str().unicode_len() > 0 {
            Some(clone_string(t))
        } else {
            None
        },
        None => None,
    }
}


/// An update whose id was recorded at `t1` is a repeat, and so dropped,
/// when the id arrives again before the time-to-live has passed.
pub proof fn lemma_redelivery_dropped(inbox: WeixinInbox, id: Seq<char>, t1: u64, t2: u64)
    requires
        inbox.seen.times().contains_key(id),
        inbox.seen.times()[id] == t1,
        inbox.seen.ttl() == DEDUP_TTL_MS,
        t1 <= t2,
        t2 - t1 < DEDUP_TTL_MS,
    ensures
        inbox.seen.fresh(id, t2),
{
}


/// How long a typing ticket stays usable (ms): a day.
pub const TYPING_TICKET_TTL_MS: u64 = 86_400_000;
/// `sendtyping` status that starts the typing indicator.
pub const TYPING_STATUS_TYPING: i64 = 1;
/// `sendtyping` status that cancels it.
pub const TYPING_STATUS_CANCEL: i64 = 2;
/// The channel version sent in `base_info`.
pub const CHANNEL_VERSION: &'static str = "2.2.0";

/// The ticket held for a chat and when it was fetched: the first entry for
/// the chat.
pub open spec fn ticket_entry(entries: Seq<(String, String, u64)>, chat: Seq<char>) -> Option<(Seq<char>, u64)>
    decreases entries.len(),
{
    if entries.len() == 0 {
        None
    } else if entries[0].0@ == chat {
        Some((entries[0].1@, entries[0].2))
    } else {
        ticket_entry(entries.drop_first(), chat)
    }
}

/// Typing tickets fetched per chat, with the time (ms) each was fetched.
pub struct TypingTickets {
    entries: Vec<(String, String, u64)>,
}

impl TypingTickets {
    /// The ticket and fetch time held for a chat.
    pub closed spec fn entry(self, chat: Seq<char>) -> Option<(Seq<char>, u64)> {
        ticket_entry(self.entries@, chat)
    }

    /// No tickets yet.
    pub fn new() -> (r: TypingTickets)
        ensures
            forall|c: Seq<char>| r.entry(c) is None,
    {
        TypingTickets { entries: Vec::new() }
    }

    fn position(&self, chat: &str) -> (r: Option<usize>)
        ensures
            match r {
                Some(i) => i < self.entries@.len() && self.entries@[i as int].0@ == chat@ && forall|k: int|
                    0 <= k < i ==> #[trigger] self.entries@[k].0@ != chat@,
                None => forall|k: int| 0 <= k < self.entries@.len() ==> #[trigger] self.entries@[k].0@ != chat@,
            },
    {
        let mut i: usize = 0;
        while i < self.entries.len()
            invariant
                i <= self.entries@.len(),
                forall|k: int| 0 <= k < i ==> #[trigger] self.entries@[k].0@ != chat@,
            decreases self.entries@.len() - i,
        {
            if str_eq(self.entries[i].0.as_str(), chat) {
                return Some(i);
            }
            i += 1;
        }
        None
    }

    proof fn lemma_entry_at(entries: Seq<(String, String, u64)>, chat: Seq<char>, i: int)
        requires
            0 <= i <= entries.len(),
            forall|k: int| 0 <= k < i ==> #[trigger] entries[k].0@ != chat,
        ensures
            ticket_entry(entries, chat) == ticket_entry(entries.skip(i), chat),
        decreases i,
    {
        if i > 0 {
            let rest = entries.drop_first();
            assert forall|k: int| 0 <= k < i - 1 implies #[trigger] rest[k].0@ != chat by {
                assert(rest[k] == entries[k + 1]);
            }
            Self::lemma_entry_at(rest, chat, i - 1);
            assert(rest.skip(i - 1) =~= entries.skip(i));
        } else {
            assert(entries.skip(0) =~= entries);
        }
    }

    /// The chat's ticket when it was fetched less than a day before `now`.
    pub fn fresh_ticket(&self, chat: &str, now: u64) -> (r: Option<String>)
        ensures
            match self.entry(chat@) {
                Some((t, at)) => if still_fresh(at, now, TYPING_TICKET_TTL_MS) {
                    r matches Some(x) && x@ == t
                } else {
                    r is None
                },
                None => r is None,
            },
    {
        match self.position(chat) {
            Some(i) => {
                proof {
                    Self::lemma_entry_at(self.entries@, chat@, i as int);
                    assert(self.entries@.skip(i as int)[0] == self.entries@[i as int]);
                }
                let at = self.entries[i].2;
                let fresh = if now >= at {
                    now - at < TYPING_TICKET_TTL_MS
                } else {
                    true
                };
                if fresh {
                    Some(clone_string(&self.entries[i].1))
                } else {
                    None
                }
            },
            None => {
                proof {
                    Self::lemma_entry_at(self.entries@, chat@, self.entries@.len() as int);
                }
                None
            },
        }
    }

    /// Keeps `ticket` for the chat, fetched at `now`, in place of any other.
    pub fn store(&mut self, chat: &str, ticket: String, now: u64)
        ensures
            final(self).entry(chat@) == Some((ticket@, now)),
            forall|c: Seq<char>| c != chat@ ==> #[trigger] final(self).entry(c) == old(self).entry(c),
    {
        let ghost before = self.entries@;
        match self.position(chat) {
            Some(i) => {
                self.entries.set(i, (String::from_str(chat), ticket, now));
                proof {
                    let after = self.entries@;
                    Self::lemma_entry_at(after, chat@, i as int);
                    assert(after.skip(i as int)[0] == after[i as int]);
                    assert forall|c: Seq<char>| c != chat@ implies #[trigger] ticket_entry(after, c) == ticket_entry(before, c) by {
                        Self::lemma_same_except(before, after, i as int, c);
                    }
                }
            },
            None => {
                self.entries.push((String::from_str(chat), ticket, now));
                proof {
                    let after = self.entries@;
                    assert forall|k: int| 0 <= k < before.len() implies #[trigger] after[k].0@ != chat@ by {
                        assert(after[k] == before[k]);
                    }
                    Self::lemma_entry_at(after, chat@, before.len() as int);
                    assert(after.skip(before.len() as int)[0] == after[before.len() as int]);
                    assert forall|c: Seq<char>| c != chat@ implies #[trigger] ticket_entry(after, c) == ticket_entry(before, c) by {
                        Self::lemma_push_other(before, after, c);
                    }
                }
            },
        }
    }

    proof fn lemma_same_except(before: Seq<(String, String, u64)>, after: Seq<(String, String, u64)>, i: int, c: Seq<char>)
        requires
            0 <= i < before.len(),
            after.len() == before.len(),
            forall|k: int| 0 <= k < before.len() && k != i ==> after[k] == before[k],
            after[i].0@ == before[i].0@,
            c != before[i].0@,
        ensures
            ticket_entry(after, c) == ticket_entry(before, c),
        decreases before.len(),
    {
        if before.len() > 0 {
            if i == 0 {
                assert(after.drop_first() =~= before.drop_first());
            } else {
                assert(after[0] == before[0]);
                let (b1, a1) = (before.drop_first(), after.drop_first());
                assert forall|k: int| 0 <= k < b1.len() && k != i - 1 implies a1[k] == b1[k] by {
                    assert(a1[k] == after[k + 1]);
                    assert(b1[k] == before[k + 1]);
                }
                Self::lemma_same_except(b1, a1, i - 1, c);
            }
        }
    }

    proof fn lemma_push_other(before: Seq<(String, String, u64)>, after: Seq<(String, String, u64)>, c: Seq<char>)
        requires
            after.len() == before.len() + 1,
            forall|k: int| 0 <= k < before.len() ==> after[k] == before[k],
            after[before.len() as int].0@ != c,
        ensures
            ticket_entry(after, c) == ticket_entry(before, c),
        decreases before.len(),
    {
        if before.len() == 0 {
            assert(after.drop_first() =~= Seq::<(String, String, u64)>::empty());
            assert(ticket_entry(after.drop_first(), c) is None);
        } else {
            assert(after[0] == before[0]);
            let (b1, a1) = (before.drop_first(), after.drop_first());
            assert forall|k: int| 0 <= k < b1.len() implies a1[k] == b1[k] by {
                assert(a1[k] == after[k + 1]);
            }
            assert(a1[b1.len() as int] == after[before.len() as int]);
            Self::lemma_push_other(b1, a1, c);
        }
    }
}

/// The ticket to use for a typing update: cancelling only uses a ticket
/// already held and still fresh; starting uses one held and fresh, else
/// one is to be fetched (`None` with `fetch` true).
pub fn typing_ticket_choice(tickets: &TypingTickets, chat: &str, status: i64, now: u64) -> (r: (Option<String>, bool))
    ensures
        opt_text(r.0) == match tickets.entry(chat@) {
            Some((t, at)) => if still_fresh(at, now, TYPING_TICKET_TTL_MS) {
                Some(t)
            } else {
                None
            },
            None => None,
        },
        r.1 == (r.0 is None && status != TYPING_STATUS_CANCEL),
{
    let t = tickets.fresh_ticket(chat, now);
    let fetch = t.is_none() && status != TYPING_STATUS_CANCEL;
    (t, fetch)
}

/// The `getconfig` request for a chat; the context token is left out when
/// there is none.
pub fn getconfig_body(chat_id: &str, context_token: Option<&str>) -> (r: Json)
    ensures
        get_text(r, "ilink_user_id"@) == Some(chat_id@),
        get_text(r, "context_token"@) == match context_token {
            Some(t) => Some(t@),
            None => None::<Seq<char>>,
        },
        json_get(r, "context_token"@) is Some <==> context_token is Some,
        (json_get(r, "base_info"@) matches Some(b) && get_text(b, "channel_version"@) == Some(CHANNEL_VERSION@)),
{
    let mut fs: Vec<(String, Json)> = Vec::new();
    fs.push((String::from_str("ilink_user_id"), Json::Str(String::from_str(chat_id))));
    match context_token {
        Some(t) => fs.push((String::from_str("context_token"), Json::Str(String::from_str(t)))),
        None => {},
    }
    let mut info: Vec<(String, Json)> = Vec::new();
    info.push((String::from_str("channel_version"), Json::Str(String::from_str(CHANNEL_VERSION))));
    fs.push((String::from_str("base_info"), Json::Object(info)));
    proof {
        reveal_strlit("ilink_user_id");
        reveal_strlit("context_token");
        reveal_strlit("base_info");
        reveal_strlit("channel_version");
        assert("ilink_user_id"@[0] != "context_token"@[0]);
        assert("base_info"@.len() != "context_token"@.len());
        reveal_with_fuel(crate::json::find_key, 4);
    }
    Json::Object(fs)
}

} // verus!
