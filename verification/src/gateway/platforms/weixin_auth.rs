//! WeChat iLink Bot QR-code login: reading the login API's replies and
//! where the session is kept.
use vstd::prelude::*;
use vstd::utf8::encode_utf8;
use crate::crypto::{base64_encode, base64_standard_encoded};
use crate::json::{get_text, json_get, json_i64, Json};
use crate::text::{clone_string, decimal, decimal_string};

verus! {

/// A login session as saved to `~/.tiy/gateway/weixin/session.json`.
#[derive(Debug, Clone)]
pub struct WeixinSession {
    /// Bearer token for the iLink API.
    pub token: String,
    /// Bot account ID.
    pub account_id: String,
    /// When the session was created (Unix seconds).
    pub created_at: i64,
}

/// The session an optional reference points to.
pub open spec fn deref_session(o: Option<&WeixinSession>) -> Option<WeixinSession> {
    match o {
        Some(s) => Some(*s),
        None => None,
    }
}

/// Status of the login polling loop.
#[derive(Debug, Clone)]
pub enum LoginPollStatus {
    /// QR code generated, waiting for a scan.
    WaitingScan,
    /// Scanned, not yet confirmed.
    WaitingConfirm,
    /// Logged in; the token was acquired.
    Success { session: WeixinSession },
    /// Login failed.
    Failed { error: String },
    /// The QR code expired.
    Expired,
}

/// Result of the initial QR code request.
#[derive(Debug, Clone)]
pub struct QrLoginResult {
    /// QR code image as base64-encoded PNG.
    pub qr_image_base64: Option<String>,
    /// QR code URL, when given.
    pub qr_url: Option<String>,
    /// Identifier of this login, used by the status polls.
    pub login_uuid: String,
}

/// `https://<base>/ilink/bot/<endpoint>`.
pub open spec fn api_url_text(base: Seq<char>, endpoint: Seq<char>) -> Seq<char> {
    "https://"@ + base + "/ilink/bot/"@ + endpoint
}

/// Build the full iLink API URL.
pub fn api_url(base_url: &str, endpoint: &str) -> (r: String)
    ensures
        r@ == api_url_text(base_url@, endpoint@),
{
    let mut s = String::from_str("https://");
    s.append(base_url);
    s.append("/ilink/bot/");
    s.append(endpoint);
    s
}

/// `path` joined with a relative `rest` as `PathBuf::join` does on Unix:
/// a separator is put between unless `path` is empty or already ends in one.
pub open spec fn path_join(path: Seq<char>, rest: Seq<char>) -> Seq<char> {
    if path.len() == 0 || path.last() == '/' {
        path + rest
    } else {
        path + seq!['/'] + rest
    }
}

pub(crate) fn join_path(path: &str, rest: &str) -> (r: String)
    ensures
        r@ == path_join(path@, rest@),
{
    let cs = crate::text::chars_of(path);
    let mut s = String::from_str(path);
    if cs.len() > 0 && cs[cs.len() - 1] != '/' {
        s.append("/");
    }
    s.append(rest);
    proof {
        reveal_strlit("/");
    }
    s
}

/// The weixin state directory under a home directory (the current
/// directory when there is none).
pub open spec fn state_dir_under(home: Option<Seq<char>>) -> Seq<char> {
    let base = match home {
        Some(h) => h,
        None => "."@,
    };
    path_join(base, ".tiy/gateway/weixin"@)
}

/// The session file under a home directory.
pub open spec fn session_path_under(home: Option<Seq<char>>) -> Seq<char> {
    path_join(state_dir_under(home), "session.json"@)
}

/// The persistence directory of the weixin session:
/// `~/.tiy/gateway/weixin`.
pub fn weixin_state_dir() -> (r: String)
    ensures
        exists|home: Option<Seq<char>>| r@ == state_dir_under(home),
{
    let home = home_dir();
    match &home {
        Some(h) => {
            let r = join_path(h.as_str(), ".tiy/gateway/weixin");
            assert(r@ == state_dir_under(Some(h@)));
            r
        },
        None => {
            let r = join_path(".", ".tiy/gateway/weixin");
            assert(r@ == state_dir_under(None));
            r
        },
    }
}

/// The weixin state directory's session file for a given home directory.
pub fn session_file_path_under(home: Option<&str>) -> (r: String)
    ensures
        r@ == session_path_under(match home {
            Some(h) => Some(h@),
            None => None,
        }),
{
    let dir = match home {
        Some(h) => join_path(h, ".tiy/gateway/weixin"),
        None => join_path(".", ".tiy/gateway/weixin"),
    };
    join_path(dir.as_str(), "session.json")
}

/// dirs: `home_dir()`, the user's home directory as text; which one it is
/// depends on the environment, so nothing is stated of it.
#[verifier::external_body]
pub(crate) fn home_dir() -> (r: Option<String>) {
    dirs::home_dir().map(|p| p.to_string_lossy().into_owned())
}

/// The session file path: `~/.tiy/gateway/weixin/session.json`.
pub fn session_file_path() -> (r: String)
    ensures
        exists|home: Option<Seq<char>>| r@ == session_path_under(home),
{
    let home = home_dir();
    let r = match &home {
        Some(h) => session_file_path_under(Some(h.as_str())),
        None => session_file_path_under(None),
    };
    r
}

/// The first string among `v[a]`, `v[b]`.
pub open spec fn text_either(v: Json, a: Seq<char>, b: Seq<char>) -> Option<Seq<char>> {
    match json_get(v, a) {
        Some(x) => match x {
            Json::Str(s) => Some(s@),
            _ => None,
        },
        None => get_text(v, b),
    }
}

/// The first string among `v[a]`, `v[b]` (`v[a]` counts when present,
/// string or not).
pub fn get_either<'a>(v: &'a Json, a: &str, b: &str) -> (r: Option<&'a String>)
    ensures
        match r {
            Some(s) => text_either(*v, a@, b@) == Some(s@),
            None => text_either(*v, a@, b@) is None,
        },
{
    match v.get(a) {
        Some(x) => x.as_str(),
        None => v.get_str(b),
    }
}

/// The reply's `errcode`, `-1` when missing or not an integer.
pub open spec fn errcode_of(v: Json) -> i64 {
    match json_get(v, "errcode"@) {
        Some(x) => match json_i64(x) {
            Some(n) => n,
            None => -1i64,
        },
        None => -1i64,
    }
}

fn errcode(v: &Json) -> (r: i64)
    ensures
        r == errcode_of(*v),
{
    match v.get("errcode") {
        Some(x) => match x.as_i64() {
            Some(n) => n,
            None => -1,
        },
        None => -1,
    }
}

/// The decimal text of a signed integer.
pub open spec fn signed_decimal(n: int) -> Seq<char> {
    if n < 0 {
        seq!['-'] + decimal((-n) as nat)
    } else {
        decimal(n as nat)
    }
}

/// The decimal text of a signed integer.
pub fn signed_decimal_string(n: i64) -> (r: String)
    ensures
        r@ == signed_decimal(n as int),
{
    if n < 0 {
        let m: u64 = if n == i64::MIN {
            9223372036854775808u64
        } else {
            (-n) as u64
        };
        let mut s = String::from_str("-");
        s.append(decimal_string(m).as_str());
        proof {
            reveal_strlit("-");
        }
        s
    } else {
        decimal_string(n as u64)
    }
}

/// The text at `v[key]`, or `default`.
pub open spec fn text_or(t: Option<Seq<char>>, default: Seq<char>) -> Seq<char> {
    match t {
        Some(s) => s,
        None => default,
    }
}

/// The account a successful reply names: `account_id`, `bot_id` or `user_id`.
pub open spec fn login_account_of(v: Json) -> Seq<char> {
    match json_get(v, "account_id"@) {
        Some(x) => text_or(json_text_opt(x), Seq::empty()),
        None => text_or(text_either(v, "bot_id"@, "user_id"@), Seq::empty()),
    }
}

/// The text of an optional JSON string value.
pub open spec fn json_text_opt(x: Json) -> Option<Seq<char>> {
    match x {
        Json::Str(s) => Some(s@),
        _ => None,
    }
}

/// The reply's `errmsg`, or `default`.
pub open spec fn errmsg_of(v: Json, default: Seq<char>) -> Seq<char> {
    text_or(get_text(v, "errmsg"@), default)
}

/// Interprets a `checklogin` reply. `0` is success when a token is given
/// (`token` or `auth_token`); `408` waits for the scan, `201` for the
/// confirmation; `400` and `402` mean the code expired; anything else fails
/// with the reply's code and message.
pub fn login_status_from_reply(data: &Json, now: i64) -> (r: LoginPollStatus)
    ensures
        ({
            let code = errcode_of(*data);
            let token = text_or(text_either(*data, "token"@, "auth_token"@), Seq::empty());
            match r {
                LoginPollStatus::Success { session } => code == 0 && token.len() > 0
                    && session.token@ == token && session.account_id@ == login_account_of(*data)
                    && session.created_at == now,
                LoginPollStatus::Failed { error } => (code == 0 && token.len() == 0
                    && error@ == "login response missing token"@) || (code != 0 && code != 408
                    && code != 201 && code != 400 && code != 402 && error@
                    == "checklogin error "@ + signed_decimal(code as int) + ": "@ + errmsg_of(
                    *data,
                    "unknown"@,
                )),
                LoginPollStatus::WaitingScan => code == 408,
                LoginPollStatus::WaitingConfirm => code == 201,
                LoginPollStatus::Expired => code == 400 || code == 402,
            }
        }),
{
    let code = errcode(data);
    if code == 0 {
        let token = match get_either(data, "token", "auth_token") {
            Some(t) => clone_string(t),
            None => String::new(),
        };
        let account_id = match data.get("account_id") {
            Some(x) => match x.as_str() {
                Some(s) => clone_string(s),
                None => String::new(),
            },
            None => match get_either(data, "bot_id", "user_id") {
                Some(s) => clone_string(s),
                None => String::new(),
            },
        };
        if token.as_str().unicode_len() == 0 {
            return LoginPollStatus::Failed { error: String::from_str("login response missing token") };
        }
        LoginPollStatus::Success { session: WeixinSession { token, account_id, created_at: now } }
    } else if code == 408 {
        LoginPollStatus::WaitingScan
    } else if code == 201 {
        LoginPollStatus::WaitingConfirm
    } else if code == 400 || code == 402 {
        LoginPollStatus::Expired
    } else {
        let msg = match data.get_str("errmsg") {
            Some(m) => clone_string(m),
            None => String::from_str("unknown"),
        };
        let mut error = String::from_str("checklogin error ");
        error.append(signed_decimal_string(code).as_str());
        error.append(": ");
        error.append(msg.as_str());
        LoginPollStatus::Failed { error }
    }
}

/// Interprets a `getqrcode` reply (`raw` is its text, quoted in the error
/// when the reply carries no QR data at all). A non-zero `errcode` fails
/// with the reply's code and message.
pub fn qr_login_from_reply(data: &Json, raw: &str) -> (r: Result<QrLoginResult, String>)
    ensures
        ({
            let code = errcode_of(*data);
            let image = text_either(*data, "qr_code"@, "qrcode"@);
            let url = text_either(*data, "qr_url"@, "url"@);
            let uuid = text_or(text_either(*data, "uuid"@, "login_uuid"@), Seq::empty());
            match r {
                Ok(q) => code == 0 && !(uuid.len() == 0 && image is None && url is None)
                    && crate::persistence::rows::opt_text(q.qr_image_base64) == image
                    && crate::persistence::rows::opt_text(q.qr_url) == url && q.login_uuid@ == uuid,
                Err(e) => if code != 0 {
                    e@ == "getqrcode failed: "@ + signed_decimal(code as int) + " "@ + errmsg_of(
                        *data,
                        "unknown error"@,
                    )
                } else {
                    uuid.len() == 0 && image is None && url is None && e@
                        == "getqrcode response missing QR data: "@ + raw@
                },
            }
        }),
{
    let code = errcode(data);
    if code != 0 {
        let msg = match data.get_str("errmsg") {
            Some(m) => clone_string(m),
            None => String::from_str("unknown error"),
        };
        let mut e = String::from_str("getqrcode failed: ");
        e.append(signed_decimal_string(code).as_str());
        e.append(" ");
        e.append(msg.as_str());
        return Err(e);
    }
    let qr_image_base64 = match get_either(data, "qr_code", "qrcode") {
        Some(s) => Some(clone_string(s)),
        None => None,
    };
    let qr_url = match get_either(data, "qr_url", "url") {
        Some(s) => Some(clone_string(s)),
        None => None,
    };
    let login_uuid = match get_either(data, "uuid", "login_uuid") {
        Some(s) => clone_string(s),
        None => String::new(),
    };
    if login_uuid.as_str().unicode_len() == 0 && qr_image_base64.is_none() && qr_url.is_none() {
        let mut e = String::from_str("getqrcode response missing QR data: ");
        e.append(raw);
        return Err(e);
    }
    Ok(QrLoginResult { qr_image_base64, qr_url, login_uuid })
}


/// How many times the login status is polled before giving up.
pub const MAX_POLL_ATTEMPTS: u32 = 100;
/// Seconds between two polls of the login status.
pub const LOGIN_POLL_INTERVAL_SECS: u64 = 3;

/// What the QR login loop does after a poll.
#[derive(Debug)]
pub enum LoginStep {
    /// Logged in with this session.
    Done(WeixinSession),
    /// Wait and poll again.
    Poll,
    /// Stop with this error.
    Fail(String),
}

/// The decision of the QR login loop after poll number `attempt` (from 0)
/// gave `status`: a session ends it, an expiry or a failure stops it, and
/// waiting polls again until the attempts are used up.
pub fn login_step(status: LoginPollStatus, attempt: u32) -> (r: LoginStep)
    ensures
        match status {
            LoginPollStatus::Success { session } => r == LoginStep::Done(session),
            LoginPollStatus::Expired => r matches LoginStep::Fail(e) && e@ == "QR code expired, please retry"@,
            LoginPollStatus::Failed { error } => r matches LoginStep::Fail(e) && e@ == "login failed: "@ + error@,
            _ => if attempt + 1 < MAX_POLL_ATTEMPTS {
                r is Poll
            } else {
                r matches LoginStep::Fail(e) && e@ == "login timed out after 100 attempts"@
            },
        },
{
    match status {
        LoginPollStatus::Success { session } => LoginStep::Done(session),
        LoginPollStatus::Expired => LoginStep::Fail(String::from_str("QR code expired, please retry")),
        LoginPollStatus::Failed { error } => {
            let mut e = String::from_str("login failed: ");
            e.append(error.as_str());
            LoginStep::Fail(e)
        },
        _ => if attempt < MAX_POLL_ATTEMPTS - 1 {
            LoginStep::Poll
        } else {
            LoginStep::Fail(String::from_str("login timed out after 100 attempts"))
        },
    }
}


/// uuid: the first four bytes of `Uuid::now_v7()`, read big-endian. They
/// hold the current time, so nothing is stated of them.
#[verifier::external_body]
fn uuid_v7_prefix() -> (r: u32) {
    let id = uuid::Uuid::now_v7();
    let b = id.as_bytes();
    u32::from_be_bytes([b[0], b[1], b[2], b[3]])
}

/// The `X-WECHAT-UIN` header value for a number: the base64 of its decimal
/// text.
pub fn wechat_uin_for(uin: u32) -> (r: String)
    ensures
        r@ == base64_standard_encoded(encode_utf8(decimal(uin as nat))),
{
    let d = decimal_string(uin as u64);
    base64_encode(d.as_str().as_bytes())
}

/// A new `X-WECHAT-UIN` header value, from the leading bits of a fresh
/// time-ordered UUID.
pub fn new_wechat_uin() -> (r: String)
    ensures
        exists|n: u32| r@ == base64_standard_encoded(encode_utf8(decimal(n as nat))),
{
    let n = uuid_v7_prefix();
    wechat_uin_for(n)
}

} // verus!
