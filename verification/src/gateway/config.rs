//! Gateway configuration: per-platform settings, their defaults, the
//! policies for group and direct messages, and the frontend view of it all.
use vstd::prelude::*;
use crate::gateway::platforms::weixin_auth::{deref_session, home_dir, join_path, path_join, WeixinSession};
use crate::gateway::traits::{platform_name, Platform};
use crate::text::{clone_string, lower_text, str_eq, to_lowercase};

verus! {

/// Group message policy (Feishu).
#[derive(Debug, Clone, Copy, PartialEq, Eq, Hash, Structural)]
pub enum GroupPolicy {
    Open,
    Allowlist,
    Blacklist,
    Disabled,
}

impl Default for GroupPolicy {
    fn default() -> (r: GroupPolicy)
        ensures
            r == GroupPolicy::Open,
    {
        GroupPolicy::Open
    }
}

/// Direct message policy (WhatsApp).
#[derive(Debug, Clone, Copy, PartialEq, Eq, Hash, Structural)]
pub enum DmPolicy {
    Open,
    Allowlist,
    Disabled,
}

impl Default for DmPolicy {
    fn default() -> (r: DmPolicy)
        ensures
            r == DmPolicy::Open,
    {
        DmPolicy::Open
    }
}

impl GroupPolicy {
    /// The configuration name of the policy (its `Display` form).
    pub open spec fn name(self) -> Seq<char> {
        match self {
            GroupPolicy::Open => "open"@,
            GroupPolicy::Allowlist => "allowlist"@,
            GroupPolicy::Blacklist => "blacklist"@,
            GroupPolicy::Disabled => "disabled"@,
        }
    }

    /// The policy an already lower-cased name denotes.
    pub open spec fn from_name(s: Seq<char>) -> Option<GroupPolicy> {
        if s == "open"@ {
            Some(GroupPolicy::Open)
        } else if s == "allowlist"@ {
            Some(GroupPolicy::Allowlist)
        } else if s == "blacklist"@ {
            Some(GroupPolicy::Blacklist)
        } else if s == "disabled"@ {
            Some(GroupPolicy::Disabled)
        } else {
            None
        }
    }

    /// The stored name.
    pub fn as_str(&self) -> (r: &'static str)
        ensures
            r@ == self.name(),
    {
        match self {
            GroupPolicy::Open => "open",
            GroupPolicy::Allowlist => "allowlist",
            GroupPolicy::Blacklist => "blacklist",
            GroupPolicy::Disabled => "disabled",
        }
    }

    /// The policy's name as an owned string (its `Display` form).
    pub fn to_string(&self) -> (r: String)
        ensures
            r@ == self.name(),
    {
        String::from_str(self.as_str())
    }

    /// Parses a policy name case-insensitively; the error names the
    /// lower-cased value.
    pub fn parse(s: &str) -> (r: Result<GroupPolicy, String>)
        ensures
            match r {
                Ok(p) => GroupPolicy::from_name(lower_text(s@)) == Some(p),
                Err(e) => GroupPolicy::from_name(lower_text(s@)) is None && e@
                    == "unknown group_policy: "@ + lower_text(s@),
            },
    {
        let lower = to_lowercase(s);
        let l = lower.as_str();
        if str_eq(l, "open") {
            Ok(GroupPolicy::Open)
        } else if str_eq(l, "allowlist") {
            Ok(GroupPolicy::Allowlist)
        } else if str_eq(l, "blacklist") {
            Ok(GroupPolicy::Blacklist)
        } else if str_eq(l, "disabled") {
            Ok(GroupPolicy::Disabled)
        } else {
            let mut e = String::from_str("unknown group_policy: ");
            e.append(l);
            Err(e)
        }
    }
}

impl DmPolicy {
    /// The configuration name of the policy (its `Display` form).
    pub open spec fn name(self) -> Seq<char> {
        match self {
            DmPolicy::Open => "open"@,
            DmPolicy::Allowlist => "allowlist"@,
            DmPolicy::Disabled => "disabled"@,
        }
    }

    /// The policy an already lower-cased name denotes.
    pub open spec fn from_name(s: Seq<char>) -> Option<DmPolicy> {
        if s == "open"@ {
            Some(DmPolicy::Open)
        } else if s == "allowlist"@ {
            Some(DmPolicy::Allowlist)
        } else if s == "disabled"@ {
            Some(DmPolicy::Disabled)
        } else {
            None
        }
    }

    /// The stored name.
    pub fn as_str(&self) -> (r: &'static str)
        ensures
            r@ == self.name(),
    {
        match self {
            DmPolicy::Open => "open",
            DmPolicy::Allowlist => "allowlist",
            DmPolicy::Disabled => "disabled",
        }
    }

    /// The policy's name as an owned string (its `Display` form).
    pub fn to_string(&self) -> (r: String)
        ensures
            r@ == self.name(),
    {
        String::from_str(self.as_str())
    }

    /// Parses a policy name case-insensitively; the error names the
    /// lower-cased value.
    pub fn parse(s: &str) -> (r: Result<DmPolicy, String>)
        ensures
            match r {
                Ok(p) => DmPolicy::from_name(lower_text(s@)) == Some(p),
                Err(e) => DmPolicy::from_name(lower_text(s@)) is None && e@ == "unknown dm_policy: "@
                    + lower_text(s@),
            },
    {
        let lower = to_lowercase(s);
        let l = lower.as_str();
        if str_eq(l, "open") {
            Ok(DmPolicy::Open)
        } else if str_eq(l, "allowlist") {
            Ok(DmPolicy::Allowlist)
        } else if str_eq(l, "disabled") {
            Ok(DmPolicy::Disabled)
        } else {
            let mut e = String::from_str("unknown dm_policy: ");
            e.append(l);
            Err(e)
        }
    }
}

/// A policy's name, lower-cased, reads back as the same policy.
pub proof fn lemma_group_policy_round_trip(p: GroupPolicy)
    ensures
        GroupPolicy::from_name(p.name()) == Some(p),
{
    reveal_strlit("open");
    reveal_strlit("allowlist");
    reveal_strlit("blacklist");
    reveal_strlit("disabled");
    assert("open"@.len() == 4 && "allowlist"@.len() == 9 && "blacklist"@.len() == 9);
    assert("allowlist"@[0] != "blacklist"@[0] && "disabled"@.len() == 8);
}

/// A policy's name, lower-cased, reads back as the same policy.
pub proof fn lemma_dm_policy_round_trip(p: DmPolicy)
    ensures
        DmPolicy::from_name(p.name()) == Some(p),
{
    reveal_strlit("open");
    reveal_strlit("allowlist");
    reveal_strlit("disabled");
    assert("open"@.len() == 4 && "allowlist"@.len() == 9 && "disabled"@.len() == 8);
}

/// Top-level gateway configuration (the chunk delay, a fraction of
/// seconds, is read where messages are sent).
#[derive(Clone)]
pub struct GatewayConfig {
    /// Which platform to activate.
    pub platform: Platform,
    /// Timeout in seconds for tool approval requests sent via IM.
    pub approval_timeout_seconds: u64,
    pub weixin: Option<WeixinConfig>,
    pub wecom: Option<WecomConfig>,
    pub feishu: Option<FeishuConfig>,
    pub whatsapp: Option<WhatsAppConfig>,
}

/// Whether the configuration has the section of its active platform.
pub open spec fn has_active_section(c: GatewayConfig) -> bool {
    match c.platform {
        Platform::Weixin => c.weixin is Some,
        Platform::Wecom => c.wecom is Some,
        Platform::Feishu => c.feishu is Some,
        Platform::WhatsApp => c.whatsapp is Some,
    }
}

/// The complaint about a missing section of the active platform.
pub open spec fn missing_section_message(p: Platform) -> Seq<char> {
    "platform is '"@ + platform_name(p) + "' but ["@ + platform_name(p)
        + "] config section is missing"@
}

impl GatewayConfig {
    /// Validate that the required platform config section is present.
    pub fn validate(&self) -> (r: Result<(), String>)
        ensures
            r is Ok <==> has_active_section(*self),
            r matches Err(e) ==> e@ == missing_section_message(self.platform),
    {
        let missing = match self.platform {
            Platform::Weixin => self.weixin.is_none(),
            Platform::Wecom => self.wecom.is_none(),
            Platform::Feishu => self.feishu.is_none(),
            Platform::WhatsApp => self.whatsapp.is_none(),
        };
        if missing {
            let name = self.platform.as_str();
            let mut e = String::from_str("platform is '");
            e.append(name);
            e.append("' but [");
            e.append(name);
            e.append("] config section is missing");
            Err(e)
        } else {
            Ok(())
        }
    }
}

/// WeChat iLink Bot configuration.
#[derive(Clone)]
pub struct WeixinConfig {
    pub enabled: bool,
    /// The iLink bot account ID (empty when obtained by QR login).
    pub account_id: String,
    /// Bearer token; when absent or empty the saved login session is used.
    pub token: Option<String>,
    pub base_url: String,
    /// CDN base URL for media upload and download.
    pub cdn_base_url: String,
}

/// The token in use: the configured one unless it is absent or empty, else
/// that of the saved login session.
pub open spec fn effective_token_of(c: WeixinConfig, session: Option<WeixinSession>) -> Option<Seq<char>> {
    match c.token {
        Some(t) if t@.len() > 0 => Some(t@),
        _ => match session {
            Some(s) => Some(s.token@),
            None => None,
        },
    }
}

/// The account in use: the configured one unless empty, else that of the
/// saved login session, else empty.
pub open spec fn effective_account_of(c: WeixinConfig, session: Option<WeixinSession>) -> Seq<char> {
    if c.account_id@.len() > 0 {
        c.account_id@
    } else {
        match session {
            Some(s) => s.account_id@,
            None => Seq::empty(),
        }
    }
}

impl WeixinConfig {
    /// Resolve the effective token: configured value first, then the saved
    /// session (`None`: a QR login is needed).
    pub fn effective_token(&self, session: Option<&WeixinSession>) -> (r: Option<String>)
        ensures
            match r {
                Some(t) => effective_token_of(*self, deref_session(session)) == Some(t@),
                None => effective_token_of(*self, deref_session(session)) is None,
            },
    {
        if let Some(t) = &self.token {
            if t.as_str().unicode_len() > 0 {
                return Some(clone_string(t));
            }
        }
        match session {
            Some(s) => Some(clone_string(&s.token)),
            None => None,
        }
    }

    /// Resolve the effective account id: configured value first, then the
    /// saved session.
    pub fn effective_account_id(&self, session: Option<&WeixinSession>) -> (r: String)
        ensures
            r@ == effective_account_of(*self, deref_session(session)),
    {
        if self.account_id.as_str().unicode_len() > 0 {
            return clone_string(&self.account_id);
        }
        match session {
            Some(s) => clone_string(&s.account_id),
            None => String::new(),
        }
    }
}

/// WeCom AI Bot WebSocket configuration.
#[derive(Clone)]
pub struct WecomConfig {
    pub enabled: bool,
    pub bot_id: String,
    pub secret: String,
    pub ws_url: String,
}

/// Feishu/Lark Bot webhook configuration.
#[derive(Clone)]
pub struct FeishuConfig {
    pub enabled: bool,
    pub app_id: String,
    pub app_secret: String,
    /// Key for decrypting event payloads.
    pub encrypt_key: Option<String>,
    /// Token for validating events.
    pub verification_token: Option<String>,
    pub webhook_host: String,
    pub webhook_port: u16,
    pub group_policy: GroupPolicy,
    /// Chat IDs allowed when the group policy is an allowlist.
    pub group_allowlist: Vec<String>,
    /// Chat IDs refused when the group policy is a blacklist.
    pub group_blacklist: Vec<String>,
    pub domain: String,
}

/// WhatsApp Cloud API Bot configuration.
#[derive(Clone)]
pub struct WhatsAppConfig {
    pub enabled: bool,
    pub phone_number_id: String,
    pub access_token: String,
    /// App secret for webhook signature verification.
    pub app_secret: String,
    /// Verify token for the Meta webhook subscription.
    pub webhook_verify_token: String,
    pub webhook_host: String,
    pub webhook_port: u16,
    pub dm_policy: DmPolicy,
    /// Phone numbers allowed when the DM policy is an allowlist.
    pub allow_from: Vec<String>,
    pub api_version: String,
}

/// The config file under a home directory (the current directory when
/// there is none).
pub open spec fn config_path_under(home: Option<Seq<char>>) -> Seq<char> {
    path_join(
        match home {
            Some(h) => h,
            None => "."@,
        },
        ".tiy/gateway/config.toml"@,
    )
}

/// The default config file path: `~/.tiy/gateway/config.toml`.
pub fn default_config_path() -> (r: String)
    ensures
        exists|home: Option<Seq<char>>| r@ == config_path_under(home),
{
    let home = home_dir();
    match &home {
        Some(h) => {
            let r = join_path(h.as_str(), ".tiy/gateway/config.toml");
            assert(r@ == config_path_under(Some(h@)));
            r
        },
        None => {
            let r = join_path(".", ".tiy/gateway/config.toml");
            assert(r@ == config_path_under(None));
            r
        },
    }
}

/// The approval timeout when the file gives none (seconds).
pub fn default_approval_timeout() -> (r: u64)
    ensures
        r == 60,
{
    60
}

/// The iLink API host when the file gives none.
pub fn default_weixin_base_url() -> (r: String)
    ensures
        r@ == "ilinkai.weixin.qq.com"@,
{
    String::from_str("ilinkai.weixin.qq.com")
}

/// The WeChat CDN base when the file gives none.
pub fn default_weixin_cdn_base_url() -> (r: String)
    ensures
        r@ == "novac2c.cdn.weixin.qq.com/c2c"@,
{
    String::from_str("novac2c.cdn.weixin.qq.com/c2c")
}

/// The WeCom WebSocket host used by default.
pub open spec fn default_wecom_ws_url_text() -> Seq<char> {
    "openws.work.weixin.qq.com"@
}

/// The WeCom WebSocket host when the file gives none.
pub fn default_wecom_ws_url() -> (r: String)
    ensures
        r@ == default_wecom_ws_url_text(),
{
    String::from_str("openws.work.weixin.qq.com")
}

/// Channels are disabled unless the file enables them.
pub fn default_false() -> (r: bool)
    ensures
        !r,
{
    false
}

/// The address the webhooks listen on by default.
pub open spec fn default_webhook_host_text() -> Seq<char> {
    "127.0.0.1"@
}

/// The webhook listen address when the file gives none.
pub fn default_webhook_host() -> (r: String)
    ensures
        r@ == default_webhook_host_text(),
{
    String::from_str("127.0.0.1")
}

/// The Feishu webhook port when the file gives none.
pub fn default_feishu_webhook_port() -> (r: u16)
    ensures
        r == 8765,
{
    8765
}

/// The Feishu open-platform host when the file gives none.
pub fn default_feishu_domain() -> (r: String)
    ensures
        r@ == "open.feishu.cn"@,
{
    String::from_str("open.feishu.cn")
}

/// The WhatsApp webhook port when the file gives none.
pub fn default_whatsapp_webhook_port() -> (r: u16)
    ensures
        r == 8766,
{
    8766
}

/// The Graph API version when the file gives none.
pub fn default_whatsapp_api_version() -> (r: String)
    ensures
        r@ == "v21.0"@,
{
    String::from_str("v21.0")
}

/// Frontend-safe view of the gateway config: secrets are reported only as
/// set or not.
#[derive(Debug, Clone)]
pub struct GatewayConfigDto {
    pub platform: String,
    pub weixin_enabled: bool,
    pub wecom_enabled: bool,
    pub wecom_bot_id: String,
    pub wecom_secret_set: bool,
    pub wecom_ws_url: String,
    pub feishu_enabled: bool,
    pub feishu_app_id: String,
    pub feishu_app_secret_set: bool,
    pub feishu_webhook_host: String,
    pub feishu_webhook_port: u16,
    pub feishu_group_policy: String,
    pub feishu_encrypt_key_set: bool,
    pub feishu_verification_token_set: bool,
    pub whatsapp_enabled: bool,
    pub whatsapp_phone_number_id: String,
    pub whatsapp_access_token_set: bool,
    pub whatsapp_webhook_host: String,
    pub whatsapp_webhook_port: u16,
    pub whatsapp_dm_policy: String,
    pub whatsapp_app_secret_set: bool,
    pub whatsapp_webhook_verify_token_set: bool,
}

/// The WeCom part of the DTO: the section's values, or the defaults.
pub open spec fn wecom_part_ok(c: Option<WecomConfig>, d: GatewayConfigDto) -> bool {
    match c {
        Some(w) => {
            &&& d.wecom_enabled == w.enabled
            &&& d.wecom_bot_id@ == w.bot_id@
            &&& d.wecom_secret_set == (w.secret@.len() > 0)
            &&& d.wecom_ws_url@ == w.ws_url@
        },
        None => {
            &&& !d.wecom_enabled
            &&& d.wecom_bot_id@ == Seq::<char>::empty()
            &&& !d.wecom_secret_set
            &&& d.wecom_ws_url@ == default_wecom_ws_url_text()
        },
    }
}

/// The Feishu part of the DTO: the section's values, or the defaults.
pub open spec fn feishu_part_ok(c: Option<FeishuConfig>, d: GatewayConfigDto) -> bool {
    match c {
        Some(f) => {
            &&& d.feishu_enabled == f.enabled
            &&& d.feishu_app_id@ == f.app_id@
            &&& d.feishu_app_secret_set == (f.app_secret@.len() > 0)
            &&& d.feishu_webhook_host@ == f.webhook_host@
            &&& d.feishu_webhook_port == f.webhook_port
            &&& d.feishu_group_policy@ == f.group_policy.name()
            &&& d.feishu_encrypt_key_set == (f.encrypt_key is Some)
            &&& d.feishu_verification_token_set == (f.verification_token is Some)
        },
        None => {
            &&& !d.feishu_enabled
            &&& d.feishu_app_id@ == Seq::<char>::empty()
            &&& !d.feishu_app_secret_set
            &&& d.feishu_webhook_host@ == default_webhook_host_text()
            &&& d.feishu_webhook_port == 8765
            &&& d.feishu_group_policy@ == GroupPolicy::Open.name()
            &&& !d.feishu_encrypt_key_set
            &&& !d.feishu_verification_token_set
        },
    }
}

/// The WhatsApp part of the DTO: the section's values, or the defaults.
pub open spec fn whatsapp_part_ok(c: Option<WhatsAppConfig>, d: GatewayConfigDto) -> bool {
    match c {
        Some(w) => {
            &&& d.whatsapp_enabled == w.enabled
            &&& d.whatsapp_phone_number_id@ == w.phone_number_id@
            &&& d.whatsapp_access_token_set == (w.access_token@.len() > 0)
            &&& d.whatsapp_webhook_host@ == w.webhook_host@
            &&& d.whatsapp_webhook_port == w.webhook_port
            &&& d.whatsapp_dm_policy@ == w.dm_policy.name()
            &&& d.whatsapp_app_secret_set == (w.app_secret@.len() > 0)
            &&& d.whatsapp_webhook_verify_token_set == (w.webhook_verify_token@.len() > 0)
        },
        None => {
            &&& !d.whatsapp_enabled
            &&& d.whatsapp_phone_number_id@ == Seq::<char>::empty()
            &&& !d.whatsapp_access_token_set
            &&& d.whatsapp_webhook_host@ == default_webhook_host_text()
            &&& d.whatsapp_webhook_port == 8766
            &&& d.whatsapp_dm_policy@ == DmPolicy::Open.name()
            &&& !d.whatsapp_app_secret_set
            &&& !d.whatsapp_webhook_verify_token_set
        },
    }
}

impl GatewayConfigDto {
    /// The frontend view of a configuration; absent sections show defaults.
    pub fn from_config(config: &GatewayConfig) -> (d: GatewayConfigDto)
        ensures
            d.platform@ == platform_name(config.platform),
            d.weixin_enabled == match config.weixin {
                Some(w) => w.enabled,
                None => false,
            },
            wecom_part_ok(config.wecom, d),
            feishu_part_ok(config.feishu, d),
            whatsapp_part_ok(config.whatsapp, d),
    {
        let weixin_enabled = match &config.weixin {
            Some(w) => w.enabled,
            None => false,
        };
        let (wecom_enabled, wecom_bot_id, wecom_secret_set, wecom_ws_url) = match &config.wecom {
            Some(w) => (
                w.enabled,
                clone_string(&w.bot_id),
                w.secret.as_str().unicode_len() > 0,
                clone_string(&w.ws_url),
            ),
            None => (false, String::new(), false, default_wecom_ws_url()),
        };
        let (
            feishu_enabled,
            feishu_app_id,
            feishu_app_secret_set,
            feishu_webhook_host,
            feishu_webhook_port,
            feishu_group_policy,
            feishu_encrypt_key_set,
            feishu_verification_token_set,
        ) = match &config.feishu {
            Some(f) => (
                f.enabled,
                clone_string(&f.app_id),
                f.app_secret.as_str().unicode_len() > 0,
                clone_string(&f.webhook_host),
                f.webhook_port,
                f.group_policy.to_string(),
                f.encrypt_key.is_some(),
                f.verification_token.is_some(),
            ),
            None => (
                false,
                String::new(),
                false,
                default_webhook_host(),
                default_feishu_webhook_port(),
                GroupPolicy::default().to_string(),
                false,
                false,
            ),
        };
        let (
            whatsapp_enabled,
            whatsapp_phone_number_id,
            whatsapp_access_token_set,
            whatsapp_webhook_host,
            whatsapp_webhook_port,
            whatsapp_dm_policy,
            whatsapp_app_secret_set,
            whatsapp_webhook_verify_token_set,
        ) = match &config.whatsapp {
            Some(w) => (
                w.enabled,
                clone_string(&w.phone_number_id),
                w.access_token.as_str().unicode_len() > 0,
                clone_string(&w.webhook_host),
                w.webhook_port,
                w.dm_policy.to_string(),
                w.app_secret.as_str().unicode_len() > 0,
                w.webhook_verify_token.as_str().unicode_len() > 0,
            ),
            None => (
                false,
                String::new(),
                false,
                default_webhook_host(),
                default_whatsapp_webhook_port(),
                DmPolicy::default().to_string(),
                false,
                false,
            ),
        };
        GatewayConfigDto {
            platform: String::from_str(config.platform.as_str()),
            weixin_enabled,
            wecom_enabled,
            wecom_bot_id,
            wecom_secret_set,
            wecom_ws_url,
            feishu_enabled,
            feishu_app_id,
            feishu_app_secret_set,
            feishu_webhook_host,
            feishu_webhook_port,
            feishu_group_policy,
            feishu_encrypt_key_set,
            feishu_verification_token_set,
            whatsapp_enabled,
            whatsapp_phone_number_id,
            whatsapp_access_token_set,
            whatsapp_webhook_host,
            whatsapp_webhook_port,
            whatsapp_dm_policy,
            whatsapp_app_secret_set,
            whatsapp_webhook_verify_token_set,
        }
    }
}

/// Input for saving the gateway config from the frontend. An empty secret
/// keeps the stored one; for the optional keys `None` keeps and an empty
/// value clears.
#[derive(Debug, Clone)]
pub struct GatewayConfigUpdateInput {
    pub weixin_enabled: bool,
    pub wecom_enabled: bool,
    pub wecom_bot_id: String,
    pub wecom_secret: String,
    pub wecom_ws_url: String,
    pub feishu_enabled: bool,
    pub feishu_app_id: String,
    pub feishu_app_secret: String,
    pub feishu_webhook_host: String,
    pub feishu_webhook_port: u16,
    pub feishu_group_policy: String,
    pub feishu_encrypt_key: Option<String>,
    pub feishu_verification_token: Option<String>,
    pub whatsapp_enabled: bool,
    pub whatsapp_phone_number_id: String,
    pub whatsapp_access_token: String,
    pub whatsapp_webhook_host: String,
    pub whatsapp_webhook_port: u16,
    pub whatsapp_dm_policy: String,
    pub whatsapp_app_secret: Option<String>,
    pub whatsapp_webhook_verify_token: Option<String>,
}

} // verus!
