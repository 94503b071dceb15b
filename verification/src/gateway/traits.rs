//! Shared gateway message types.
use vstd::prelude::*;
use crate::gateway::platforms::weixin_media::MediaAttachment;
use crate::text::{chars_eq_str, chars_of, lower_text, to_lowercase};

verus! {

/// A message received from an IM platform.
#[derive(Debug, Clone)]
pub struct InboundMessage {
    /// Platform-specific unique message identifier (used for dedup).
    pub message_id: String,
    /// Sender identifier on the platform.
    pub sender_id: String,
    /// Conversation identifier (the sender in a DM, the group otherwise).
    pub chat_id: String,
    /// Text content of the message.
    pub text: String,
    /// Whether the message was sent in a group chat.
    pub is_group: bool,
    /// CDN download URLs of attached media.
    pub media_urls: Vec<String>,
    /// Attached media with full metadata.
    pub media_attachments: Vec<MediaAttachment>,
    /// WeCom request ID, needed to reply in a group chat.
    pub req_id: Option<String>,
}

/// Result of a send operation.
#[derive(Debug, Clone)]
pub struct SendResult {
    pub success: bool,
    pub message_id: Option<String>,
    pub error: Option<String>,
}

impl SendResult {
    /// A successful send, with the platform's id of the sent message.
    pub fn ok(message_id: Option<String>) -> (r: SendResult)
        ensures
            r == (SendResult { success: true, message_id, error: None }),
    {
        SendResult { success: true, message_id, error: None }
    }

    /// A failed send with its error.
    pub fn err(error: &str) -> (r: SendResult)
        ensures
            !r.success && r.message_id is None,
            r.error matches Some(e) && e@ == error@,
    {
        SendResult { success: false, message_id: None, error: Some(String::from_str(error)) }
    }
}

/// Platform identifier.
#[derive(Debug, Clone, Copy, PartialEq, Eq, Hash)]
pub enum Platform {
    Weixin,
    Wecom,
    Feishu,
    WhatsApp,
}

/// The lower-case name of a platform (its `Display` form).
pub open spec fn platform_name(p: Platform) -> Seq<char> {
    match p {
        Platform::Weixin => "weixin"@,
        Platform::Wecom => "wecom"@,
        Platform::Feishu => "feishu"@,
        Platform::WhatsApp => "whatsapp"@,
    }
}

/// The platform a lower-cased name or alias denotes.
pub open spec fn platform_from_name(name: Seq<char>) -> Option<Platform> {
    if name == "weixin"@ || name == "wechat"@ {
        Some(Platform::Weixin)
    } else if name == "wecom"@ || name == "wework"@ {
        Some(Platform::Wecom)
    } else if name == "feishu"@ || name == "lark"@ {
        Some(Platform::Feishu)
    } else if name == "whatsapp"@ {
        Some(Platform::WhatsApp)
    } else {
        None
    }
}

impl Platform {
    /// The platform's name as shown and stored.
    pub fn as_str(&self) -> (r: &'static str)
        ensures
            r@ == platform_name(*self),
    {
        match self {
            Platform::Weixin => "weixin",
            Platform::Wecom => "wecom",
            Platform::Feishu => "feishu",
            Platform::WhatsApp => "whatsapp",
        }
    }

    /// Maps an already lower-cased name or alias to a platform.
    pub fn from_lowercase_name(name: &str) -> (r: Option<Platform>)
        ensures
            r == platform_from_name(name@),
    {
        let cs = chars_of(name);
        let c = cs.as_slice();
        if chars_eq_str(c, "weixin") || chars_eq_str(c, "wechat") {
            Some(Platform::Weixin)
        } else if chars_eq_str(c, "wecom") || chars_eq_str(c, "wework") {
            Some(Platform::Wecom)
        } else if chars_eq_str(c, "feishu") || chars_eq_str(c, "lark") {
            Some(Platform::Feishu)
        } else if chars_eq_str(c, "whatsapp") {
            Some(Platform::WhatsApp)
        } else {
            None
        }
    }

    /// Parses a platform name case-insensitively; the error names the
    /// unknown (lower-cased) value.
    pub fn parse(s: &str) -> (r: Result<Platform, String>)
        ensures
            match r {
                Ok(p) => platform_from_name(lower_text(s@)) == Some(p),
                Err(e) => platform_from_name(lower_text(s@)) is None && e@ == "unknown platform: "@
                    + lower_text(s@),
            },
    {
        let lower = to_lowercase(s);
        match Platform::from_lowercase_name(lower.as_str()) {
            Some(p) => Ok(p),
            None => {
                let mut e = String::from_str("unknown platform: ");
                e.append(lower.as_str());
                Err(e)
            },
        }
    }
}

} // verus!
