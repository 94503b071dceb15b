use tiycode::gateway::platforms::feishu::{bot_identity_from_reply, token_from_reply, token_needs_refresh};
use tiycode::gateway::message_formatter::outgoing_chunks;
use tiycode::gateway::platforms::feishu::MAX_FEISHU_MESSAGE_LENGTH;
use tiycode::gateway::traits::Platform;
use aes::cipher::{block_padding::Pkcs7, BlockEncryptMut, KeyIvInit};
use base64::Engine;
use sha2::{Digest, Sha256};
use tiycode::gateway::config::{FeishuConfig, GroupPolicy};
use tiycode::gateway::platforms::feishu::{
    build_markdown_post_rows, check_webhook_signature, decrypt_event_payload, event_content, extract_post_text,
    is_self_sender, message_payload, open_webhook_payload, parse_message_event, parse_send_result,
    plain_text_retry, reply_needs_fallback, should_process_group_message, strip_markdown, verify_lark_signature,
    DecryptError, FeishuWebhook, WebhookError, WebhookReply,
};
use tiycode::gateway::traits::SendResult;
use tiycode::json::Json;

fn s(t: &str) -> Json {
    Json::Str(t.to_string())
}

fn obj(fields: Vec<(&str, Json)>) -> Json {
    Json::Object(fields.into_iter().map(|(k, v)| (k.to_string(), v)).collect())
}

fn md_text(e: &Json) -> String {
    match e {
        Json::Object(f) => {
            assert_eq!(f[0].0, "tag");
            assert!(matches!(&f[0].1, Json::Str(t) if t == "md"));
            match &f[1].1 {
                Json::Str(t) => t.clone(),
                other => panic!("not text: {:?}", other),
            }
        }
        other => panic!("not an object: {:?}", other),
    }
}

fn config() -> FeishuConfig {
    FeishuConfig {
        enabled: true,
        app_id: "app".to_string(),
        app_secret: "secret".to_string(),
        encrypt_key: None,
        verification_token: Some("vt".to_string()),
        webhook_host: "0.0.0.0".to_string(),
        webhook_port: 9000,
        group_policy: GroupPolicy::Allowlist,
        group_allowlist: vec!["oc_allowed".to_string()],
        group_blacklist: vec![],
        domain: "open.feishu.cn".to_string(),
    }
}

fn message_event(message_id: &str, chat_type: &str, chat_id: &str) -> Json {
    obj(vec![
        ("type", s("im.message.receive_v1")),
        (
            "sender",
            obj(vec![("sender_id", obj(vec![("open_id", s("ou_user")), ("user_id", s("u_user"))]))]),
        ),
        (
            "message",
            obj(vec![
                ("message_id", s(message_id)),
                ("chat_id", s(chat_id)),
                ("chat_type", s(chat_type)),
                ("message_type", s("text")),
                ("content", s("{\"text\":\"hi\"}")),
            ]),
        ),
    ])
}

fn text_content(t: &str) -> Json {
    obj(vec![("text", s(t))])
}

#[test]
fn self_sender_matches_open_or_user_id_only_when_known() {
    assert!(is_self_sender("ou_bot", "ou_bot", ""));
    assert!(is_self_sender("u_bot", "", "u_bot"));
    assert!(!is_self_sender("", "", ""));
    assert!(!is_self_sender("ou_other", "ou_bot", "u_bot"));
}

#[test]
fn lark_signature_is_sha256_hex_of_timestamp_nonce_key_body() {
    let body = b"{\"a\":1}";
    let mut h = Sha256::new();
    h.update(b"1700000000");
    h.update(b"nonce");
    h.update(b"key");
    h.update(body);
    let sig = hex::encode(h.finalize());
    assert!(verify_lark_signature("key", "1700000000", "nonce", body, &sig));
    assert!(!verify_lark_signature("other", "1700000000", "nonce", body, &sig));
    assert!(!verify_lark_signature("key", "1700000000", "nonce", body, "zz"));
}

fn encrypt(key: &str, iv: [u8; 16], plain: &str) -> String {
    let k = Sha256::digest(key.as_bytes());
    let ct = cbc::Encryptor::<aes::Aes256>::new_from_slices(&k, &iv)
        .unwrap()
        .encrypt_padded_vec_mut::<Pkcs7>(plain.as_bytes());
    let mut all = iv.to_vec();
    all.extend_from_slice(&ct);
    base64::engine::general_purpose::STANDARD.encode(all)
}

#[test]
fn decrypt_event_payload_opens_what_was_encrypted_and_reports_errors() {
    let data = encrypt("ek", [7u8; 16], "{\"challenge\":\"c\"}");
    assert_eq!(decrypt_event_payload("ek", &data).unwrap(), "{\"challenge\":\"c\"}");
    assert_eq!(decrypt_event_payload("ek", "%%%").unwrap_err(), DecryptError::Base64);
    assert_eq!(decrypt_event_payload("ek", "AAAA").unwrap_err(), DecryptError::TooShort);
    assert_eq!(decrypt_event_payload("wrong", &data).unwrap_err(), DecryptError::Cipher);
}

#[test]
fn group_policy_decides_group_messages() {
    let allow = vec!["a".to_string()];
    let block = vec!["b".to_string()];
    assert!(!should_process_group_message(GroupPolicy::Disabled, &allow, &block, "a"));
    assert!(should_process_group_message(GroupPolicy::Allowlist, &allow, &block, "a"));
    assert!(!should_process_group_message(GroupPolicy::Allowlist, &allow, &block, "c"));
    assert!(!should_process_group_message(GroupPolicy::Blacklist, &allow, &block, "b"));
    assert!(should_process_group_message(GroupPolicy::Blacklist, &allow, &block, "c"));
    assert!(should_process_group_message(GroupPolicy::Open, &allow, &block, "z"));
}

#[test]
fn send_result_reads_code_message_id_and_error() {
    let ok = obj(vec![("code", Json::Int(0)), ("data", obj(vec![("message_id", s("om_1"))]))]);
    let r = parse_send_result(&ok);
    assert!(r.success);
    assert_eq!(r.message_id.as_deref(), Some("om_1"));
    let bad = obj(vec![("code", Json::Int(230011)), ("msg", s("withdrawn"))]);
    let r = parse_send_result(&bad);
    assert!(!r.success);
    assert_eq!(r.error.as_deref(), Some("Feishu API error: code=230011, msg=withdrawn"));
    let r = parse_send_result(&obj(vec![]));
    assert_eq!(r.error.as_deref(), Some("Feishu API error: code=-1, msg=unknown"));
    assert!(reply_needs_fallback(&bad));
    assert!(!reply_needs_fallback(&ok));
    assert!(reply_needs_fallback(&obj(vec![("code", Json::Int(231003))])));
}

#[test]
fn strip_markdown_drops_marks_and_fences_but_keeps_code() {
    let text = "**bold** and `code` __u__\n```\nlet a_b = 1;\n```\n~~gone~~ ~";
    assert_eq!(strip_markdown(text), "bold and code u\nlet a_b = 1;\ngone ~");
    assert_eq!(strip_markdown("plain"), "plain");
}

#[test]
fn markdown_post_rows_isolate_code_blocks() {
    let rows = build_markdown_post_rows("intro\n```rust\nfn main() {}\n```\noutro");
    let texts: Vec<String> = rows.iter().map(|r| { assert_eq!(r.len(), 1); md_text(&r[0]) }).collect();
    assert_eq!(texts, vec!["intro", "```rust\nfn main() {}\n```", "outro"]);
    let single = build_markdown_post_rows("no fences here");
    assert_eq!(single.len(), 1);
    assert_eq!(md_text(&single[0][0]), "no fences here");
    let empty = build_markdown_post_rows("");
    assert_eq!(md_text(&empty[0][0]), "");
}

#[test]
fn post_text_joins_title_and_rows() {
    let content = obj(vec![
        ("title", s("T")),
        (
            "content",
            Json::Array(vec![
                Json::Array(vec![
                    obj(vec![("tag", s("text")), ("text", s("hello "))]),
                    obj(vec![("tag", s("a")), ("text", s("link")), ("href", s("http://x"))]),
                ]),
                Json::Array(vec![obj(vec![("tag", s("at")), ("user_name", s("bob"))])]),
                Json::Array(vec![]),
                Json::Array(vec![obj(vec![("tag", s("img"))]), obj(vec![("tag", s("file"))])]),
            ]),
        ),
    ]);
    assert_eq!(extract_post_text(&content), "T\nhello [link](http://x)\n@bob\n[image][file]");
    assert_eq!(extract_post_text(&Json::Null), "");
}

#[test]
fn message_event_reads_text_image_and_dm_fallback_chat() {
    let ev = message_event("om_1", "group", "oc_1");
    let m = parse_message_event(&ev, &text_content("hi")).unwrap();
    assert_eq!(m.message_id, "om_1");
    assert_eq!(m.sender_id, "u_user");
    assert_eq!(m.chat_id, "oc_1");
    assert_eq!(m.text, "hi");
    assert!(m.is_group);
    let dm = message_event("om_2", "p2p", "");
    let m = parse_message_event(&dm, &text_content("hi")).unwrap();
    assert_eq!(m.chat_id, "ou_user");
    assert!(!m.is_group);
    assert!(parse_message_event(&ev, &text_content("")).is_none());
    assert!(parse_message_event(&obj(vec![]), &Json::Null).is_none());
    let img = obj(vec![
        ("sender", obj(vec![])),
        ("message", obj(vec![("message_type", s("image"))])),
    ]);
    assert_eq!(parse_message_event(&img, &obj(vec![("image_key", s("k1"))])).unwrap().text, "[image: k1]");
    assert_eq!(parse_message_event(&img, &Json::Null).unwrap().text, "[image]");
    let sticker = obj(vec![("sender", obj(vec![])), ("message", obj(vec![("message_type", s("sticker"))]))]);
    assert!(parse_message_event(&sticker, &Json::Null).is_none());
}

#[test]
fn webhook_answers_challenge_checks_token_and_passes_messages_once() {
    let mut hook = FeishuWebhook::new(&config());
    let challenge = obj(vec![("challenge", s("abc")), ("token", s("vt")), ("type", s("url_verification"))]);
    match hook.handle_payload(&challenge, &Json::Null, 0).0 {
        WebhookReply::Challenge(c) => assert_eq!(c, "abc"),
        other => panic!("unexpected {:?}", other),
    }
    let wrong = obj(vec![("challenge", s("abc")), ("token", s("nope")), ("type", s("url_verification"))]);
    assert!(matches!(hook.handle_payload(&wrong, &Json::Null, 0).0, WebhookReply::Rejected(WebhookError::TokenMismatch)));

    let payload = obj(vec![("token", s("vt")), ("event", message_event("om_9", "p2p", "oc_dm"))]);
    assert_eq!(event_content(&payload), "{\"text\":\"hi\"}");
    let (reply, msg) = hook.handle_payload(&payload, &text_content("hi"), 1_000);
    assert!(matches!(reply, WebhookReply::Empty));
    assert_eq!(msg.unwrap().message_id, "om_9");
    // Delivered again within a day: dropped.
    let (_, again) = hook.handle_payload(&payload, &text_content("hi"), 1_000 + 86_399_999);
    assert!(again.is_none());
    // After a day it counts as new.
    let (_, later) = hook.handle_payload(&payload, &text_content("hi"), 1_000 + 86_400_000);
    assert!(later.is_some());

    let bad_token = obj(vec![("token", s("x")), ("event", message_event("om_10", "p2p", "oc"))]);
    assert!(matches!(hook.handle_payload(&bad_token, &text_content("hi"), 0).0, WebhookReply::Rejected(WebhookError::TokenMismatch)));

    // Group messages go through the allowlist.
    let refused = obj(vec![("event", message_event("om_11", "group", "oc_other"))]);
    assert!(hook.handle_payload(&refused, &text_content("hi"), 0).1.is_none());
    let allowed = obj(vec![("event", message_event("om_12", "group", "oc_allowed"))]);
    assert!(hook.handle_payload(&allowed, &text_content("hi"), 0).1.is_some());

    // The bot's own messages are dropped.
    hook.user_id = "u_user".to_string();
    let own = obj(vec![("event", message_event("om_13", "p2p", "oc"))]);
    assert!(hook.handle_payload(&own, &text_content("hi"), 0).1.is_none());
}

#[test]
fn webhook_signature_and_encryption_errors() {
    assert!(check_webhook_signature(&None, "", "", "", b"x").is_ok());
    assert!(check_webhook_signature(&Some(String::new()), "", "", "", b"x").is_ok());
    let key = Some("k".to_string());
    assert_eq!(check_webhook_signature(&key, "", "1", "n", b"x").unwrap_err(), WebhookError::MissingSignature);
    assert_eq!(check_webhook_signature(&key, "00", "1", "n", b"x").unwrap_err(), WebhookError::SignatureMismatch);
    assert_eq!(WebhookError::SignatureMismatch.status(), 401);
    assert_eq!(WebhookError::TokenMismatch.status(), 403);
    assert_eq!(WebhookError::KeyNotConfigured.status(), 400);
    assert_eq!(WebhookError::KeyNotConfigured.message(), "encryption key not configured");

    let plain = obj(vec![("type", s("event_callback"))]);
    assert_eq!(open_webhook_payload(&key, &plain).unwrap(), None);
    let enc = obj(vec![("encrypt", s(&encrypt("k", [1u8; 16], "{}")))]);
    assert_eq!(open_webhook_payload(&key, &enc).unwrap().as_deref(), Some("{}"));
    assert_eq!(open_webhook_payload(&None, &enc).unwrap_err(), WebhookError::KeyNotConfigured);
    assert_eq!(open_webhook_payload(&Some("other".to_string()), &enc).unwrap_err(), WebhookError::DecryptionFailed);
}

#[test]
fn outgoing_text_is_text_or_markdown_post() {
    let (post, content) = message_payload("hello");
    assert!(!post);
    match content {
        Json::Object(f) => {
            assert_eq!(f.len(), 1);
            assert!(matches!(&f[0].1, Json::Str(t) if t == "hello"));
        }
        other => panic!("unexpected {:?}", other),
    }
    let (post, _) = message_payload("```\ncode\n```");
    assert!(post);
    let (post, _) = message_payload(&"x".repeat(2001));
    assert!(post);
    let refused = SendResult::err("bad");
    assert_eq!(plain_text_retry("**b**", true, &refused).as_deref(), Some("b"));
    assert_eq!(plain_text_retry("plain", true, &refused), None);
    assert_eq!(plain_text_retry("**b**", false, &refused), None);
    assert_eq!(plain_text_retry("**b**", true, &SendResult::ok(None)), None);
}

#[test]
fn token_and_identity_replies() {
    let ok = obj(vec![("code", Json::Int(0)), ("tenant_access_token", s("t-1")), ("expire", Json::Int(3600))]);
    assert_eq!(token_from_reply(&ok).unwrap(), ("t-1".to_string(), 3600));
    let no_expire = obj(vec![("code", Json::Int(0)), ("tenant_access_token", s("t-2"))]);
    assert_eq!(token_from_reply(&no_expire).unwrap().1, 7200);
    let bad = obj(vec![("code", Json::Int(10003)), ("msg", s("invalid app_id"))]);
    assert_eq!(token_from_reply(&bad).unwrap_err(), "Feishu token error: code=10003, msg=invalid app_id");
    let bot = obj(vec![("code", Json::Int(0)), ("bot", obj(vec![("open_id", s("ou_bot"))]))]);
    assert_eq!(bot_identity_from_reply(&bot).unwrap(), ("ou_bot".to_string(), String::new()));
    assert_eq!(bot_identity_from_reply(&obj(vec![])).unwrap_err(), "Feishu bot info error: code=-1, msg=unknown");
    assert!(token_needs_refresh(1_000, 300_000));
    assert!(token_needs_refresh(0, 300_000));
    assert!(!token_needs_refresh(0, 300_001));
    assert!(token_needs_refresh(u64::MAX, 0));
}

#[test]
fn long_replies_go_out_in_chunks() {
    assert_eq!(outgoing_chunks("short", MAX_FEISHU_MESSAGE_LENGTH, Platform::Feishu), vec!["short".to_string()]);
    let long = format!("{}\n\n{}", "a".repeat(5000), "b".repeat(5000));
    let chunks = outgoing_chunks(&long, MAX_FEISHU_MESSAGE_LENGTH, Platform::Feishu);
    assert!(chunks.len() >= 2);
    assert_eq!(chunks.concat().replace('\n', "").len(), 10_000);
}
