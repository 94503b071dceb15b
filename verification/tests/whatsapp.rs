use hmac::{Hmac, Mac};
use sha2::Sha256;
use tiycode::gateway::config::{DmPolicy, WhatsAppConfig};
use tiycode::gateway::platforms::whatsapp::{
    parse_message, parse_send_result, payload_message_list, send_text_body, should_process_dm, verify_signature,
    WebhookError, WhatsAppWebhook,
};
use tiycode::json::Json;

fn s(t: &str) -> Json {
    Json::Str(t.to_string())
}

fn obj(fields: Vec<(&str, Json)>) -> Json {
    Json::Object(fields.into_iter().map(|(k, v)| (k.to_string(), v)).collect())
}

fn text_message(id: &str, from: &str, body: &str) -> Json {
    obj(vec![("id", s(id)), ("from", s(from)), ("type", s("text")), ("text", obj(vec![("body", s(body))]))])
}

fn sign(secret: &str, body: &[u8]) -> String {
    let mut mac = Hmac::<Sha256>::new_from_slice(secret.as_bytes()).unwrap();
    mac.update(body);
    format!("sha256={}", hex::encode(mac.finalize().into_bytes()))
}

fn config(policy: DmPolicy) -> WhatsAppConfig {
    WhatsAppConfig {
        enabled: true,
        phone_number_id: "123".to_string(),
        access_token: "tok".to_string(),
        app_secret: "secret".to_string(),
        webhook_verify_token: "verify".to_string(),
        webhook_host: "0.0.0.0".to_string(),
        webhook_port: 9001,
        dm_policy: policy,
        allow_from: vec!["15550001".to_string()],
        api_version: "v21.0".to_string(),
    }
}

#[test]
fn signature_is_prefixed_hex_hmac_of_body() {
    let body = b"{\"entry\":[]}";
    let sig = sign("secret", body);
    assert!(verify_signature("secret", body, &sig));
    assert!(!verify_signature("other", body, &sig));
    assert!(!verify_signature("secret", body, &sig[7..]));
    assert!(!verify_signature("secret", body, "sha256=zz"));
}

#[test]
fn parse_message_reads_each_supported_type() {
    let m = parse_message(&text_message("wamid.1", "15550001", "hello")).unwrap();
    assert_eq!((m.message_id.as_str(), m.sender_id.as_str(), m.chat_id.as_str(), m.text.as_str()), ("wamid.1", "15550001", "15550001", "hello"));
    assert!(!m.is_group);

    let image = obj(vec![
        ("id", s("i")),
        ("from", s("f")),
        ("type", s("image")),
        ("image", obj(vec![("id", s("media-1")), ("caption", s("look"))])),
    ]);
    assert_eq!(parse_message(&image).unwrap().text, "[image: media-1]\nlook");
    let doc = obj(vec![("id", s("i")), ("from", s("f")), ("type", s("document")), ("document", obj(vec![("id", s("d1"))]))]);
    assert_eq!(parse_message(&doc).unwrap().text, "[document: d1]");

    let loc = obj(vec![
        ("id", s("i")),
        ("from", s("f")),
        ("type", s("location")),
        ("location", obj(vec![("latitude", Json::Float("37.5".to_string())), ("longitude", Json::Int(-122)), ("name", s("HQ"))])),
    ]);
    assert_eq!(parse_message(&loc).unwrap().text, "📍 37.5, -122 — HQ");

    let contacts = obj(vec![
        ("id", s("i")),
        ("from", s("f")),
        ("type", s("contacts")),
        (
            "contacts",
            Json::Array(vec![
                obj(vec![("name", obj(vec![("formatted_name", s("Ann"))]))]),
                obj(vec![]),
                obj(vec![("name", obj(vec![("formatted_name", s("Bo"))]))]),
            ]),
        ),
    ]);
    assert_eq!(parse_message(&contacts).unwrap().text, "👤 Contacts: Ann, Bo");
    let reaction = obj(vec![("id", s("i")), ("from", s("f")), ("type", s("reaction")), ("reaction", obj(vec![]))]);
    assert_eq!(parse_message(&reaction).unwrap().text, "[reaction: 👍]");

    assert!(parse_message(&obj(vec![("id", s("i")), ("from", s("f")), ("type", s("poll"))])).is_none());
    assert!(parse_message(&text_message("", "f", "x")).is_none());
    assert!(parse_message(&text_message("i", "", "x")).is_none());
    assert!(parse_message(&text_message("i", "f", "")).is_none());
}

#[test]
fn dm_policy_filters_senders() {
    let allow = vec!["a".to_string()];
    assert!(should_process_dm(DmPolicy::Open, &allow, "z"));
    assert!(should_process_dm(DmPolicy::Allowlist, &allow, "a"));
    assert!(!should_process_dm(DmPolicy::Allowlist, &allow, "z"));
    assert!(!should_process_dm(DmPolicy::Disabled, &allow, "a"));
}

#[test]
fn payload_messages_skip_status_updates() {
    let payload = obj(vec![(
        "entry",
        Json::Array(vec![obj(vec![(
            "changes",
            Json::Array(vec![
                obj(vec![("value", obj(vec![("statuses", Json::Array(vec![])), ("messages", Json::Array(vec![text_message("x", "f", "t")]))]))]),
                obj(vec![("value", obj(vec![("messages", Json::Array(vec![text_message("a", "f", "1"), text_message("b", "f", "2")]))]))]),
            ]),
        )])]),
    )]);
    let msgs = payload_message_list(&payload);
    assert_eq!(msgs.len(), 2);
    assert_eq!(parse_message(msgs[1]).unwrap().message_id, "b");
}

#[test]
fn webhook_handshake_signature_and_dedup() {
    let mut hook = WhatsAppWebhook::new(&config(DmPolicy::Allowlist));
    assert_eq!(hook.verify_subscription(Some("subscribe"), Some("verify"), Some("ch".to_string())), (200, "ch".to_string()));
    assert_eq!(hook.verify_subscription(None, Some("verify"), Some("ch".to_string())), (400, "Missing hub.mode=subscribe".to_string()));
    assert_eq!(hook.verify_subscription(Some("subscribe"), Some("x"), Some("ch".to_string())), (403, "Verify token mismatch".to_string()));
    assert_eq!(hook.verify_subscription(Some("subscribe"), Some("verify"), None), (400, "Missing hub.challenge".to_string()));

    let body = b"{}";
    assert!(hook.check_signature(Some(&sign("secret", body)), body).is_ok());
    assert_eq!(hook.check_signature(Some("sha256=00"), body).unwrap_err(), WebhookError::SignatureMismatch);
    assert_eq!(hook.check_signature(None, body).unwrap_err(), WebhookError::MissingSignature);
    assert_eq!(WebhookError::MissingSignature.message(), "missing signature header");
    assert_eq!(WebhookError::InvalidJson.status(), 400);

    let msg = text_message("wamid.9", "15550001", "hi");
    assert!(hook.accept_message(&msg, 10_000).is_some());
    // Meta redelivers within five minutes: dropped.
    assert!(hook.accept_message(&msg, 10_000 + 300_000).is_none());
    assert!(hook.accept_message(&msg, 10_000 + 300_000 + 300_001).is_some());
    // Senders outside the allowlist are filtered.
    assert!(hook.accept_message(&text_message("wamid.10", "999", "hi"), 0).is_none());
}

#[test]
fn send_reply_and_body() {
    let ok = obj(vec![("messages", Json::Array(vec![obj(vec![("id", s("wamid.out"))])]))]);
    let r = parse_send_result(&ok);
    assert!(r.success);
    assert_eq!(r.message_id.as_deref(), Some("wamid.out"));
    let err = obj(vec![("error", obj(vec![("code", Json::Int(131047)), ("message", s("Re-engagement"))]))]);
    assert_eq!(parse_send_result(&err).error.as_deref(), Some("WhatsApp API error: code=131047, msg=Re-engagement"));
    match send_text_body("15550001", "hello", Some("wamid.1")) {
        Json::Object(f) => {
            assert_eq!(f.len(), 6);
            assert_eq!(f[2].0, "to");
            assert_eq!(f[5].0, "context");
        }
        other => panic!("unexpected {:?}", other),
    }
}
