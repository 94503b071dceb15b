use tiycode::gateway::config::{DmPolicy, GroupPolicy};
use tiycode::ipc::sidecar_protocol::SidecarEvent;
use tiycode::json::Json;
use tiycode::model::settings::SettingRecord;
use tiycode::model::subagent::{validate_slug, CustomSubagentModelRole, CustomSubagentRecord};
use tiycode::setup::{bundled_rg_name, data_directories, parse_bool_setting, tiy_home_under};
use tiycode::time::UtcDateTime;

fn s(t: &str) -> Json {
    Json::Str(t.to_string())
}

fn obj(fields: Vec<(&str, Json)>) -> Json {
    Json::Object(fields.into_iter().map(|(k, v)| (k.to_string(), v)).collect())
}

fn setting(value: &str) -> Option<SettingRecord> {
    Some(SettingRecord { key: "k".to_string(), value_json: value.to_string(), updated_at: String::new() })
}

#[test]
fn policies_parse_case_insensitively_and_name_the_bad_value() {
    assert_eq!(GroupPolicy::parse("AllowList").unwrap(), GroupPolicy::Allowlist);
    assert_eq!(GroupPolicy::parse("BLACKLIST").unwrap(), GroupPolicy::Blacklist);
    assert_eq!(GroupPolicy::parse("Nope").unwrap_err(), "unknown group_policy: nope");
    assert_eq!(DmPolicy::parse("Disabled").unwrap(), DmPolicy::Disabled);
    assert_eq!(DmPolicy::parse("blacklist").unwrap_err(), "unknown dm_policy: blacklist");
    assert_eq!(GroupPolicy::Blacklist.to_string(), "blacklist");
    for p in [GroupPolicy::Open, GroupPolicy::Allowlist, GroupPolicy::Blacklist, GroupPolicy::Disabled] {
        assert_eq!(GroupPolicy::parse(p.as_str()).unwrap(), p);
    }
}

#[test]
fn slugs_are_checked_in_order() {
    assert_eq!(validate_slug(""), Err("slug cannot be empty"));
    assert_eq!(validate_slug("Helper"), Err("slug must start with a lowercase letter"));
    assert_eq!(validate_slug("he_lper"), Err("slug may only contain lowercase letters, digits, and hyphens"));
    assert_eq!(validate_slug("code-helper-2"), Ok(()));
    assert_eq!(validate_slug("explore"), Err("slug is reserved for built-in agents"));
}

#[test]
fn sidecar_events_need_a_run_id_and_their_fields() {
    let p = obj(vec![("runId", s("r1")), ("delta", s("he")), ("messageId", s("m1"))]);
    match SidecarEvent::parse("agent.message.delta", p) {
        Some(SidecarEvent::MessageDelta { run_id, message_id, delta }) => {
            assert_eq!((run_id.as_str(), message_id.as_str(), delta.as_str()), ("r1", "m1", "he"));
        }
        other => panic!("unexpected {:?}", other),
    }
    assert!(SidecarEvent::parse("agent.message.delta", obj(vec![("runId", s("r1"))])).is_none());
    assert!(SidecarEvent::parse("agent.run.started", obj(vec![])).is_none());
    assert!(SidecarEvent::parse("agent.unknown", obj(vec![("runId", s("r1"))])).is_none());
    assert!(matches!(SidecarEvent::parse("agent.run.started", obj(vec![("runId", s("r1"))])), Some(SidecarEvent::RunStarted { .. })));
}

#[test]
fn boolean_settings_read_json_booleans_only() {
    assert!(parse_bool_setting(setting("true"), "launch_at_login"));
    assert!(!parse_bool_setting(setting("false"), "launch_at_login"));
    assert!(!parse_bool_setting(setting("\"true\""), "launch_at_login"));
    assert!(!parse_bool_setting(setting("not json"), "launch_at_login"));
    assert!(!parse_bool_setting(None, "launch_at_login"));
    assert!(parse_bool_setting(setting(" \t true\r\n"), "launch_at_login"));
    assert!(!parse_bool_setting(setting("True"), "launch_at_login"));
    assert!(!parse_bool_setting(setting("true x"), "launch_at_login"));
    assert!(!parse_bool_setting(setting("1"), "launch_at_login"));
}

#[test]
fn start_up_paths() {
    assert_eq!(bundled_rg_name(true), "rg.exe");
    assert_eq!(bundled_rg_name(false), "rg");
    assert_eq!(tiy_home_under("/home/u"), "/home/u/.tiy");
    let dirs = data_directories("/home/u/.tiy");
    assert_eq!(dirs.len(), 9);
    assert_eq!(dirs[0], "/home/u/.tiy/db");
    assert_eq!(dirs[1], "/home/u/.tiy/db/backups");
    assert_eq!(dirs[8], "/home/u/.tiy/catalog");
}

#[test]
fn timestamps_format_as_rfc3339() {
    let t = UtcDateTime::from_timestamp(1_776_992_523, 0).unwrap();
    assert_eq!(t.to_rfc3339(), "2026-04-24T01:02:03+00:00");
    let back = UtcDateTime::parse_rfc3339("2026-04-24T01:02:03+00:00").unwrap();
    assert_eq!(back.timestamp(), 1_776_992_523);
    assert!(UtcDateTime::parse_rfc3339("yesterday").is_none());
}

fn subagent(allowed_tools: &str) -> CustomSubagentRecord {
    CustomSubagentRecord {
        id: "s1".to_string(),
        name: "Helper".to_string(),
        slug: "helper".to_string(),
        system_prompt: String::new(),
        invocation_description: String::new(),
        allowed_tools: allowed_tools.to_string(),
        model_role: CustomSubagentModelRole::default(),
        is_enabled: true,
        created_at: String::new(),
        updated_at: String::new(),
    }
}

#[test]
fn allowed_tools_read_a_json_string_list() {
    assert_eq!(subagent("[\"read\",\"grep\"]").allowed_tools_vec(), vec!["read".to_string(), "grep".to_string()]);
    assert!(subagent("[1]").allowed_tools_vec().is_empty());
    assert!(subagent("not json").allowed_tools_vec().is_empty());
}

fn feishu_only() -> tiycode::gateway::config::GatewayConfig {
    tiycode::gateway::config::GatewayConfig {
        platform: tiycode::gateway::traits::Platform::Feishu,
        approval_timeout_seconds: 60,
        weixin: None,
        wecom: None,
        feishu: Some(tiycode::gateway::config::FeishuConfig {
            enabled: true,
            app_id: "cli_1".to_string(),
            app_secret: String::new(),
            encrypt_key: Some(String::new()),
            verification_token: None,
            webhook_host: "0.0.0.0".to_string(),
            webhook_port: 9000,
            group_policy: GroupPolicy::Blacklist,
            group_allowlist: vec![],
            group_blacklist: vec![],
            domain: "open.larksuite.com".to_string(),
        }),
        whatsapp: None,
    }
}

#[test]
fn config_dto_shows_sections_and_defaults() {
    let config = feishu_only();
    assert!(config.validate().is_ok());
    let dto = tiycode::gateway::config::GatewayConfigDto::from_config(&config);
    assert_eq!(dto.platform, "feishu");
    assert!(dto.feishu_enabled);
    assert_eq!(dto.feishu_app_id, "cli_1");
    assert!(!dto.feishu_app_secret_set);
    assert!(dto.feishu_encrypt_key_set);
    assert!(!dto.feishu_verification_token_set);
    assert_eq!(dto.feishu_group_policy, "blacklist");
    assert!(!dto.wecom_enabled);
    assert_eq!(dto.wecom_ws_url, "openws.work.weixin.qq.com");
    assert_eq!(dto.whatsapp_webhook_host, "127.0.0.1");
    assert_eq!(dto.whatsapp_webhook_port, 8766);
    assert_eq!(dto.whatsapp_dm_policy, "open");
    // Only WeChat and WeCom channels are driven by the runner.
    assert!(tiycode::gateway::runner::try_load_config(Some(config)).is_none());
    let mut broken = feishu_only();
    broken.platform = tiycode::gateway::traits::Platform::Wecom;
    assert_eq!(broken.validate().unwrap_err(), "platform is 'wecom' but [wecom] config section is missing");
}

#[test]
fn instants_cover_chronos_whole_range() {
    let max = UtcDateTime::from_timestamp(8_210_266_876_799, 999_999_999).unwrap();
    let chrono_max = chrono::DateTime::from_timestamp(8_210_266_876_799, 999_999_999).unwrap();
    assert_eq!(max.to_rfc3339(), chrono_max.to_rfc3339());
    assert!(UtcDateTime::from_timestamp(8_210_266_876_800, 0).is_none());
    assert!(chrono::DateTime::from_timestamp(8_210_266_876_800, 0).is_none());
    let min = UtcDateTime::from_timestamp(-8_334_601_228_800, 0).unwrap();
    assert_eq!(min.to_rfc3339(), chrono::DateTime::from_timestamp(-8_334_601_228_800, 0).unwrap().to_rfc3339());
    assert!(UtcDateTime::from_timestamp(-8_334_601_228_801, 0).is_none());
    assert!(chrono::DateTime::from_timestamp(-8_334_601_228_801, 0).is_none());
    assert!(UtcDateTime::from_timestamp(59, 1_500_000_000).is_some());
    assert!(UtcDateTime::from_timestamp(58, 1_500_000_000).is_none());
}
