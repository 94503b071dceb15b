use tiycode::model::settings::SettingRecord;
use tiycode::persistence::rows::ToolCallRow;
use tiycode::model::provider::{ProviderModelRecord, ProviderModelSettingsDto, ProviderRecord, ProviderSettingsDto};
use chrono::{TimeZone, Utc};
use tiycode::json::Json;
use tiycode::model::provider::{AgentProfileDto, AgentProfileRecord, ProviderKind};
use tiycode::model::thread::{RunStatus, ThreadStatus};
use tiycode::model::workspace::{WorkspaceDto, WorkspaceKind, WorkspaceRecord, WorkspaceStatus};
use tiycode::persistence::rows::{
    extract_boundary_message_id, find_last_context_reset, metadata_kind_matches, nth_from_end_offset, reset_cursor,
    MarkerRow,
};
use tiycode::time::UtcDateTime;

fn all_run_status_cases() -> Vec<(RunStatus, &'static str, ThreadStatus)> {
    vec![
        (RunStatus::Created, "created", ThreadStatus::Running),
        (RunStatus::Dispatching, "dispatching", ThreadStatus::Running),
        (RunStatus::Running, "running", ThreadStatus::Running),
        (RunStatus::WaitingApproval, "waiting_approval", ThreadStatus::WaitingApproval),
        (RunStatus::NeedsReply, "needs_reply", ThreadStatus::NeedsReply),
        (RunStatus::WaitingToolResult, "waiting_tool_result", ThreadStatus::Running),
        (RunStatus::Cancelling, "cancelling", ThreadStatus::Running),
        (RunStatus::Completed, "completed", ThreadStatus::Idle),
        (RunStatus::LimitReached, "limit_reached", ThreadStatus::NeedsReply),
        (RunStatus::Failed, "failed", ThreadStatus::Failed),
        (RunStatus::Denied, "denied", ThreadStatus::Failed),
        (RunStatus::Interrupted, "interrupted", ThreadStatus::Interrupted),
        (RunStatus::Cancelled, "cancelled", ThreadStatus::Idle),
    ]
}

#[test]
fn run_status_string_conversions_round_trip_for_every_variant() {
    for (status, expected, _) in all_run_status_cases() {
        assert_eq!(status.as_str(), expected);
        assert_eq!(RunStatus::from_str(expected), Some(status));
        assert_eq!(status.to_string(), expected);
    }

    assert_eq!(RunStatus::from_str("unknown"), None);
    assert_eq!(RunStatus::from_str(""), None);
}

#[test]
fn run_status_thread_status_mapping_is_explicit_for_every_variant() {
    for (status, _, expected_thread_status) in all_run_status_cases() {
        assert_eq!(status.to_thread_status(), expected_thread_status);
    }
}

#[test]
fn run_status_classification_matches_run_lifecycle_semantics() {
    let terminal = [
        RunStatus::Completed,
        RunStatus::Failed,
        RunStatus::Denied,
        RunStatus::Interrupted,
        RunStatus::Cancelled,
        RunStatus::LimitReached,
    ];
    let active = [
        RunStatus::Created,
        RunStatus::Dispatching,
        RunStatus::Running,
        RunStatus::WaitingToolResult,
        RunStatus::Cancelling,
    ];
    let needs_user_action = [RunStatus::WaitingApproval, RunStatus::NeedsReply];

    for (status, _, _) in all_run_status_cases() {
        assert_eq!(status.is_terminal(), terminal.contains(&status));
        assert_eq!(status.is_active(), active.contains(&status));
        assert_eq!(status.is_needs_user_action(), needs_user_action.contains(&status));
    }
}

#[test]
fn run_status_sql_clauses_match_status_sets() {
    assert_eq!(
        RunStatus::terminal_sql_in_clause(),
        "('completed','failed','denied','interrupted','cancelled','limit_reached')"
    );
    assert_eq!(
        RunStatus::non_progressing_sql_in_clause(),
        "('completed','failed','denied','interrupted','cancelled','limit_reached','waiting_approval','needs_reply')"
    );
}

#[test]
fn thread_status_round_trips_and_defaults_unknown_to_idle() {
    for status in [
        ThreadStatus::Idle,
        ThreadStatus::Running,
        ThreadStatus::WaitingApproval,
        ThreadStatus::NeedsReply,
        ThreadStatus::Interrupted,
        ThreadStatus::Failed,
        ThreadStatus::Archived,
    ] {
        assert_eq!(ThreadStatus::from_str(status.as_str()), status);
    }
    assert_eq!(ThreadStatus::from_str("bogus"), ThreadStatus::Idle);
}

#[test]
fn provider_kind_maps_strings_and_defaults_unknown_to_custom() {
    assert_eq!(ProviderKind::Builtin.as_str(), "builtin");
    assert_eq!(ProviderKind::Custom.as_str(), "custom");
    assert_eq!(ProviderKind::from("builtin".to_string()), ProviderKind::Builtin);
    assert_eq!(ProviderKind::from("openai".to_string()), ProviderKind::Custom);
}

#[test]
fn agent_profile_dto_from_record_preserves_language_style_and_model_layers() {
    let dto = AgentProfileDto::from(AgentProfileRecord {
        id: "profile-1".to_string(),
        name: "Default".to_string(),
        custom_instructions: Some("Be concise".to_string()),
        commit_message_prompt: Some("Write conventional commits".to_string()),
        response_style: Some("concise".to_string()),
        response_language: Some("zh-CN".to_string()),
        commit_message_language: Some("en-US".to_string()),
        thinking_level: Some("high".to_string()),
        primary_provider_id: Some("primary-provider".to_string()),
        primary_model_id: Some("primary-model".to_string()),
        auxiliary_provider_id: Some("aux-provider".to_string()),
        auxiliary_model_id: Some("aux-model".to_string()),
        lightweight_provider_id: Some("light-provider".to_string()),
        lightweight_model_id: Some("light-model".to_string()),
        is_default: true,
        created_at: "2026-04-24T00:00:00Z".to_string(),
        updated_at: "2026-04-24T01:00:00Z".to_string(),
    });

    assert_eq!(dto.name, "Default");
    assert_eq!(dto.custom_instructions.as_deref(), Some("Be concise"));
    assert_eq!(dto.commit_message_prompt.as_deref(), Some("Write conventional commits"));
    assert_eq!(dto.response_style.as_deref(), Some("concise"));
    assert_eq!(dto.response_language.as_deref(), Some("zh-CN"));
    assert_eq!(dto.commit_message_language.as_deref(), Some("en-US"));
    assert_eq!(dto.thinking_level.as_deref(), Some("high"));
    assert_eq!(dto.primary_provider_id.as_deref(), Some("primary-provider"));
    assert_eq!(dto.primary_model_id.as_deref(), Some("primary-model"));
    assert_eq!(dto.auxiliary_provider_id.as_deref(), Some("aux-provider"));
    assert_eq!(dto.auxiliary_model_id.as_deref(), Some("aux-model"));
    assert_eq!(dto.lightweight_provider_id.as_deref(), Some("light-provider"));
    assert_eq!(dto.lightweight_model_id.as_deref(), Some("light-model"));
    assert!(dto.is_default);
}

#[test]
fn workspace_status_maps_known_values_and_defaults_unknown_to_invalid() {
    assert_eq!(WorkspaceStatus::Ready.as_str(), "ready");
    assert_eq!(WorkspaceStatus::Missing.as_str(), "missing");
    assert_eq!(WorkspaceStatus::Inaccessible.as_str(), "inaccessible");
    assert_eq!(WorkspaceStatus::Invalid.as_str(), "invalid");

    assert_eq!(WorkspaceStatus::from_str("ready"), WorkspaceStatus::Ready);
    assert_eq!(WorkspaceStatus::from_str("missing"), WorkspaceStatus::Missing);
    assert_eq!(WorkspaceStatus::from_str("inaccessible"), WorkspaceStatus::Inaccessible);
    assert_eq!(WorkspaceStatus::from_str("archived"), WorkspaceStatus::Invalid);
}

#[test]
fn workspace_kind_maps_known_values_and_defaults_unknown_to_standalone() {
    assert_eq!(WorkspaceKind::Standalone.as_str(), "standalone");
    assert_eq!(WorkspaceKind::Repo.as_str(), "repo");
    assert_eq!(WorkspaceKind::Worktree.as_str(), "worktree");

    assert_eq!(WorkspaceKind::from_str("repo"), WorkspaceKind::Repo);
    assert_eq!(WorkspaceKind::from_str("worktree"), WorkspaceKind::Worktree);
    assert_eq!(WorkspaceKind::from_str("folder"), WorkspaceKind::Standalone);
}

fn utc(dt: chrono::DateTime<Utc>) -> UtcDateTime {
    UtcDateTime::from_timestamp(dt.timestamp(), dt.timestamp_subsec_nanos()).unwrap()
}

#[test]
fn workspace_dto_from_record_preserves_worktree_fields_and_formats_dates() {
    let created_at = Utc.with_ymd_and_hms(2026, 4, 24, 1, 2, 3).unwrap();
    let updated_at = Utc.with_ymd_and_hms(2026, 4, 24, 4, 5, 6).unwrap();
    let last_validated_at = Utc.with_ymd_and_hms(2026, 4, 24, 7, 8, 9).unwrap();

    let dto = WorkspaceDto::from(WorkspaceRecord {
        id: "ws-worktree".to_string(),
        name: "Feature Worktree".to_string(),
        path: "/repo-feature".to_string(),
        canonical_path: "/canonical/repo-feature".to_string(),
        display_path: "~/repo-feature".to_string(),
        is_default: true,
        is_git: true,
        auto_work_tree: true,
        status: WorkspaceStatus::Ready,
        last_validated_at: Some(utc(last_validated_at)),
        created_at: utc(created_at),
        updated_at: utc(updated_at),
        kind: WorkspaceKind::Worktree,
        parent_workspace_id: Some("ws-parent".to_string()),
        git_common_dir: Some("/repo/.git/worktrees/feature".to_string()),
        branch: Some("feature/test".to_string()),
        worktree_name: Some("abc123-feature-test".to_string()),
    });

    assert_eq!(dto.id, "ws-worktree");
    assert_eq!(dto.status, WorkspaceStatus::Ready);
    assert_eq!(dto.kind, WorkspaceKind::Worktree);
    assert_eq!(dto.parent_workspace_id.as_deref(), Some("ws-parent"));
    assert_eq!(dto.git_common_dir.as_deref(), Some("/repo/.git/worktrees/feature"));
    assert_eq!(dto.branch.as_deref(), Some("feature/test"));
    assert_eq!(dto.worktree_name.as_deref(), Some("abc123-feature-test"));
    assert_eq!(dto.created_at, created_at.to_rfc3339());
    assert_eq!(dto.updated_at, updated_at.to_rfc3339());
    assert_eq!(dto.last_validated_at.as_deref(), Some(last_validated_at.to_rfc3339().as_str()));
}

fn object(fields: Vec<(&str, Json)>) -> Json {
    Json::Object(fields.into_iter().map(|(k, v)| (k.to_string(), v)).collect())
}

#[test]
fn extract_boundary_message_id_is_tolerant_of_malformed_metadata() {
    // Missing metadata, and metadata that does not parse as JSON.
    assert_eq!(extract_boundary_message_id(None), None);
    // Empty string values are treated as "no boundary".
    let empty = object(vec![("boundaryMessageId", Json::Str(String::new()))]);
    assert_eq!(extract_boundary_message_id(Some(&empty)), None);
    // Wrong type: the boundary is numeric instead of a string.
    let numeric = object(vec![("boundaryMessageId", Json::Int(123))]);
    assert_eq!(extract_boundary_message_id(Some(&numeric)), None);
    let good = object(vec![
        ("kind", Json::Str("context_reset".to_string())),
        ("boundaryMessageId", Json::Str("msg-42".to_string())),
    ]);
    assert_eq!(extract_boundary_message_id(Some(&good)).as_deref(), Some("msg-42"));
}

fn marker_rows() -> Vec<MarkerRow> {
    let compaction = object(vec![("kind", Json::Str("summary".to_string()))]);
    let reset = object(vec![
        ("kind", Json::Str("context_reset".to_string())),
        ("boundaryMessageId", Json::Str("m-7".to_string())),
    ]);
    let plain_reset = object(vec![("kind", Json::Str("context_reset".to_string()))]);
    vec![
        MarkerRow { id: "m-20".to_string(), metadata: Some(compaction) },
        MarkerRow { id: "m-15".to_string(), metadata: None },
        MarkerRow { id: "m-10".to_string(), metadata: Some(reset) },
        MarkerRow { id: "m-5".to_string(), metadata: Some(plain_reset) },
    ]
}

#[test]
fn context_reset_marker_is_the_newest_reset_and_its_cursor() {
    let rows = marker_rows();
    assert!(metadata_kind_matches(rows[2].metadata.as_ref(), "context_reset"));
    assert!(!metadata_kind_matches(rows[0].metadata.as_ref(), "context_reset"));
    assert!(!metadata_kind_matches(None, "context_reset"));
    let marker = find_last_context_reset(&rows).unwrap();
    assert_eq!(marker.id, "m-10");
    assert_eq!(reset_cursor(&marker), "m-7");
    let mut older = marker_rows();
    older.drain(0..3);
    assert_eq!(reset_cursor(&find_last_context_reset(&older).unwrap()), "m-5");
    let mut none = marker_rows();
    none.truncate(2);
    assert!(find_last_context_reset(&none).is_none());
    assert_eq!(nth_from_end_offset(0), None);
    assert_eq!(nth_from_end_offset(1), Some(0));
    assert_eq!(nth_from_end_offset(24), Some(23));
}

#[test]
fn stored_json_is_shown_parsed_or_as_its_fallback() {
    let rec = SettingRecord { key: "k".to_string(), value_json: "not json".to_string(), updated_at: "t".to_string() };
    let dto = rec.into_dto(None);
    assert!(matches!(dto.value, Json::Null));
    assert_eq!(dto.key, "k");
    let rec = SettingRecord { key: "k".to_string(), value_json: "true".to_string(), updated_at: "t".to_string() };
    assert!(matches!(rec.into_dto(Some(Json::Bool(true))).value, Json::Bool(true)));

    let row = ToolCallRow {
        storage_id: "s".to_string(),
        tool_call_id: "c".to_string(),
        run_id: "r".to_string(),
        thread_id: "t".to_string(),
        helper_id: None,
        tool_name: "shell".to_string(),
        tool_input_json: "raw input".to_string(),
        tool_output_json: None,
        status: "done".to_string(),
        approval_status: None,
        started_at: "a".to_string(),
        finished_at: None,
    };
    let dto = row.into_dto(None, Some(Json::Int(1)));
    assert_eq!(dto.id, "c");
    assert!(matches!(dto.tool_input, Json::Str(ref s) if s == "raw input"));
    assert!(dto.tool_output.is_none());
}

#[test]
fn provider_settings_hide_the_key_and_keep_models_in_order() {
    let model = |id: &str| ProviderModelRecord {
        id: id.to_string(),
        provider_id: "p".to_string(),
        model_name: format!("{id}-name"),
        sort_index: 0,
        display_name: None,
        enabled: true,
        context_window: None,
        max_output_tokens: None,
        capabilities_json: Some("{}".to_string()),
        provider_options_json: None,
        is_manual: false,
        created_at: "c".to_string(),
    };
    let m1 = ProviderModelSettingsDto::from_record(model("m1"), Some(Json::Object(vec![])), Some(Json::Null));
    assert_eq!(m1.model_id, "m1-name");
    assert!(m1.capability_overrides.is_some());
    assert!(m1.provider_options.is_none());
    let m2 = ProviderModelSettingsDto::from_record(model("m2"), None, None);
    let record = ProviderRecord {
        id: "p".to_string(),
        provider_kind: ProviderKind::Custom,
        provider_key: "key".to_string(),
        provider_type: "openai".to_string(),
        display_name: "P".to_string(),
        base_url: "https://x".to_string(),
        api_key_encrypted: Some("secret".to_string()),
        enabled: true,
        mapping_locked: false,
        custom_headers_json: None,
        created_at: "c".to_string(),
        updated_at: "u".to_string(),
    };
    let dto = ProviderSettingsDto::from_record(record, Some(Json::Null), vec![m1, m2]);
    assert_eq!(dto.kind, "custom");
    assert!(dto.has_api_key);
    assert!(dto.custom_headers.is_none());
    assert_eq!(dto.models.iter().map(|m| m.id.as_str()).collect::<Vec<_>>(), vec!["m1", "m2"]);
}

fn is_object_with(j: &Option<Json>, key: &str, check: impl Fn(&Json) -> bool) -> bool {
    match j {
        Some(Json::Object(fields)) => fields.len() == 1 && fields[0].0 == key && check(&fields[0].1),
        _ => false,
    }
}

#[test]
fn provider_model_settings_dto_parses_valid_json_and_ignores_invalid_json() {
    // `capabilities_json` parses to {"tools": true}; `provider_options_json` ("not-json") does not parse.
    let dto = ProviderModelSettingsDto::from_record(
        ProviderModelRecord {
            id: "model-row-1".to_string(),
            provider_id: "provider-1".to_string(),
            model_name: "sonnet-model".to_string(),
            sort_index: 7,
            display_name: Some("Sonnet Model".to_string()),
            enabled: true,
            context_window: Some("200000".to_string()),
            max_output_tokens: Some("8192".to_string()),
            capabilities_json: Some(r#"{"tools":true}"#.to_string()),
            provider_options_json: Some("not-json".to_string()),
            is_manual: false,
            created_at: "2026-04-24T00:00:00Z".to_string(),
        },
        Some(Json::Object(vec![("tools".to_string(), Json::Bool(true))])),
        None,
    );

    assert_eq!(dto.id, "model-row-1");
    assert_eq!(dto.model_id, "sonnet-model");
    assert_eq!(dto.sort_index, 7);
    assert!(is_object_with(&dto.capability_overrides, "tools", |v| matches!(v, Json::Bool(true))));
    assert!(dto.provider_options.is_none());
    assert!(!dto.is_manual);
}

#[test]
fn provider_settings_dto_from_record_sets_flags_and_nested_models() {
    let provider = ProviderRecord {
        id: "provider-1".to_string(),
        provider_kind: ProviderKind::Builtin,
        provider_key: "anthropic".to_string(),
        provider_type: "anthropic".to_string(),
        display_name: "Anthropic".to_string(),
        base_url: "https://api.anthropic.com".to_string(),
        api_key_encrypted: Some("encrypted".to_string()),
        enabled: true,
        mapping_locked: true,
        custom_headers_json: Some(r#"{"x-test":"enabled"}"#.to_string()),
        created_at: "2026-04-24T00:00:00Z".to_string(),
        updated_at: "2026-04-24T01:00:00Z".to_string(),
    };
    let model = ProviderModelRecord {
        id: "model-row-1".to_string(),
        provider_id: "provider-1".to_string(),
        model_name: "sonnet-model".to_string(),
        sort_index: 0,
        display_name: None,
        enabled: true,
        context_window: None,
        max_output_tokens: None,
        capabilities_json: Some("not-json".to_string()),
        provider_options_json: Some(r#"{"temperature":0.2}"#.to_string()),
        is_manual: true,
        created_at: "2026-04-24T00:00:00Z".to_string(),
    };
    // "not-json" does not parse; the options parse to {"temperature": 0.2}.
    let models = vec![ProviderModelSettingsDto::from_record(
        model,
        None,
        Some(Json::Object(vec![("temperature".to_string(), Json::Float("0.2".to_string()))])),
    )];

    let dto = ProviderSettingsDto::from_record(
        provider,
        Some(Json::Object(vec![("x-test".to_string(), Json::Str("enabled".to_string()))])),
        models,
    );

    assert_eq!(dto.id, "provider-1");
    assert_eq!(dto.kind, "builtin");
    assert_eq!(dto.provider_key, "anthropic");
    assert!(dto.enabled);
    assert!(dto.locked_mapping);
    assert!(dto.has_api_key);
    assert!(is_object_with(&dto.custom_headers, "x-test", |v| matches!(v, Json::Str(s) if s == "enabled")));
    assert_eq!(dto.models.len(), 1);
    assert!(dto.models[0].capability_overrides.is_none());
    assert!(is_object_with(&dto.models[0].provider_options, "temperature", |v| matches!(v, Json::Float(s) if s == "0.2")));
    assert!(dto.models[0].is_manual);
}
