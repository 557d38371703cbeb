use yach_backend::config::{
    native_active_model, native_available_models, native_model_selection,
    native_status_message, NativeProviderDogfoodConfig, RigProviderAdapterConfig,
    RigProviderConfig,
};
use yach_backend::prompt_turn::{
    native_cancelled_turn_events, native_fixture_outcome, native_fixture_turn_end,
    native_prompt_session_id, native_response_chunks, native_turn_refs,
    native_unconfigured_prompt_events, native_user_entry_event, NativeFixtureOutcome,
};
use yach_backend::proto::PromptOutcome;
use yach_backend::provider_context::{
    native_provider_message_shapes, native_provider_messages_from_log,
    native_provider_messages_from_log_with_static_context,
    NativeStaticContextBundle, NativeStaticContextItem, NativeStaticContextPlacement,
    NativeStaticContextPriority, NativeStaticContextSource, ProviderMessage,
};
use yach_backend::provider_loop::{
    native_provider_round_error_label, native_provider_round_error_to_provider_error,
    NativeProviderRoundError, NativeProviderToolLoopPolicy, NativeToolContinuationPolicy,
    ProviderErrorKind,
};
use yach_backend::session::{
    native_log_has_finished_turn, NativeEditEvidenceOutcome, NativeEditEvidenceSummary,
    NativeCompactionReason, NativeEditOperationEvidence, NativeEditTransactionId, NativeEntryId,
    NativeRole,
    NativeSessionEvent, NativeSessionId, NativeSessionLog, NativeToolOutcome,
    NativeToolPayloadSummary, NativeToolPermissionState, NativeToolRequestId, NativeTurnId,
    NativeTurnOutcome,
};
use yach_backend::session_files::{
    latest_native_session_log_path, native_session_id_from_log_path, native_session_log_path,
    native_session_path_for_id_in_dir, native_session_path_is_selectable,
};

fn native_provider_test_config() -> NativeProviderDogfoodConfig {
    NativeProviderDogfoodConfig {
        adapter: RigProviderAdapterConfig {
            provider: RigProviderConfig::Anthropic {
                api_key: String::from("test-key"),
            },
            timeout: std::time::Duration::from_secs(30),
            max_tokens: 1000,
            context_window: 200_000,
        },
        model: String::from("fixture-model"),
        test_delay_ms: None,
    }
}

fn append_native_provider_test_entry(
    log: &mut NativeSessionLog,
    session_id: &NativeSessionId,
    turn_id: &str,
    entry_id: &str,
    role: NativeRole,
    text: &str,
) {
    log.push(NativeSessionEvent::EntryAppended {
        session_id: session_id.clone(),
        entry_id: NativeEntryId(entry_id.to_owned()),
        parent_entry_id: None,
        turn_id: NativeTurnId(turn_id.to_owned()),
        role,
        text: text.to_owned(),
        provider: None,
    });
}

fn finish_native_provider_test_turn(
    log: &mut NativeSessionLog,
    session_id: &NativeSessionId,
    turn_id: &str,
    outcome: NativeTurnOutcome,
) {
    log.push(NativeSessionEvent::TurnFinished {
        session_id: session_id.clone(),
        turn_id: NativeTurnId(turn_id.to_owned()),
        outcome,
        reason: None,
    });
}

#[test]
fn native_provider_tool_loop_policy_matches_design_limits() {
    let policy = NativeProviderToolLoopPolicy::agent_default();

    assert_eq!(policy.max_tool_rounds, None);
    assert_eq!(policy.max_tool_calls_per_round, 16);
    assert_eq!(policy.max_total_tool_calls, 200);
    assert_eq!(policy.max_result_bytes_per_tool, 64 * 1024);
    assert_eq!(policy.max_total_result_bytes, 512 * 1024);

    let continuation_policy = policy.as_continuation_policy();
    assert_eq!(
        continuation_policy,
        NativeToolContinuationPolicy {
            max_tool_calls: 16,
            max_result_bytes: 64 * 1024,
        }
    );
}

#[test]
fn native_provider_agent_loop_limit_maps_to_redacted_provider_error() {
    let error = NativeProviderRoundError::ToolContinuation(String::from("tool_loop_too_many_rounds"));

    let provider_error = native_provider_round_error_to_provider_error(&error);

    assert_eq!(provider_error.kind, ProviderErrorKind::InvalidRequest);
    assert_eq!(
        provider_error.message,
        "Native provider tool loop stopped before completion"
    );
    assert_eq!(
        provider_error.redacted_debug,
        Some(String::from("tool_loop_too_many_rounds"))
    );
}

#[test]
fn native_provider_round_error_label_maps_second_round_helper_to_unexpected_tool_call() {
    assert_eq!(
        native_provider_round_error_label(&NativeProviderRoundError::SecondRoundToolCall),
        "unexpected_tool_call"
    );
}

#[test]
fn native_response_chunks_preserve_unicode() {
    let chunks = native_response_chunks("hello 🙂 native dogfood");

    assert_eq!(chunks.concat(), "hello 🙂 native dogfood");
    assert!(chunks.iter().all(|chunk| !chunk.is_empty()));
}

#[test]
fn native_fixture_outcome_uses_explicit_markers() {
    assert_eq!(native_fixture_outcome("hello"), NativeFixtureOutcome::Completed);
    assert_eq!(
        native_fixture_outcome("/native-fixture-fail"),
        NativeFixtureOutcome::Failed
    );
    assert_eq!(
        native_fixture_outcome("/native-fixture-malformed"),
        NativeFixtureOutcome::Malformed
    );
    assert_eq!(
        native_fixture_outcome("/native-fixture-cancel"),
        NativeFixtureOutcome::Cancelled
    );
}

#[test]
fn native_status_reports_local_read_only_resources_available() {
    let status = native_status_message(None, None);

    assert_eq!(
        status,
        "backend: native dogfood; local read-only project inspection available; provider tools require native-provider"
    );
}

#[test]
fn native_unconfigured_provider_status_reports_setup_error_and_recovery() {
    let status = native_status_message(
        None,
        Some("native provider setup failed: missing required env var YACH_RIG_ANTHROPIC_API_KEY"),
    );

    assert_eq!(
        status,
        "native provider setup failed: missing required env var YACH_RIG_ANTHROPIC_API_KEY; set the provider environment and relaunch yach tui"
    );
}

#[test]
fn native_provider_status_reports_agent_tools_available() {
    let config = native_provider_test_config();
    let status = native_status_message(Some(&config), None);

    assert_eq!(
        status,
        "backend: native provider dogfood via anthropic/fixture-model; read/search/list and exact/create edit tools available"
    );
}

#[test]
fn native_session_log_has_finished_turn_detects_terminal_event() {
    let turn_id = NativeTurnId(String::from("turn-7"));
    let mut log = NativeSessionLog::default();

    assert!(!native_log_has_finished_turn(&log, &turn_id));

    log.push(NativeSessionEvent::TurnFinished {
        session_id: NativeSessionId(String::from("default")),
        turn_id: turn_id.clone(),
        outcome: NativeTurnOutcome::Completed,
        reason: None,
    });

    assert!(native_log_has_finished_turn(&log, &turn_id));
    assert!(!native_log_has_finished_turn(
        &log,
        &NativeTurnId(String::from("turn-8"))
    ));
}

#[test]
fn native_provider_messages_include_resumed_transcript() {
    let session_id = NativeSessionId(String::from("default"));
    let mut log = NativeSessionLog::default();
    append_native_provider_test_entry(
        &mut log,
        &session_id,
        "turn-0",
        "entry-0-user",
        NativeRole::User,
        "first prompt",
    );
    append_native_provider_test_entry(
        &mut log,
        &session_id,
        "turn-0",
        "entry-0-assistant",
        NativeRole::Assistant,
        "first answer",
    );
    finish_native_provider_test_turn(&mut log, &session_id, "turn-0", NativeTurnOutcome::Completed);
    append_native_provider_test_entry(
        &mut log,
        &session_id,
        "turn-1",
        "entry-1-user",
        NativeRole::User,
        "second prompt",
    );

    assert_eq!(
        native_provider_messages_from_log(&log, &NativeTurnId(String::from("turn-1"))),
        vec![
            ProviderMessage {
                role: NativeRole::User,
                content: String::from("first prompt"),
            },
            ProviderMessage {
                role: NativeRole::Assistant,
                content: String::from("first answer"),
            },
            ProviderMessage {
                role: NativeRole::User,
                content: String::from("second prompt"),
            },
        ]
    );
}

#[test]
fn native_provider_messages_ignore_local_edit_evidence() {
    let session_id = NativeSessionId(String::from("default"));
    let turn_id = NativeTurnId(String::from("turn-1"));
    let mut log = NativeSessionLog::default();
    append_native_provider_test_entry(
        &mut log,
        &session_id,
        "turn-1",
        "entry-1-user",
        NativeRole::User,
        "current prompt",
    );

    let summary = NativeEditEvidenceSummary {
        operation_count: 1,
        operations: vec![NativeEditOperationEvidence::CreateTextFile {
            relative_path: String::from("notes.txt"),
            after_sha256: String::from("after"),
            after_bytes: 4,
            bytes_written: Some(4),
        }],
        diff_summary: NativeToolPayloadSummary {
            summary: String::from("+new\n"),
            byte_count: 5,
            redacted: false,
            truncated: false,
        },
    };
    log.push(NativeSessionEvent::EditTransactionPrepared {
        session_id: session_id.clone(),
        turn_id: turn_id.clone(),
        tool_request_id: Some(NativeToolRequestId(String::from("tool-request-1"))),
        transaction_id: NativeEditTransactionId(String::from("edit-1")),
        summary: summary.clone(),
    });
    log.push(NativeSessionEvent::EditTransactionFinished {
        session_id: session_id.clone(),
        turn_id: turn_id.clone(),
        tool_request_id: Some(NativeToolRequestId(String::from("tool-request-1"))),
        transaction_id: Some(NativeEditTransactionId(String::from("edit-1"))),
        outcome: NativeEditEvidenceOutcome::Completed,
        reason: None,
        summary: Some(summary),
    });

    assert_eq!(
        native_provider_messages_from_log(&log, &turn_id),
        vec![ProviderMessage {
            role: NativeRole::User,
            content: String::from("current prompt"),
        }]
    );
}

#[test]
fn native_provider_messages_ignore_agent_edit_evidence() {
    let session_id = NativeSessionId(String::from("default"));
    let turn_id = NativeTurnId(String::from("turn-1"));
    let mut log = NativeSessionLog::default();
    append_native_provider_test_entry(
        &mut log,
        &session_id,
        "turn-1",
        "entry-1-user",
        NativeRole::User,
        "current prompt",
    );
    log.push(NativeSessionEvent::ToolRequestRecorded {
        session_id: session_id.clone(),
        turn_id: turn_id.clone(),
        tool_request_id: NativeToolRequestId(String::from("tool-request-1")),
        tool_name: String::from("edit_text_file"),
        provider_call_id: Some(String::from("call-edit-1")),
        validation: Ok(()),
        permission: NativeToolPermissionState::Allowed,
        argument_summary: NativeToolPayloadSummary {
            summary: String::from("tool payload redacted"),
            byte_count: 42,
            redacted: true,
            truncated: false,
        },
        argument_content: None,
    });
    log.push(NativeSessionEvent::EditTransactionPrepared {
        session_id,
        turn_id: turn_id.clone(),
        tool_request_id: Some(NativeToolRequestId(String::from("tool-request-1"))),
        transaction_id: NativeEditTransactionId(String::from("edit-1")),
        summary: NativeEditEvidenceSummary {
            operation_count: 1,
            operations: vec![NativeEditOperationEvidence::ModifyTextFile {
                relative_path: String::from("src/lib.rs"),
                before_sha256: String::from("before"),
                after_sha256: String::from("after"),
                before_bytes: 12,
                after_bytes: 14,
                hunk_count: 1,
                bytes_written: None,
            }],
            diff_summary: NativeToolPayloadSummary {
                summary: String::from("tool payload redacted"),
                byte_count: 42,
                redacted: true,
                truncated: false,
            },
        },
    });

    let messages = native_provider_messages_from_log(&log, &turn_id);
    assert_eq!(
        messages,
        vec![ProviderMessage {
            role: NativeRole::User,
            content: String::from("current prompt"),
        }]
    );
    let rendered = format!("{messages:?}");
    assert!(!rendered.contains("edit_text_file"));
    assert!(!rendered.contains("call-edit-1"));
    assert!(!rendered.contains("tool-request-1"));
}

#[test]
fn native_provider_messages_mark_pre_persistence_tool_activity_as_not_retained() {
    let session_id = NativeSessionId(String::from("default"));
    let turn_id = NativeTurnId(String::from("turn-1"));
    let mut log = NativeSessionLog::default();
    append_native_provider_test_entry(
        &mut log,
        &session_id,
        "turn-1",
        "entry-1-user",
        NativeRole::User,
        "search",
    );
    log.push(NativeSessionEvent::ToolRequestRecorded {
        session_id: session_id.clone(),
        turn_id: turn_id.clone(),
        tool_request_id: NativeToolRequestId(String::from("tool-request-1")),
        tool_name: String::from("search_project"),
        provider_call_id: Some(String::from("call-1")),
        validation: Ok(()),
        permission: NativeToolPermissionState::Allowed,
        argument_summary: NativeToolPayloadSummary {
            summary: String::from("tool payload redacted"),
            byte_count: 20,
            redacted: true,
            truncated: false,
        },
        argument_content: None,
    });
    log.push(NativeSessionEvent::ToolExecutionFinished {
        session_id: session_id.clone(),
        turn_id: turn_id.clone(),
        tool_request_id: NativeToolRequestId(String::from("tool-request-1")),
        outcome: NativeToolOutcome::Completed,
        reason: None,
        result_summary: Some(NativeToolPayloadSummary {
            summary: String::from("search_project matches=2 truncated=false"),
            byte_count: 64,
            redacted: true,
            truncated: false,
        }),
        result_content: None,
    });

    let messages = native_provider_messages_from_log(&log, &turn_id);

    assert_eq!(messages.len(), 2);
    assert_eq!(messages[1].role, NativeRole::Tool);
    assert!(messages[1].content.contains("output not retained"));
    assert!(messages[1]
        .content
        .contains("search_project matches=2 truncated=false"));
}

#[test]
fn native_provider_messages_exclude_tool_activity_from_unfinished_prior_turns() {
    let session_id = NativeSessionId(String::from("default"));
    let prior_turn = NativeTurnId(String::from("turn-1"));
    let current_turn = NativeTurnId(String::from("turn-2"));
    let mut log = NativeSessionLog::default();
    append_native_provider_test_entry(
        &mut log,
        &session_id,
        "turn-1",
        "entry-1-user",
        NativeRole::User,
        "failed prompt",
    );
    log.push(NativeSessionEvent::ToolExecutionFinished {
        session_id: session_id.clone(),
        turn_id: prior_turn,
        tool_request_id: NativeToolRequestId(String::from("tool-request-1")),
        outcome: NativeToolOutcome::Completed,
        reason: None,
        result_summary: None,
        result_content: Some(String::from("{\"outcome\":\"list\"}")),
    });
    finish_native_provider_test_turn(&mut log, &session_id, "turn-1", NativeTurnOutcome::Failed);
    append_native_provider_test_entry(
        &mut log,
        &session_id,
        "turn-2",
        "entry-2-user",
        NativeRole::User,
        "current prompt",
    );

    let messages = native_provider_messages_from_log(&log, &current_turn);

    assert!(messages
        .iter()
        .all(|message| message.role != NativeRole::Tool));
}

fn agents_item() -> NativeStaticContextItem {
    NativeStaticContextItem {
        source: NativeStaticContextSource::AgentsMd,
        relative_path: String::from("AGENTS.md"),
        placement: NativeStaticContextPlacement::ProjectInstructions,
        title: String::from("AGENTS.md instructions for ."),
        content: String::from("root rules"),
        byte_count: "root rules".len(),
        priority: NativeStaticContextPriority::ProjectInstructions,
    }
}

#[test]
fn native_provider_messages_prepend_static_context_before_transcript() {
    let mut log = NativeSessionLog::default();
    let session_id = NativeSessionId(String::from("session-static-context"));
    let turn_id = NativeTurnId(String::from("turn-static-context"));
    log.push(NativeSessionEvent::EntryAppended {
        session_id: session_id.clone(),
        entry_id: NativeEntryId(String::from("entry-user")),
        parent_entry_id: None,
        turn_id: turn_id.clone(),
        role: NativeRole::User,
        text: String::from("hello"),
        provider: None,
    });
    let context = NativeStaticContextBundle {
        items: vec![agents_item()],
        total_bytes: "root rules".len(),
    };

    let messages = native_provider_messages_from_log_with_static_context(&log, &turn_id, &context);

    assert_eq!(messages.len(), 3);
    assert_eq!(messages[0].role, NativeRole::System);
    assert!(messages[0]
        .content
        .contains("coding agent running in the yach harness"));
    assert!(messages[0].content.contains("Match effort to the request"));
    assert_eq!(messages[1].role, NativeRole::System);
    assert!(messages[1].content.contains("# AGENTS.md instructions for ."));
    assert!(messages[1].content.contains("root rules"));
    assert_eq!(messages[2].role, NativeRole::User);
    assert_eq!(messages[2].content, "hello");
}

#[test]
fn native_provider_messages_render_extension_background_as_non_system_context() {
    let mut log = NativeSessionLog::default();
    let session_id = NativeSessionId(String::from("session-extension-background-context"));
    let turn_id = NativeTurnId(String::from("turn-extension-background-context"));
    log.push(NativeSessionEvent::EntryAppended {
        session_id,
        entry_id: NativeEntryId(String::from("entry-user")),
        parent_entry_id: None,
        turn_id: turn_id.clone(),
        role: NativeRole::User,
        text: String::from("hello"),
        provider: None,
    });
    let context = NativeStaticContextBundle {
        items: vec![
            agents_item(),
            NativeStaticContextItem {
                source: NativeStaticContextSource::ExtensionFile {
                    extension_id: String::from("example.context-pack"),
                    item_id: String::from("rust-style-guide"),
                },
                relative_path: String::from("context/rust.md"),
                placement: NativeStaticContextPlacement::BackgroundContext,
                title: String::from("Extension background context: Rust style guide"),
                content: String::from("extension guidance"),
                byte_count: "extension guidance".len(),
                priority: NativeStaticContextPriority::ExtensionBackground,
            },
        ],
        total_bytes: "root rulesextension guidance".len(),
    };

    let messages = native_provider_messages_from_log_with_static_context(&log, &turn_id, &context);

    assert_eq!(messages.len(), 4);
    assert_eq!(messages[0].role, NativeRole::System);
    assert!(messages[0]
        .content
        .contains("coding agent running in the yach harness"));
    assert_eq!(messages[1].role, NativeRole::System);
    assert!(messages[1].content.contains("root rules"));
    assert!(!messages[1].content.contains("extension guidance"));
    assert_eq!(messages[2].role, NativeRole::User);
    assert!(messages[2]
        .content
        .contains("# Extension background context: Rust style guide"));
    assert!(messages[2].content.contains("extension guidance"));
    assert_eq!(messages[3].role, NativeRole::User);
    assert_eq!(messages[3].content, "hello");
}

#[test]
fn native_provider_messages_exclude_failed_prior_turns() {
    let session_id = NativeSessionId(String::from("default"));
    let mut log = NativeSessionLog::default();
    append_native_provider_test_entry(
        &mut log,
        &session_id,
        "turn-0",
        "entry-0-user",
        NativeRole::User,
        "failed prompt",
    );
    finish_native_provider_test_turn(&mut log, &session_id, "turn-0", NativeTurnOutcome::Failed);
    append_native_provider_test_entry(
        &mut log,
        &session_id,
        "turn-1",
        "entry-1-user",
        NativeRole::User,
        "current prompt",
    );

    assert_eq!(
        native_provider_messages_from_log(&log, &NativeTurnId(String::from("turn-1"))),
        vec![ProviderMessage {
            role: NativeRole::User,
            content: String::from("current prompt"),
        }]
    );
}

#[test]
fn native_provider_messages_exclude_cancelled_prior_turns() {
    let session_id = NativeSessionId(String::from("default"));
    let mut log = NativeSessionLog::default();
    append_native_provider_test_entry(
        &mut log,
        &session_id,
        "turn-0",
        "entry-0-user",
        NativeRole::User,
        "cancelled prompt",
    );
    finish_native_provider_test_turn(&mut log, &session_id, "turn-0", NativeTurnOutcome::Cancelled);
    append_native_provider_test_entry(
        &mut log,
        &session_id,
        "turn-1",
        "entry-1-user",
        NativeRole::User,
        "current prompt",
    );

    assert_eq!(
        native_provider_messages_from_log(&log, &NativeTurnId(String::from("turn-1"))),
        vec![ProviderMessage {
            role: NativeRole::User,
            content: String::from("current prompt"),
        }]
    );
}

// ---------------------------------------------------------------------------
// Own tests: configuration and models
// ---------------------------------------------------------------------------

#[test]
fn active_model_follows_provider_configuration() {
    let config = native_provider_test_config();
    let model = native_active_model(Some(&config), None);
    assert_eq!(model.id, "fixture-model");
    assert_eq!(model.name, "fixture-model");
    assert_eq!(model.provider, "anthropic");

    let unconfigured = native_active_model(None, Some("setup failed"));
    assert_eq!(unconfigured.id, "provider-unconfigured");
    assert_eq!(unconfigured.name, "Provider Not Configured");
    assert_eq!(unconfigured.provider, "native");

    let fixture = native_active_model(None, None);
    assert_eq!(fixture.id, "fixture-echo");
    assert_eq!(fixture.name, "Fixture Echo");
    assert_eq!(config.provider_label(), "anthropic");
}

fn curated_choices() -> Vec<(String, String)> {
    vec![
        (String::from("model-large"), String::from("Model Large")),
        (String::from("model-medium"), String::from("Model Medium")),
        (String::from("model-small"), String::from("Model Small")),
    ]
}

#[test]
fn chatgpt_subscription_provider_has_its_own_label() {
    let mut config = native_provider_test_config();
    config.adapter.provider = RigProviderConfig::ChatGptSubscription {
        credentials: String::from("token"),
    };
    assert_eq!(config.provider_label(), "chatgpt-subscription");
    let models = native_available_models(Some(&config), None, &curated_choices());
    assert_eq!(models.len(), 1);
    assert_eq!(models[0].provider, "chatgpt-subscription");
}

#[test]
fn anthropic_models_list_curated_choices_after_the_active_one() {
    let mut config = native_provider_test_config();
    config.model = String::from("model-medium");
    let models = native_available_models(Some(&config), None, &curated_choices());
    let ids: Vec<&str> = models.iter().map(|model| model.id.as_str()).collect();
    assert_eq!(ids, vec!["model-medium", "model-large", "model-small"]);
    assert_eq!(models[1].name, "Model Large");
    assert_eq!(models[2].provider, "anthropic");

    let fixture_models = native_available_models(None, None, &curated_choices());
    assert_eq!(fixture_models.len(), 1);
    assert_eq!(fixture_models[0].id, "fixture-echo");
}

#[test]
fn model_selection_switches_model_and_rejects_other_providers() {
    let mut provider = Some(native_provider_test_config());
    let rejected = native_model_selection(
        &mut provider,
        false,
        Some("openai"),
        String::from("gpt-5.3"),
    );
    assert_eq!(
        rejected.status.as_deref(),
        Some("model change rejected: provider openai is not the configured provider (anthropic)")
    );
    assert_eq!(rejected.model_changed, None);
    assert_eq!(provider.as_ref().map(|p| p.model.as_str()), Some("fixture-model"));

    let changed = native_model_selection(
        &mut provider,
        false,
        Some("anthropic"),
        String::from("model-large"),
    );
    assert_eq!(changed.status.as_deref(), Some("model changed to model-large"));
    assert_eq!(changed.model_changed.as_deref(), Some("model-large"));
    assert_eq!(provider.as_ref().map(|p| p.model.as_str()), Some("model-large"));

    let busy = native_model_selection(&mut provider, true, None, String::from("x"));
    assert_eq!(
        busy.status.as_deref(),
        Some("model change unavailable while a prompt is in progress")
    );
    assert_eq!(provider.as_ref().map(|p| p.model.as_str()), Some("model-large"));

    let mut none = None;
    let announced = native_model_selection(&mut none, false, None, String::from("m"));
    assert_eq!(announced.status, None);
    assert_eq!(announced.model_changed.as_deref(), Some("m"));
}

// ---------------------------------------------------------------------------
// Own tests: session files
// ---------------------------------------------------------------------------

#[test]
fn session_files_are_named_by_session_id() {
    assert_eq!(
        native_session_log_path("/work/.yach/native-sessions", "session-a"),
        "/work/.yach/native-sessions/session-a.jsonl"
    );
    assert_eq!(
        native_session_id_from_log_path("/tmp/x/session-a.jsonl").as_deref(),
        Some("session-a")
    );
    assert_eq!(native_session_id_from_log_path("/tmp/x/session-a.json"), None);
    assert_eq!(native_session_id_from_log_path("/tmp/x/.jsonl"), None);
    assert_eq!(native_session_id_from_log_path("/tmp/x/noext"), None);
}

#[test]
fn requested_session_ids_cannot_escape_the_session_directory() {
    assert_eq!(
        native_session_path_for_id_in_dir(Some("/s"), "b").as_deref(),
        Some("/s/b.jsonl")
    );
    assert_eq!(native_session_path_for_id_in_dir(Some("/s"), ""), None);
    assert_eq!(native_session_path_for_id_in_dir(Some("/s"), "."), None);
    assert_eq!(native_session_path_for_id_in_dir(Some("/s"), ".."), None);
    assert_eq!(native_session_path_for_id_in_dir(Some("/s"), "a/b"), None);
    assert_eq!(native_session_path_for_id_in_dir(Some("/s"), "a\\b"), None);
    assert_eq!(native_session_path_for_id_in_dir(None, "b"), None);
}

#[test]
fn selectable_session_paths_share_the_current_directory() {
    assert!(native_session_path_is_selectable("/s/b.jsonl", "/s/a.jsonl", true));
    assert!(!native_session_path_is_selectable("/s/b.jsonl", "/s/a.jsonl", false));
    assert!(!native_session_path_is_selectable("/t/b.jsonl", "/s/a.jsonl", true));
    assert!(!native_session_path_is_selectable("/s/b.txt", "/s/a.jsonl", true));
}

#[test]
fn latest_session_file_is_the_last_newest_session() {
    let entries = vec![
        (String::from("/s/a.jsonl"), 10u128),
        (String::from("/s/notes.txt"), 99u128),
        (String::from("/s/b.jsonl"), 20u128),
        (String::from("/s/c.jsonl"), 20u128),
        (String::from("/s/d.jsonl"), 5u128),
    ];
    assert_eq!(
        latest_native_session_log_path(&entries).as_deref(),
        Some("/s/c.jsonl")
    );
    let none = vec![(String::from("/s/notes.txt"), 1u128)];
    assert_eq!(latest_native_session_log_path(&none), None);
}

// ---------------------------------------------------------------------------
// Own tests: prompt turns
// ---------------------------------------------------------------------------

#[test]
fn prompts_run_in_the_current_session_only() {
    assert_eq!(native_prompt_session_id("s1", "").as_deref(), Ok("s1"));
    assert_eq!(native_prompt_session_id("s1", "default").as_deref(), Ok("s1"));
    assert_eq!(native_prompt_session_id("s1", "s1").as_deref(), Ok("s1"));
    assert_eq!(
        native_prompt_session_id("s1", "s2"),
        Err(String::from("native dogfood: unknown session s2"))
    );
}

#[test]
fn turn_refs_number_turn_and_entries() {
    let refs = native_turn_refs(42);
    assert_eq!(refs.turn.0, "turn-42");
    assert_eq!(refs.user_entry.0, "entry-42-user");
    assert_eq!(refs.assistant_entry.0, "entry-42-assistant");
    assert_eq!(native_turn_refs(0).turn.0, "turn-0");
}

#[test]
fn response_chunks_hold_at_least_sixteen_bytes_but_the_last() {
    let chunks = native_response_chunks("abcdefghijklmnopqrstuvwxyz");
    assert_eq!(chunks, vec![String::from("abcdefghijklmnop"), String::from("qrstuvwxyz")]);
    let unicode = native_response_chunks("ééééééééé");
    assert_eq!(unicode, vec![String::from("éééééééé"), String::from("é")]);
    assert!(native_response_chunks("").is_empty());
}

#[test]
fn completed_fixture_turn_appends_answer_and_finish() {
    let session = NativeSessionId(String::from("default"));
    let refs = native_turn_refs(3);
    let end = native_fixture_turn_end(&session, &refs, "hi", NativeFixtureOutcome::Completed, false, 7);
    assert_eq!(end.failure_status, None);
    assert_eq!(end.events.len(), 3);
    match &end.events[0] {
        NativeSessionEvent::MetricRecorded { metric, turn_id, .. } => {
            assert_eq!(metric.name, "native_prompt_total");
            assert_eq!(metric.duration_ms, 7);
            assert_eq!(turn_id.as_ref().map(|t| t.0.as_str()), Some("turn-3"));
        }
        other => panic!("unexpected event {other:?}"),
    }
    match &end.events[1] {
        NativeSessionEvent::EntryAppended { text, role, parent_entry_id, entry_id, .. } => {
            assert_eq!(text, "native dogfood fixture response: hi");
            assert_eq!(*role, NativeRole::Assistant);
            assert_eq!(entry_id.0, "entry-3-assistant");
            assert_eq!(parent_entry_id.as_ref().map(|p| p.0.as_str()), Some("entry-3-user"));
        }
        other => panic!("unexpected event {other:?}"),
    }
    assert!(matches!(
        &end.events[2],
        NativeSessionEvent::TurnFinished { outcome: NativeTurnOutcome::Completed, reason: None, .. }
    ));
    assert_eq!(NativeFixtureOutcome::Completed.status_message(), "turn_end native dogfood");
    assert_eq!(NativeFixtureOutcome::Completed.prompt_outcome(), PromptOutcome::Completed);
}

#[test]
fn dropped_client_cancels_fixture_turn() {
    let session = NativeSessionId(String::from("default"));
    let refs = native_turn_refs(1);
    let end = native_fixture_turn_end(&session, &refs, "hi", NativeFixtureOutcome::Completed, true, 1);
    assert_eq!(end.events.len(), 2);
    match &end.events[1] {
        NativeSessionEvent::TurnFinished { outcome, reason, .. } => {
            assert_eq!(*outcome, NativeTurnOutcome::Cancelled);
            assert_eq!(reason.as_deref(), Some("ui receiver dropped"));
        }
        other => panic!("unexpected event {other:?}"),
    }
}

#[test]
fn failing_fixture_turns_record_provider_error_reason() {
    let session = NativeSessionId(String::from("default"));
    let refs = native_turn_refs(2);
    let end = native_fixture_turn_end(&session, &refs, "x", NativeFixtureOutcome::Malformed, false, 0);
    assert_eq!(
        end.failure_status.as_deref(),
        Some("native provider failed (malformed_stream): native dogfood fixture malformed stream")
    );
    match &end.events[1] {
        NativeSessionEvent::TurnFinished { outcome, reason, .. } => {
            assert_eq!(*outcome, NativeTurnOutcome::Failed);
            assert_eq!(
                reason.as_deref(),
                Some("provider_error kind=malformed_stream message=native dogfood fixture malformed stream")
            );
        }
        other => panic!("unexpected event {other:?}"),
    }
    let cancelled =
        native_fixture_turn_end(&session, &refs, "x", NativeFixtureOutcome::Cancelled, false, 0);
    assert_eq!(
        cancelled.failure_status.as_deref(),
        Some("native provider failed (cancelled): native provider cancelled")
    );
    assert!(matches!(
        &cancelled.events[1],
        NativeSessionEvent::TurnFinished { outcome: NativeTurnOutcome::Cancelled, .. }
    ));
    assert_eq!(NativeFixtureOutcome::Malformed.prompt_outcome(), PromptOutcome::Failed);
    assert_eq!(
        NativeFixtureOutcome::Cancelled.status_message(),
        "turn_end native dogfood cancelled"
    );
}

#[test]
fn metric_durations_saturate_at_u64_max() {
    let session = NativeSessionId(String::from("default"));
    let refs = native_turn_refs(2);
    let end = native_fixture_turn_end(
        &session,
        &refs,
        "x",
        NativeFixtureOutcome::Failed,
        false,
        u128::from(u64::MAX) + 5,
    );
    match &end.events[0] {
        NativeSessionEvent::MetricRecorded { metric, .. } => assert_eq!(metric.duration_ms, u64::MAX),
        other => panic!("unexpected event {other:?}"),
    }
}

#[test]
fn unconfigured_provider_prompt_fails_with_setup_error() {
    let session = NativeSessionId(String::from("default"));
    let refs = native_turn_refs(0);
    let (events, status) =
        native_unconfigured_prompt_events(&session, &refs, "hello", "missing key", 3);
    assert_eq!(status, "missing key; set the provider environment and relaunch yach tui");
    assert_eq!(events.len(), 3);
    assert_eq!(
        events[0],
        native_user_entry_event(&session, &refs, "hello")
    );
    match &events[2] {
        NativeSessionEvent::TurnFinished { outcome, reason, .. } => {
            assert_eq!(*outcome, NativeTurnOutcome::Failed);
            assert_eq!(reason.as_deref(), Some("provider_unconfigured missing key"));
        }
        other => panic!("unexpected event {other:?}"),
    }
}

#[test]
fn cancelled_turn_is_recorded_once() {
    let session = NativeSessionId(String::from("default"));
    let turn = NativeTurnId(String::from("turn-4"));
    let mut log = NativeSessionLog::default();
    let events = native_cancelled_turn_events(&log, &session, &turn, "user cancelled", 9);
    assert_eq!(events.len(), 2);
    for event in events {
        log.push(event);
    }
    assert!(native_cancelled_turn_events(&log, &session, &turn, "user cancelled", 9).is_empty());
}

#[test]
fn incomplete_turns_after_a_checkpoint_add_no_context() {
    let session_id = NativeSessionId(String::from("default"));
    let mut log = NativeSessionLog::default();
    append_native_provider_test_entry(&mut log, &session_id, "turn-0", "entry-0-user", NativeRole::User, "old prompt");
    finish_native_provider_test_turn(&mut log, &session_id, "turn-0", NativeTurnOutcome::Completed);
    append_native_provider_test_entry(&mut log, &session_id, "turn-1", "entry-1-user", NativeRole::User, "kept prompt");
    finish_native_provider_test_turn(&mut log, &session_id, "turn-1", NativeTurnOutcome::Completed);
    log.push(NativeSessionEvent::CompactionCheckpoint {
        session_id: session_id.clone(),
        turn_id: NativeTurnId(String::from("turn-2")),
        checkpoint_id: yach_backend::session::NativeCompactionCheckpointId(String::from("checkpoint-1")),
        summary: String::from("the summary"),
        first_kept_entry_id: NativeEntryId(String::from("entry-1-user")),
        kept_start_index: 2,
        tokens_before: 100,
        tokens_after_estimate: 10,
        reason: NativeCompactionReason::Threshold,
        compactor: String::from("summary"),
        details: String::from("{}"),
    });
    let mut without_failed = log.clone();
    append_native_provider_test_entry(&mut log, &session_id, "turn-3", "entry-3-user", NativeRole::User, "failed prompt");
    finish_native_provider_test_turn(&mut log, &session_id, "turn-3", NativeTurnOutcome::Failed);
    for target in [&mut log, &mut without_failed] {
        append_native_provider_test_entry(target, &session_id, "turn-4", "entry-4-user", NativeRole::User, "current prompt");
    }
    let current = NativeTurnId(String::from("turn-4"));
    let messages = native_provider_messages_from_log(&log, &current);
    assert_eq!(messages, native_provider_messages_from_log(&without_failed, &current));
    let contents: Vec<&str> = messages.iter().map(|m| m.content.as_str()).collect();
    assert_eq!(contents.len(), 3);
    assert!(contents[0].ends_with("the summary"));
    assert_eq!(&contents[1..], &["kept prompt", "current prompt"]);
}

#[test]
fn session_log_paths_name_their_session() {
    for id in ["abc", "session-1-2", ".hidden", "a.b"] {
        let path = native_session_log_path("/work/.yach/native-sessions", id);
        assert_eq!(native_session_id_from_log_path(&path).as_deref(), Some(id));
    }
}

#[test]
fn native_provider_messages_include_tool_activity_with_persisted_payloads() {
    let session_id = NativeSessionId(String::from("default"));
    let prior_turn = NativeTurnId(String::from("turn-1"));
    let current_turn = NativeTurnId(String::from("turn-2"));
    let mut log = NativeSessionLog::default();
    append_native_provider_test_entry(
        &mut log,
        &session_id,
        "turn-1",
        "entry-1-user",
        NativeRole::User,
        "list src",
    );
    log.push(NativeSessionEvent::ToolRequestRecorded {
        session_id: session_id.clone(),
        turn_id: prior_turn.clone(),
        tool_request_id: NativeToolRequestId(String::from("tool-request-1")),
        tool_name: String::from("list_project_paths"),
        provider_call_id: Some(String::from("call-1")),
        validation: Ok(()),
        permission: NativeToolPermissionState::Allowed,
        argument_summary: NativeToolPayloadSummary {
            summary: String::from("tool payload redacted"),
            byte_count: 15,
            redacted: true,
            truncated: false,
        },
        argument_content: Some(String::from("{\"path\":\"src\"}")),
    });
    log.push(NativeSessionEvent::ToolExecutionFinished {
        session_id: session_id.clone(),
        turn_id: prior_turn.clone(),
        tool_request_id: NativeToolRequestId(String::from("tool-request-1")),
        outcome: NativeToolOutcome::Completed,
        reason: None,
        result_summary: Some(NativeToolPayloadSummary {
            summary: String::from("list_project_paths entries=1 truncated=false"),
            byte_count: 64,
            redacted: true,
            truncated: false,
        }),
        result_content: Some(String::from(
            "{\"outcome\":\"list\",\"entries\":[{\"path\":\"src/lib.rs\",\"kind\":\"file\"}],\"truncated\":false}",
        )),
    });
    append_native_provider_test_entry(
        &mut log,
        &session_id,
        "turn-1",
        "entry-1-assistant",
        NativeRole::Assistant,
        "listed",
    );
    finish_native_provider_test_turn(&mut log, &session_id, "turn-1", NativeTurnOutcome::Completed);
    append_native_provider_test_entry(
        &mut log,
        &session_id,
        "turn-2",
        "entry-2-user",
        NativeRole::User,
        "current prompt",
    );

    let messages = native_provider_messages_from_log(&log, &current_turn);

    assert_eq!(messages.len(), 4);
    assert_eq!(messages[1].role, NativeRole::Tool);
    let tool_message = serde_json::from_str::<serde_json::Value>(&messages[1].content);
    assert!(tool_message.is_ok(), "tool message should be json");
    let Ok(tool_message) = tool_message else {
        return;
    };
    assert_eq!(tool_message["tool_name"], "list_project_paths");
    assert_eq!(tool_message["status"], "completed");
    assert_eq!(tool_message["arguments"]["path"], "src");
    assert_eq!(tool_message["content"]["entries"][0]["path"], "src/lib.rs");
}

#[test]
fn native_provider_messages_rebuild_from_newest_compaction_checkpoint() {
    let session_id = NativeSessionId(String::from("default"));
    let current_turn = NativeTurnId(String::from("turn-3"));
    let mut log = NativeSessionLog::default();
    append_native_provider_test_entry(
        &mut log,
        &session_id,
        "turn-1",
        "entry-1-user",
        NativeRole::User,
        "old work that was folded",
    );
    finish_native_provider_test_turn(&mut log, &session_id, "turn-1", NativeTurnOutcome::Completed);
    log.push(NativeSessionEvent::CompactionCheckpoint {
        session_id: session_id.clone(),
        turn_id: NativeTurnId(String::from("turn-2")),
        checkpoint_id: yach_backend::session::NativeCompactionCheckpointId(String::from("checkpoint-1")),
        summary: String::from("anchored summary of the folded work"),
        first_kept_entry_id: NativeEntryId(String::from("entry-2-user")),
        kept_start_index: 3,
        tokens_before: 90_000,
        tokens_after_estimate: 12_000,
        reason: NativeCompactionReason::Threshold,
        compactor: String::from("summary"),
        details: String::from("{}"),
    });
    append_native_provider_test_entry(
        &mut log,
        &session_id,
        "turn-2",
        "entry-2-user",
        NativeRole::User,
        "kept turn prompt",
    );
    finish_native_provider_test_turn(&mut log, &session_id, "turn-2", NativeTurnOutcome::Completed);
    append_native_provider_test_entry(
        &mut log,
        &session_id,
        "turn-3",
        "entry-3-user",
        NativeRole::User,
        "current prompt",
    );

    let messages = native_provider_messages_from_log(&log, &current_turn);

    assert_eq!(messages.len(), 3);
    assert_eq!(messages[0].role, NativeRole::System);
    assert!(messages[0].content.contains("was compacted"));
    assert!(messages[0].content.contains("anchored summary of the folded work"));
    assert_eq!(messages[1].content, "kept turn prompt");
    assert_eq!(messages[2].content, "current prompt");
    assert!(messages
        .iter()
        .all(|message| !message.content.contains("old work that was folded")));

    // One summary system message, then the verbatim kept tail.
    assert_eq!(
        native_provider_message_shapes(&messages),
        vec![
            String::from("system:Earlier work in this session was compacted. The"),
            String::from("user:kept turn prompt"),
            String::from("user:current prompt"),
        ]
    );
}
