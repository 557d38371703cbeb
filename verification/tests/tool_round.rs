use yach_backend::compaction::{
    native_compaction_finish, native_compaction_persisted, native_compaction_start, native_compaction_summary_response,
    NativeCompactionEnd, NativeCompactionRecord, NativeCompactionStep,
    native_compaction_checkpoint_id, native_compaction_finished_message,
    native_compaction_request_failed_message, native_compaction_skip_message,
    native_compaction_summary, native_compaction_tokens_after, native_context_budget,
    NativeCompactionBudget, NativeCompactionConfig, NativeContextBudget,
};
use yach_backend::config::{NativeProviderDogfoodConfig, RigProviderAdapterConfig, RigProviderConfig};
use yach_backend::provider_loop::{
    NativeProviderFirstRound, NativeProviderRoundError, ProviderError, ProviderErrorKind,
};
use yach_backend::session::{
    NativeCompactionCheckpointId, NativeCompactionReason, NativeEntryId, NativeSessionEvent,
    NativeSessionId, NativeSessionLog, NativeToolOutcome, NativeTurnId,
};
use yach_backend::session_files::{nearest_project_marker_root, NativeAncestorMarkers};
use yach_backend::tool_display::{native_tool_result_display, NativeProviderToolResult};
use yach_backend::tool_round::{
    native_bash_finished_event, native_failed_tool_result, native_provider_approved_tools,
    native_recoverable_readonly_failure, native_sensitive_denied_tool_result,
    native_trace_attribute, next_command_review_ids, NativeCommandReviewCounter,
    NativeResourcePathError, NativeToolExecutionError, PendingNativeToolRequest,
};

fn pending() -> PendingNativeToolRequest {
    PendingNativeToolRequest {
        request_id: String::from("tool-request-1-1"),
        provider_call_id: Some(String::from("call-read-1")),
        tool_name: String::from("read_text_file"),
        arguments: String::from("{\"path\":\".env\"}"),
    }
}

#[test]
fn failed_tool_results_carry_error_and_guidance() {
    let result = native_failed_tool_result(&pending(), "path_missing", "look elsewhere");
    assert_eq!(result.status, NativeToolOutcome::Failed);
    assert_eq!(result.reason.as_deref(), Some("path_missing"));
    assert_eq!(result.byte_count, result.content.len());
    assert_eq!(result.provider_call_id.as_deref(), Some("call-read-1"));
    let value: serde_json::Value = serde_json::from_str(&result.content).unwrap_or_default();
    assert_eq!(value.get("outcome").and_then(|v| v.as_str()), Some("failed"));
    assert_eq!(value.get("tool_request_id").and_then(|v| v.as_str()), Some("tool-request-1-1"));
    assert_eq!(value.get("error").and_then(|v| v.as_str()), Some("path_missing"));
    assert_eq!(value.get("guidance").and_then(|v| v.as_str()), Some("look elsewhere"));
    assert_eq!(
        native_tool_result_display("read_text_file", result.status, Some(&result.content), 0, false, None),
        "failed: path_missing\nlook elsewhere"
    );
}

#[test]
fn sensitive_reads_fail_with_allow_guidance() {
    let result = native_sensitive_denied_tool_result(&pending());
    assert_eq!(result.reason.as_deref(), Some("sensitive_path_denied"));
    assert!(result.content.contains("files.allow in .yach/config.json"));
    assert!(!result.content.contains("super-secret"));
}

#[test]
fn readonly_failures_are_recoverable_only_for_the_model_side() {
    let (reason, guidance) =
        native_recoverable_readonly_failure(&NativeToolExecutionError::ResourceReadTooLarge)
            .unwrap_or(("", ""));
    assert_eq!(reason, "resource_read_too_large");
    assert!(guidance.contains("bash tool to sample"));
    assert_eq!(
        native_recoverable_readonly_failure(&NativeToolExecutionError::ResourcePath {
            error: NativeResourcePathError::EscapesRoot,
        })
        .map(|(reason, _)| reason),
        Some("path_outside_project")
    );
    assert_eq!(
        native_recoverable_readonly_failure(&NativeToolExecutionError::ResourcePath {
            error: NativeResourcePathError::SensitiveDenied,
        }),
        None
    );
    assert_eq!(
        native_recoverable_readonly_failure(&NativeToolExecutionError::UnknownTool),
        None
    );
}

#[test]
fn command_review_ids_count_from_one() {
    let mut counter = NativeCommandReviewCounter::new();
    let first = next_command_review_ids(&mut counter);
    assert_eq!(first, (String::from("command-review-1"), String::from("command-permission-1")));
    let second = next_command_review_ids(&mut counter);
    assert_eq!(second.0, "command-review-2");
    assert_eq!(counter.issued, 2);
}

#[test]
fn bash_finished_events_summarize_outcome() {
    let result = NativeProviderToolResult {
        tool_request_id: String::from("tool-request-1"),
        provider_call_id: None,
        status: NativeToolOutcome::Completed,
        byte_count: 10,
        content: String::from("{\"exit_code\":0}"),
        redacted: true,
        truncated: true,
    reason: None,
    };
    let event = native_bash_finished_event(
        &NativeSessionId(String::from("default")),
        &NativeTurnId(String::from("turn-1")),
        "tool-request-1",
        NativeToolOutcome::Denied,
        Some(String::from("user_rejected")),
        &result,
    );
    match event {
        NativeSessionEvent::ToolExecutionFinished { outcome, reason, result_summary, result_content, .. } => {
            assert_eq!(outcome, NativeToolOutcome::Denied);
            assert_eq!(reason.as_deref(), Some("user_rejected"));
            let summary = result_summary.unwrap_or_else(|| panic!("summary expected"));
            assert_eq!(summary.summary, "bash outcome=Denied");
            assert_eq!(summary.byte_count, 10);
            assert!(summary.truncated);
            assert_eq!(result_content.as_deref(), Some("{\"exit_code\":0}"));
        }
        other => panic!("unexpected event {other:?}"),
    }
    let attribute = native_trace_attribute("operation", String::from("edit_text_file"));
    assert_eq!(attribute.key, "operation");
    assert_eq!(attribute.value, "edit_text_file");
}

#[test]
fn approved_tools_are_listed_in_order() {
    assert_eq!(
        native_provider_approved_tools(),
        vec![
            "project_path_info",
            "read_text_file",
            "search_project",
            "list_project_paths",
            "edit_text_file",
            "create_text_file",
            "bash",
        ]
    );
}

#[test]
fn project_roots_prefer_git_then_append_system() {
    let ancestors = vec![
        NativeAncestorMarkers {
            directory: String::from("/p/crates/x/src"),
            has_git: false,
            has_append_system: false,
        },
        NativeAncestorMarkers {
            directory: String::from("/p/crates/x"),
            has_git: false,
            has_append_system: true,
        },
        NativeAncestorMarkers {
            directory: String::from("/p"),
            has_git: true,
            has_append_system: false,
        },
    ];
    assert_eq!(nearest_project_marker_root(&ancestors).as_deref(), Some("/p"));
    let no_git: Vec<NativeAncestorMarkers> = ancestors
        .iter()
        .map(|a| NativeAncestorMarkers { has_git: false, ..a.clone() })
        .collect();
    assert_eq!(nearest_project_marker_root(&no_git).as_deref(), Some("/p/crates/x"));
    assert_eq!(nearest_project_marker_root(&Vec::new()), None);
}

fn provider() -> NativeProviderDogfoodConfig {
    NativeProviderDogfoodConfig {
        adapter: RigProviderAdapterConfig {
            provider: RigProviderConfig::Anthropic { api_key: String::from("k") },
            timeout: std::time::Duration::from_secs(30),
            max_tokens: 1000,
            context_window: 200_000,
        },
        model: String::from("m"),
        test_delay_ms: None,
    }
}

fn compaction_config(percent: u8) -> NativeCompactionConfig {
    NativeCompactionConfig {
        compactor: String::from("summary"),
        keep_recent_tokens: 200,
        reserve_tokens: 9_000,
        auto_threshold_percent: percent,
    }
}

#[test]
fn compaction_threshold_is_a_percent_of_usable_context() {
    let budget = native_context_budget(Some(&provider()), &compaction_config(10));
    assert_eq!(
        budget,
        Some(NativeContextBudget {
            context_window: 200_000,
            max_output_tokens: 1000,
            reserve_tokens: 9_000,
        })
    );
    assert_eq!(budget.map(|b| b.usable_tokens()), Some(190_000));
    assert_eq!(native_context_budget(None, &compaction_config(10)), None);
    let compaction = NativeCompactionBudget {
        context_window: 200_000,
        max_output_tokens: 1000,
        config: compaction_config(10),
    };
    assert_eq!(compaction.threshold_tokens(), 19_000);
    assert!(compaction.over_threshold(19_001));
    assert!(!compaction.over_threshold(19_000));
    let clamped = NativeCompactionBudget {
        context_window: 100,
        max_output_tokens: 200,
        config: compaction_config(250),
    };
    assert_eq!(clamped.threshold_tokens(), 0);
}

#[test]
fn compaction_runs_only_with_a_usable_summary() {
    assert_eq!(native_compaction_skip_message("summary"), None);
    assert_eq!(
        native_compaction_skip_message("fancy").as_deref(),
        Some("compaction skipped: unknown compaction.compactor \"fancy\"; only \"summary\" exists today")
    );
    let blank = Ok(NativeProviderFirstRound {
        text: String::from("  \n"),
        provider_response_id: None,
        tool_calls: Vec::new(),
    });
    assert_eq!(
        native_compaction_summary(blank),
        Err(String::from(
            "compaction failed: summarizer returned no usable summary; continuing uncompacted"
        ))
    );
    let good = Ok(NativeProviderFirstRound {
        text: String::from("anchored summary"),
        provider_response_id: None,
        tool_calls: Vec::new(),
    });
    assert_eq!(native_compaction_summary(good), Ok(String::from("anchored summary")));
    assert!(native_compaction_summary(Err(NativeProviderRoundError::StreamEndedWithoutCompletion)).is_err());
    let error = ProviderError {
        kind: ProviderErrorKind::ContextLength,
        message: String::from("prompt is too long"),
        redacted_debug: None,
    };
    assert_eq!(
        native_compaction_request_failed_message(&error),
        "compaction failed: prompt is too long; continuing uncompacted"
    );
    assert_eq!(native_compaction_tokens_after(u64::MAX, 1), u64::MAX);
    assert_eq!(native_compaction_tokens_after(5, 7), 12);
    assert_eq!(
        native_compaction_finished_message(90_500, 12_000),
        "compacted context: ~90K -> ~12K tokens"
    );
}

#[test]
fn checkpoints_are_numbered_in_log_order() {
    let mut log = NativeSessionLog::default();
    assert_eq!(native_compaction_checkpoint_id(&log), "compaction-1");
    log.push(NativeSessionEvent::CompactionCheckpoint {
        session_id: NativeSessionId(String::from("default")),
        turn_id: NativeTurnId(String::from("turn-1")),
        checkpoint_id: NativeCompactionCheckpointId(String::from("compaction-1")),
        summary: String::from("s"),
        first_kept_entry_id: NativeEntryId(String::from("entry-1")),
        kept_start_index: 0,
        tokens_before: 1,
        tokens_after_estimate: 1,
        reason: NativeCompactionReason::Threshold,
        compactor: String::from("summary"),
        details: String::from("{}"),
    });
    assert_eq!(native_compaction_checkpoint_id(&log), "compaction-2");
}

fn record(tokens_before: u64, tokens_after: u64) -> NativeCompactionRecord {
    NativeCompactionRecord {
        first_kept_entry_id: NativeEntryId(String::from("entry-7-user")),
        kept_start_index: 0,
        reason: NativeCompactionReason::Overflow,
        compactor: String::from("summary"),
        details: String::from("{\"read_files\":[\"src/lib.rs\"]}"),
        tokens_before,
        tokens_after,
    }
}

#[test]
fn failed_compactions_leave_the_log_and_summaries_append_a_checkpoint() {
    let session = NativeSessionId(String::from("default"));
    let turn = NativeTurnId(String::from("turn-3"));
    let mut log = NativeSessionLog::default();
    let before = log.clone();
    let failed = native_compaction_finish(
        &mut log,
        &session,
        &turn,
        Err(String::from("compaction failed: boom; continuing uncompacted")),
        record(5000, 100),
    );
    assert_eq!(
        failed,
        NativeCompactionEnd {
            compacted: false,
            status: String::from("compaction failed: boom; continuing uncompacted"),
        }
    );
    assert_eq!(log, before);
    let done = native_compaction_finish(&mut log, &session, &turn, Ok(String::from("sum")), record(5000, 2500));
    assert!(done.compacted);
    assert_eq!(done.status, "compacted context: ~5K -> ~2K tokens");
    assert_eq!(log.events.len(), 1);
    match &log.events[0] {
        NativeSessionEvent::CompactionCheckpoint {
            checkpoint_id,
            summary,
            first_kept_entry_id,
            kept_start_index,
            tokens_before,
            tokens_after_estimate,
            reason,
            compactor,
            details,
            ..
        } => {
            assert_eq!(checkpoint_id.0, "compaction-1");
            assert_eq!(summary, "sum");
            assert_eq!(first_kept_entry_id.0, "entry-7-user");
            assert_eq!(*kept_start_index, 0);
            assert_eq!(*tokens_before, 5000);
            assert_eq!(*tokens_after_estimate, 2500);
            assert_eq!(*reason, NativeCompactionReason::Overflow);
            assert_eq!(compactor, "summary");
            assert_eq!(details, "{\"read_files\":[\"src/lib.rs\"]}");
        }
        other => panic!("unexpected {other:?}"),
    }
}

#[test]
fn compaction_asks_the_summarizer_only_with_a_cut_and_the_summary_compactor() {
    assert_eq!(native_compaction_start("summary", true), NativeCompactionStep::RequestSummary);
    assert_eq!(native_compaction_start("summary", false), NativeCompactionStep::Skip { status: None });
    match native_compaction_start("fancy", true) {
        NativeCompactionStep::Skip { status: Some(status) } => {
            assert_eq!(status, "compaction skipped: unknown compaction.compactor \"fancy\"; only \"summary\" exists today")
        }
        other => panic!("unexpected {other:?}"),
    }
    let failed = native_compaction_summary_response(Err(ProviderError {
        kind: ProviderErrorKind::Network,
        message: String::from("offline"),
        redacted_debug: None,
    }));
    assert_eq!(failed, Err(String::from("compaction failed: offline; continuing uncompacted")));
    let blank = native_compaction_summary_response(Ok(Ok(NativeProviderFirstRound {
        text: String::from("  "),
        provider_response_id: None,
        tool_calls: Vec::new(),
    })));
    assert_eq!(
        blank,
        Err(String::from(
            "compaction failed: summarizer returned no usable summary; continuing uncompacted"
        ))
    );
}

#[test]
fn unstored_checkpoints_fail_the_round() {
    let end = NativeCompactionEnd { compacted: true, status: String::from("compacted context: ~5K -> ~2K tokens") };
    assert_eq!(native_compaction_persisted(end.clone(), false), Ok(end.clone()));
    match native_compaction_persisted(end, true) {
        Err(NativeProviderRoundError::ToolContinuation(label)) => assert_eq!(label, "compaction_persist_failed"),
        other => panic!("unexpected {other:?}"),
    }
}
