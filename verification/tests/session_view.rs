use yach_backend::session::{
    NativeCompactionCheckpointId, NativeCompactionReason, NativeEntryId, NativeRole, NativeSessionEvent, NativeSessionId,
    NativeSessionLog, NativeToolOutcome, NativeToolPayloadSummary, NativeToolPermissionState,
    NativeToolRequestId, NativeTurnId,
};
use yach_backend::session_view::{
    bounded_session_load_warning_reason, count_native_role, native_role_label,
    native_session_counts, native_session_first_message, native_session_load_warning_message,
    native_session_message_count, native_session_messages_from_log,
    native_session_tool_result_text, native_recent_session_from_path, native_recent_sessions,
    native_session_state_from_load_result, NativeSessionLoadError, NativeSessionLoadResult,
    NativeSessionLoadWarning, RecentSession,
};
use yach_backend::tool_display::{native_provider_tool_progress_output, NativeProviderToolResult};

fn entry(log: &mut NativeSessionLog, turn: &str, id: &str, role: NativeRole, text: &str) {
    log.push(NativeSessionEvent::EntryAppended {
        session_id: NativeSessionId(String::from("default")),
        entry_id: NativeEntryId(id.to_owned()),
        parent_entry_id: None,
        turn_id: NativeTurnId(turn.to_owned()),
        role,
        text: text.to_owned(),
        provider: None,
    });
}

fn request(log: &mut NativeSessionLog, id: &str, tool_name: &str, argument_content: Option<&str>) {
    log.push(NativeSessionEvent::ToolRequestRecorded {
        session_id: NativeSessionId(String::from("default")),
        turn_id: NativeTurnId(String::from("turn-1")),
        tool_request_id: NativeToolRequestId(id.to_owned()),
        tool_name: tool_name.to_owned(),
        provider_call_id: Some(String::from("call-1")),
        validation: Ok(()),
        permission: NativeToolPermissionState::Allowed,
        argument_summary: NativeToolPayloadSummary {
            summary: String::from("tool payload redacted"),
            byte_count: 15,
            redacted: true,
            truncated: false,
        },
        argument_content: argument_content.map(str::to_owned),
    });
}

fn finished(
    log: &mut NativeSessionLog,
    id: &str,
    outcome: NativeToolOutcome,
    summary: Option<NativeToolPayloadSummary>,
    content: Option<&str>,
) {
    log.push(NativeSessionEvent::ToolExecutionFinished {
        session_id: NativeSessionId(String::from("default")),
        turn_id: NativeTurnId(String::from("turn-1")),
        tool_request_id: NativeToolRequestId(id.to_owned()),
        outcome,
        reason: None,
        result_summary: summary,
        result_content: content.map(str::to_owned),
    });
}

fn summary(text: &str, byte_count: usize) -> NativeToolPayloadSummary {
    NativeToolPayloadSummary {
        summary: text.to_owned(),
        byte_count,
        redacted: true,
        truncated: false,
    }
}

#[test]
fn native_session_messages_include_tool_execution_results() {
    let mut log = NativeSessionLog::default();
    entry(&mut log, "turn-1", "entry-1-user", NativeRole::User, "read file");
    request(&mut log, "tool-request-1", "read_text_file", None);
    finished(
        &mut log,
        "tool-request-1",
        NativeToolOutcome::Completed,
        Some(summary("read_text_file result redacted", 56)),
        Some("{\"path\":\"README.md\",\"content\":\"hello\",\"truncated\":false}"),
    );
    entry(&mut log, "turn-1", "entry-1-assistant", NativeRole::Assistant, "summary");

    let messages = native_session_messages_from_log(&log);

    assert_eq!(messages.len(), 3);
    assert_eq!(messages[1].role, "tool");
    assert_eq!(messages[1].tool_name.as_deref(), Some("read_text_file"));
    assert_eq!(messages[1].is_error, Some(false));
    assert!(messages[1].text.contains("bytes=56"));
}

#[test]
fn native_session_messages_render_persisted_tool_content_like_live_progress() {
    let mut entries = Vec::new();
    for path in ["src/lib.rs", "src/main.rs"] {
        let mut item = serde_json::Map::new();
        item.insert(String::from("path"), serde_json::Value::String(path.to_owned()));
        item.insert(String::from("kind"), serde_json::Value::String(String::from("file")));
        entries.push(serde_json::Value::Object(item));
    }
    let mut object = serde_json::Map::new();
    object.insert(String::from("outcome"), serde_json::Value::String(String::from("list")));
    object.insert(String::from("entries"), serde_json::Value::Array(entries));
    object.insert(String::from("truncated"), serde_json::Value::Bool(false));
    let list_content = serde_json::Value::Object(object).to_string();
    let live_result = NativeProviderToolResult {
        tool_request_id: String::from("tool-request-1"),
        provider_call_id: Some(String::from("call-1")),
        status: NativeToolOutcome::Completed,
        byte_count: list_content.len(),
        content: list_content.clone(),
        redacted: true,
        truncated: false,
        reason: None,
    };
    let live_display = native_provider_tool_progress_output("list_project_paths", &live_result);

    let mut log = NativeSessionLog::default();
    request(&mut log, "tool-request-1", "list_project_paths", Some("{\"path\":\"src\"}"));
    finished(
        &mut log,
        "tool-request-1",
        NativeToolOutcome::Completed,
        Some(summary("list_project_paths entries=2 truncated=false", list_content.len())),
        Some(&list_content),
    );
    let messages = native_session_messages_from_log(&log);

    assert_eq!(messages.len(), 1);
    assert_eq!(messages[0].text, live_display);
    assert!(messages[0].text.contains("completed: 2 entries"));
    assert!(messages[0].text.contains("file src/lib.rs"));
    assert!(messages[0].text.contains("file src/main.rs"));
}

#[test]
fn native_session_messages_note_missing_content_for_pre_persistence_logs() {
    let mut log = NativeSessionLog::default();
    request(&mut log, "tool-request-1", "search_project", None);
    finished(
        &mut log,
        "tool-request-1",
        NativeToolOutcome::Completed,
        Some(summary("search_project matches=2 truncated=false", 64)),
        None,
    );
    let messages = native_session_messages_from_log(&log);

    assert_eq!(messages.len(), 1);
    assert!(messages[0].text.contains("output not retained"));
    assert_eq!(
        messages[0].text,
        "completed; bytes=64; content=redacted; truncated=false; output not retained (recorded before payload persistence)"
    );
}

#[test]
fn unrequested_tool_results_are_named_tool_and_failures_are_errors() {
    let mut log = NativeSessionLog::default();
    request(&mut log, "tool-request-1", "bash", None);
    request(&mut log, "tool-request-1", "search_project", None);
    finished(&mut log, "tool-request-1", NativeToolOutcome::Failed, None, None);
    finished(&mut log, "tool-request-2", NativeToolOutcome::Completed, None, None);
    let messages = native_session_messages_from_log(&log);
    assert_eq!(messages.len(), 2);
    assert_eq!(messages[0].tool_name.as_deref(), Some("search_project"));
    assert_eq!(messages[0].is_error, Some(true));
    assert_eq!(messages[1].tool_name.as_deref(), Some("tool"));
    assert_eq!(messages[1].is_error, Some(false));
    assert_eq!(messages[1].entry_id.as_deref(), Some("tool-request-2"));
}

#[test]
fn compaction_checkpoints_show_token_counts() {
    let mut log = NativeSessionLog::default();
    log.push(NativeSessionEvent::CompactionCheckpoint {
        session_id: NativeSessionId(String::from("default")),
        turn_id: NativeTurnId(String::from("turn-3")),
        checkpoint_id: NativeCompactionCheckpointId(String::from("checkpoint-1")),
        summary: String::from("anchored summary"),
        first_kept_entry_id: NativeEntryId(String::from("entry-1")),
        kept_start_index: 0,
        tokens_before: 90_500,
        tokens_after_estimate: 12_000,
        reason: NativeCompactionReason::Threshold,
        compactor: String::from("summary"),
        details: String::from("{}"),
    });
    let messages = native_session_messages_from_log(&log);
    assert_eq!(messages.len(), 1);
    assert_eq!(messages[0].role, "system");
    assert_eq!(
        messages[0].text,
        "— compacted: 90K → ~12K tokens —\nanchored summary"
    );
    assert_eq!(messages[0].entry_id.as_deref(), Some("checkpoint-1"));
}

#[test]
fn session_counts_follow_entry_roles() {
    let mut log = NativeSessionLog::default();
    entry(&mut log, "turn-0", "e0", NativeRole::User, "first");
    entry(&mut log, "turn-0", "e1", NativeRole::Assistant, "answer");
    request(&mut log, "tool-request-1", "bash", None);
    entry(&mut log, "turn-1", "e2", NativeRole::User, "second");
    entry(&mut log, "turn-1", "e3", NativeRole::Tool, "tool");
    let counts = native_session_counts(&log);
    assert_eq!(counts.message_count, Some(4));
    assert_eq!(counts.user_message_count, Some(2));
    assert_eq!(counts.assistant_message_count, Some(1));
    assert_eq!(counts.tool_message_count, Some(1));
    assert_eq!(native_session_message_count(&log), Some(4));
    assert_eq!(native_session_first_message(&log).as_deref(), Some("first"));
    assert_eq!(native_session_first_message(&NativeSessionLog::default()), None);
    assert_eq!(
        count_native_role(&[NativeRole::System, NativeRole::User], NativeRole::System),
        Some(1)
    );
    assert_eq!(native_role_label(NativeRole::Assistant), "assistant");
    assert_eq!(native_role_label(NativeRole::System), "system");
}

#[test]
fn tool_result_text_reports_summary_and_reason() {
    assert_eq!(
        native_session_tool_result_text(NativeToolOutcome::ValidationFailed, Some("bad"), None),
        "validation_failed; reason=bad"
    );
    assert_eq!(
        native_session_tool_result_text(
            NativeToolOutcome::Denied,
            Some(""),
            Some(&summary("x", 7)),
        ),
        "denied; bytes=7; content=redacted; truncated=false"
    );
}

#[test]
fn load_warnings_bound_their_reason() {
    let short = native_session_load_warning_message(&NativeSessionLoadWarning::InvalidJson {
        line_number: 3,
        reason: String::from("expected value"),
    });
    assert_eq!(
        short,
        "native dogfood: skipped corrupt session log line 3: expected value"
    );
    let long = "é".repeat(100);
    let bounded = bounded_session_load_warning_reason(&long);
    assert_eq!(bounded, format!("{}...", "é".repeat(80)));
    let exact = "a".repeat(160);
    assert_eq!(bounded_session_load_warning_reason(&exact), exact);
    let over = "a".repeat(161);
    assert_eq!(
        bounded_session_load_warning_reason(&over),
        format!("{}...", "a".repeat(160))
    );
}

#[test]
fn recent_sessions_come_from_session_logs() {
    let mut log = NativeSessionLog::default();
    entry(&mut log, "turn-1", "entry-1", NativeRole::User, "first question");
    entry(&mut log, "turn-1", "entry-2", NativeRole::Assistant, "answer");
    let session = native_recent_session_from_path(
        "/home/u/.yach/sessions/abc.jsonl",
        Some(String::from("/work")),
        Some(42),
        &log,
    )
    .expect("session log");
    assert_eq!(session.path, "/home/u/.yach/sessions/abc.jsonl");
    assert_eq!(session.id.as_deref(), Some("abc"));
    assert_eq!(session.name.as_deref(), Some("native abc"));
    assert_eq!(session.cwd.as_deref(), Some("/work"));
    assert_eq!(session.modified_unix_ms, Some(42));
    assert_eq!(session.message_count, Some(2));
    assert_eq!(session.first_message.as_deref(), Some("first question"));

    let empty = native_recent_session_from_path(
        "/tmp/empty.jsonl",
        None,
        None,
        &NativeSessionLog::default(),
    )
    .expect("session log");
    assert_eq!(empty.message_count, Some(0));
    assert_eq!(empty.first_message, None);
    assert!(native_recent_session_from_path("/tmp/notes.txt", None, None, &log).is_none());
    assert!(native_recent_session_from_path("/tmp/.jsonl", None, None, &log).is_none());
}

fn recent(path: &str, modified: Option<u64>, name: &str) -> RecentSession {
    RecentSession {
        path: String::from(path),
        id: None,
        name: Some(String::from(name)),
        cwd: None,
        modified_unix_ms: modified,
        message_count: None,
        first_message: None,
    }
}

#[test]
fn recent_sessions_list_newest_first_then_by_path() {
    let sorted = native_recent_sessions(vec![
        recent("/s/b.jsonl", Some(10), "b"),
        recent("/s/z.jsonl", None, "z"),
        recent("/s/a.jsonl", Some(10), "a"),
        recent("/s/c.jsonl", Some(30), "c"),
        recent("/s/a.jsonl", Some(10), "a-second"),
        recent("/s/y.jsonl", None, "y"),
    ]);
    let names: Vec<&str> = sorted.iter().map(|s| s.name.as_deref().unwrap_or("")).collect();
    assert_eq!(names, vec!["c", "a", "a-second", "b", "y", "z"]);
    assert!(native_recent_sessions(Vec::new()).is_empty());
}

#[test]
fn session_load_results_become_the_starting_log() {
    let mut log = NativeSessionLog::default();
    entry(&mut log, "turn-1", "entry-1", NativeRole::User, "hello");
    let (loaded, messages) = native_session_state_from_load_result(Ok(NativeSessionLoadResult {
        log: log.clone(),
        warnings: vec![NativeSessionLoadWarning::InvalidJson {
            line_number: 3,
            reason: String::from("expected value"),
        }],
    }));
    assert_eq!(loaded, log);
    assert_eq!(
        messages,
        vec![String::from("native dogfood: skipped corrupt session log line 3: expected value")]
    );
    let (missing, quiet) = native_session_state_from_load_result(Err(NativeSessionLoadError::NotFound));
    assert!(missing.events.is_empty());
    assert!(quiet.is_empty());
    let (failed, status) = native_session_state_from_load_result(Err(
        NativeSessionLoadError::Failed(String::from("permission denied")),
    ));
    assert!(failed.events.is_empty());
    assert_eq!(
        status,
        vec![String::from("native dogfood: failed to load session log: permission denied")]
    );
}
