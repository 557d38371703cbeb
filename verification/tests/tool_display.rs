use yach_backend::session::{NativeToolOutcome, NativeToolPayloadSummary};
use yach_backend::tool_display::{
    native_provider_content_result_count_summary, native_provider_readonly_tool_result_summary,
    native_provider_tool_call_preview, native_provider_tool_progress_output,
    native_provider_visible_failed_progress, native_provider_visible_list_progress,
    native_provider_visible_search_progress, native_tool_result_display,
    NativeProviderToolResult, NativeToolExecutionResult, MAX_TOOL_CALL_PREVIEW_CHARS,
};

fn json_object(fields: Vec<(&str, serde_json::Value)>) -> serde_json::Value {
    let mut object = serde_json::Map::new();
    for (key, value) in fields {
        object.insert(key.to_owned(), value);
    }
    serde_json::Value::Object(object)
}

fn text(value: &str) -> serde_json::Value {
    serde_json::Value::String(value.to_owned())
}

fn number(value: u64) -> serde_json::Value {
    serde_json::Value::from(value)
}

#[test]
fn native_provider_tool_call_preview_targets_primary_argument() {
    let args = |key: &str, value: &str| json_object(vec![(key, text(value))]).to_string();
    assert_eq!(
        native_provider_tool_call_preview("read_text_file", &args("path", "docs/project/state.md")),
        Some(String::from("docs/project/state.md"))
    );
    assert_eq!(
        native_provider_tool_call_preview("search_project", &args("query", "needle")),
        Some(String::from("needle"))
    );
    assert_eq!(
        native_provider_tool_call_preview("bash", &args("command", "cargo test\n--workspace")),
        Some(String::from("cargo test..."))
    );
    let long_command = "x".repeat(MAX_TOOL_CALL_PREVIEW_CHARS + 1);
    assert_eq!(
        native_provider_tool_call_preview("bash", &args("command", &long_command)),
        Some(format!("{}...", "x".repeat(MAX_TOOL_CALL_PREVIEW_CHARS)))
    );
    assert_eq!(
        native_provider_tool_call_preview("edit_text_file", &args("path", "a.rs")),
        None
    );
    assert_eq!(
        native_provider_tool_call_preview("read_text_file", &json_object(vec![]).to_string()),
        None
    );
}

#[test]
fn native_tool_result_display_shapes_read_text_file_with_path_and_counts() {
    let content = json_object(vec![
        ("byte_count", number(31)),
        ("outcome", text("read")),
        ("path", text("src/lib.rs")),
        ("text", text("alpha line\nneedle evidence line\n")),
    ])
    .to_string();
    assert_eq!(
        native_tool_result_display(
            "read_text_file",
            NativeToolOutcome::Completed,
            Some(&content),
            31,
            false,
            None,
        ),
        "completed: src/lib.rs; 2 lines, 31 bytes"
    );
    assert_eq!(
        native_tool_result_display(
            "read_text_file",
            NativeToolOutcome::Completed,
            Some("not json"),
            8,
            false,
            None,
        ),
        "completed; bytes=8; content=redacted; truncated=false"
    );
}

#[test]
fn native_tool_result_display_shapes_project_path_info() {
    let content = json_object(vec![
        ("relative_path", text("testdata/sample-session.jsonl")),
        ("kind", text("file")),
        ("byte_size", number(31_744)),
        ("provider_visibility", text("never")),
    ])
    .to_string();
    assert_eq!(
        native_tool_result_display(
            "project_path_info",
            NativeToolOutcome::Completed,
            Some(&content),
            content.len(),
            false,
            None,
        ),
        "completed: testdata/sample-session.jsonl; file, 31744 bytes"
    );
    let directory_content = json_object(vec![
        ("relative_path", text(".")),
        ("kind", text("directory")),
        ("byte_size", serde_json::Value::Null),
        ("provider_visibility", text("never")),
    ])
    .to_string();
    assert_eq!(
        native_tool_result_display(
            "project_path_info",
            NativeToolOutcome::Completed,
            Some(&directory_content),
            directory_content.len(),
            false,
            None,
        ),
        "completed: .; directory"
    );
}

#[test]
fn native_tool_result_display_shapes_bash_with_exit_and_output_tail() {
    let content = json_object(vec![
        ("outcome", text("completed")),
        ("tool_request_id", text("tool-request-1-1")),
        ("approved_by", text("user")),
        ("exit_code", number(0)),
        ("duration_ms", number(2_340)),
        ("output", text("line-1\nline-2\n")),
        ("output_bytes_total", number(14)),
        ("truncated", serde_json::Value::Bool(false)),
    ])
    .to_string();
    assert_eq!(
        native_tool_result_display(
            "bash",
            NativeToolOutcome::Completed,
            Some(&content),
            content.len(),
            false,
            None,
        ),
        "completed: exit 0; 2.3s; 14 bytes\nline-1\nline-2"
    );
}

#[test]
fn native_tool_result_display_bounds_bash_output_tail_and_reports_nonzero_exit() {
    let output = (0..20)
        .map(|index| format!("line-{index}"))
        .collect::<Vec<_>>()
        .join("\n");
    let content = json_object(vec![
        ("outcome", text("completed")),
        ("tool_request_id", text("tool-request-1-1")),
        ("approved_by", text("allowlist")),
        ("exit_code", number(101)),
        ("duration_ms", number(250)),
        ("output", text(&output)),
        ("output_bytes_total", number(147)),
        ("truncated", serde_json::Value::Bool(false)),
    ])
    .to_string();
    let display = native_tool_result_display(
        "bash",
        NativeToolOutcome::Completed,
        Some(&content),
        content.len(),
        false,
        None,
    );
    assert!(display.starts_with("completed: exit 101; 250ms; 147 bytes"));
    assert!(display.contains("... 12 earlier lines"));
    assert!(!display.contains("line-11\n"));
    assert!(display.contains("line-12"));
    assert!(display.ends_with("line-19"));
}

#[test]
fn bash_rows_report_negative_and_missing_exit_codes() {
    let content = json_object(vec![
        ("exit_code", serde_json::Value::from(-9i64)),
        ("duration_ms", number(1_000)),
        ("output", text("")),
        ("output_bytes_total", number(0)),
    ])
    .to_string();
    assert_eq!(
        native_tool_result_display("bash", NativeToolOutcome::Completed, Some(&content), 0, false, None),
        "completed: exit -9; 1.0s; 0 bytes"
    );
    let no_exit = json_object(vec![
        ("duration_ms", number(5)),
        ("output", text("a\r\nb")),
        ("output_bytes_total", number(4)),
    ])
    .to_string();
    assert_eq!(
        native_tool_result_display("bash", NativeToolOutcome::Completed, Some(&no_exit), 0, false, None),
        "completed: exit unknown; 5ms; 4 bytes\na\nb"
    );
}

#[test]
fn failed_results_show_error_and_guidance() {
    let content = json_object(vec![
        ("error", text("resource_read_too_large")),
        ("guidance", text("use the bash tool to sample")),
    ])
    .to_string();
    assert_eq!(
        native_tool_result_display("read_text_file", NativeToolOutcome::Failed, Some(&content), 3, false, None),
        "failed: resource_read_too_large\nuse the bash tool to sample"
    );
    let bare = json_object(vec![("error", text("sensitive_path_denied"))]).to_string();
    assert_eq!(
        native_provider_visible_failed_progress(&bare),
        Some(String::from("failed: sensitive_path_denied"))
    );
    assert_eq!(
        native_tool_result_display("bash", NativeToolOutcome::Denied, Some(&bare), 3, true, Some("user_rejected")),
        "denied; bytes=3; content=redacted; truncated=true; reason=user_rejected"
    );
    assert_eq!(
        native_tool_result_display("bash", NativeToolOutcome::Cancelled, None, 0, false, Some("")),
        "cancelled; bytes=0; content=redacted; truncated=false"
    );
}

#[test]
fn search_rows_show_eight_matches_and_count_the_rest() {
    let matches: Vec<serde_json::Value> = (1..=10)
        .map(|n| {
            json_object(vec![
                ("path", text("src/lib.rs")),
                ("line_number", number(n)),
                ("line", text("needle")),
            ])
        })
        .collect();
    let content = json_object(vec![
        ("matches", serde_json::Value::Array(matches)),
        ("truncated", serde_json::Value::Bool(true)),
    ])
    .to_string();
    let display = native_provider_visible_search_progress(&content).unwrap_or_default();
    let lines: Vec<&str> = display.lines().collect();
    assert_eq!(lines[0], "completed: 10 matches; truncated=true");
    assert_eq!(lines[1], "src/lib.rs:1: needle");
    assert_eq!(lines[8], "src/lib.rs:8: needle");
    assert_eq!(lines[9], "... 2 more matches");
    assert_eq!(lines.len(), 10);

    let broken = json_object(vec![
        ("matches", serde_json::Value::Array(vec![json_object(vec![("path", text("a"))])])),
        ("truncated", serde_json::Value::Bool(false)),
    ])
    .to_string();
    assert_eq!(native_provider_visible_search_progress(&broken), None);
}

#[test]
fn list_rows_show_twelve_entries_and_count_the_rest() {
    let entries: Vec<serde_json::Value> = (0..13)
        .map(|n| json_object(vec![("path", text(&format!("f{n}"))), ("kind", text("file"))]))
        .collect();
    let content = json_object(vec![
        ("entries", serde_json::Value::Array(entries)),
        ("truncated", serde_json::Value::Bool(false)),
    ])
    .to_string();
    let display = native_provider_visible_list_progress(&content).unwrap_or_default();
    let lines: Vec<&str> = display.lines().collect();
    assert_eq!(lines[0], "completed: 13 entries; truncated=false");
    assert_eq!(lines[1], "file f0");
    assert_eq!(lines[12], "file f11");
    assert_eq!(lines[13], "... 1 more entries");
}

#[test]
fn readonly_summaries_redact_content_tools() {
    let execution = |summary: &str| NativeToolExecutionResult {
        summary: summary.to_owned(),
        byte_count: 12,
        redacted: false,
        truncated: true,
    };
    let read = native_provider_readonly_tool_result_summary("read_text_file", &execution("secret"));
    assert_eq!(
        read,
        NativeToolPayloadSummary {
            summary: String::from("read_text_file result redacted"),
            byte_count: 12,
            redacted: true,
            truncated: true,
        }
    );
    let search_payload = json_object(vec![
        ("matches", serde_json::Value::Array(vec![])),
        ("truncated", serde_json::Value::Bool(false)),
    ])
    .to_string();
    assert_eq!(
        native_provider_readonly_tool_result_summary("search_project", &execution(&search_payload)).summary,
        "search_project matches=0 truncated=false"
    );
    assert_eq!(
        native_provider_readonly_tool_result_summary("list_project_paths", &execution("not json")).summary,
        "list_project_paths result redacted"
    );
    let info = native_provider_readonly_tool_result_summary("project_path_info", &execution("path=."));
    assert_eq!(info.summary, "path=.");
    assert!(!info.redacted);
    assert_eq!(
        native_provider_content_result_count_summary("bash", &search_payload),
        None
    );
}

#[test]
fn live_progress_uses_the_shared_display() {
    let content = json_object(vec![("error", text("unknown_tool"))]).to_string();
    let result = NativeProviderToolResult {
        tool_request_id: String::from("tool-request-1"),
        provider_call_id: None,
        status: NativeToolOutcome::Failed,
        byte_count: content.len(),
        content: content.clone(),
        redacted: false,
        truncated: false,
        reason: None,
    };
    assert_eq!(
        native_provider_tool_progress_output("read_text_file", &result),
        "failed: unknown_tool"
    );
}
