use yach_backend::local_edit::{NativeEditAccessReviewState, NativeEditPreview};
use yach_backend::provider_loop::NativeToolContinuationError;
use yach_backend::provider_loop::ProviderToolCall;
use yach_backend::tool_execution::{
    native_tool_batch_call_done, native_tool_batch_next, native_tool_batch_finish,
    native_tool_batch_run, native_tool_batch_start, native_bash_gate, native_bash_review_gate, native_edit_prepared_step,
    native_edit_reviewed_result, NativeAgentEditToolPrepared, NativeBashGate, NativeEditToolStep,
};
use yach_backend::local_edit::LocalEditDecision;
use yach_backend::provider_loop::{
    NativeEditTraceOutcome, NativeProviderRoundError, NativeProviderToolLoopBudget,
    NativeProviderToolLoopPolicy,
};
use yach_backend::session::{NativeSessionEvent, NativeSessionId, NativeToolOutcome, NativeTurnId};
use yach_backend::tool_display::{NativeProviderToolResult, NativeToolExecutionResult};
use yach_backend::tool_execution::{
    native_bash_approval, native_bash_arguments, native_bash_completed_result, native_bash_failed,
    native_bash_preflight, native_tool_result_charge, native_bash_run_failure,
    native_edit_denied_error, native_edit_review_trace, native_extension_tool_step,
    native_readonly_tool_step, native_review_answer_check, native_review_request_dropped,
    native_tool_call_error_report, native_tool_call_finished_report, native_tool_request_id,
    native_tool_route, native_tool_validation_failed, NativeCommandOutcome, NativeReviewAnswer,
    NativeToolRoute,
};
use yach_backend::tool_round::{
    NativeResourcePathError, NativeToolExecutionError, PendingNativeToolRequest,
};

fn request(tool_name: &str) -> PendingNativeToolRequest {
    PendingNativeToolRequest {
        request_id: String::from("tool-request-1-1"),
        provider_call_id: Some(String::from("call-1")),
        tool_name: String::from(tool_name),
        arguments: String::from("{}"),
    }
}

fn budget(per_tool: usize, total: usize) -> NativeProviderToolLoopBudget {
    NativeProviderToolLoopBudget::new(NativeProviderToolLoopPolicy {
        max_tool_rounds: Some(4),
        max_tool_calls_per_round: 8,
        max_total_tool_calls: 16,
        max_result_bytes_per_tool: per_tool,
        max_total_result_bytes: total,
    })
}

fn ids() -> (NativeSessionId, NativeTurnId) {
    (
        NativeSessionId(String::from("session-1")),
        NativeTurnId(String::from("turn-1")),
    )
}

fn execution(summary: &str) -> NativeToolExecutionResult {
    NativeToolExecutionResult {
        summary: String::from(summary),
        byte_count: summary.len(),
        redacted: false,
        truncated: false,
    }
}

fn finished_fields(
    event: &NativeSessionEvent,
) -> (String, NativeToolOutcome, Option<String>, Option<String>, Option<String>) {
    match event {
        NativeSessionEvent::ToolExecutionFinished {
            tool_request_id,
            outcome,
            reason,
            result_summary,
            result_content,
            ..
        } => (
            tool_request_id.0.clone(),
            *outcome,
            reason.clone(),
            result_summary.as_ref().map(|s| s.summary.clone()),
            result_content.clone(),
        ),
        other => panic!("unexpected event {other:?}"),
    }
}

fn continuation_label(error: &NativeProviderRoundError) -> Option<&str> {
    match error {
        NativeProviderRoundError::ToolContinuation(label) => Some(label.as_str()),
        _ => None,
    }
}

#[test]
fn tool_calls_route_by_implementation() {
    assert_eq!(native_tool_route(Some("read_text_file"), false), NativeToolRoute::ReadOnly);
    assert_eq!(native_tool_route(Some("list_project_paths"), true), NativeToolRoute::ReadOnly);
    assert_eq!(native_tool_route(Some("create_text_file"), false), NativeToolRoute::Edit);
    assert_eq!(native_tool_route(Some("bash"), false), NativeToolRoute::Bash);
    assert_eq!(native_tool_route(Some("ext.lint"), true), NativeToolRoute::Extension);
    assert_eq!(native_tool_route(Some("ext.lint"), false), NativeToolRoute::Unroutable);
    assert_eq!(native_tool_route(None, true), NativeToolRoute::Unroutable);
}

#[test]
fn tool_request_ids_count_from_one() {
    assert_eq!(native_tool_request_id(2, 0), "tool-request-2-1");
    assert_eq!(native_tool_request_id(0, 9), "tool-request-0-10");
}

#[test]
fn call_reports_show_failures_and_results() {
    let failed = native_tool_call_error_report(
        Some(String::from("call-1")),
        String::from("bash"),
        "tool_round_validation_failed",
    );
    assert_eq!(failed.output, "failed: tool_round_validation_failed");
    assert!(failed.is_error);
    assert_eq!(failed.tool_call_id.as_deref(), Some("call-1"));

    let result = NativeProviderToolResult {
        tool_request_id: String::from("tool-request-1-1"),
        provider_call_id: None,
        status: NativeToolOutcome::Failed,
        byte_count: 2,
        content: String::from("{}"),
        redacted: true,
        truncated: false,
        reason: Some(String::from("path_missing")),
    };
    let report = native_tool_call_finished_report("read_text_file", &result);
    assert!(report.is_error);
    assert_eq!(report.tool_call_id.as_deref(), Some("tool-request-1-1"));
    assert_eq!(report.tool_name, "read_text_file");
    assert!(report.output.contains("path_missing"), "{}", report.output);
}

#[test]
fn completed_readonly_results_are_charged_and_recorded() {
    let (session, turn) = ids();
    let mut b = budget(100, 1000);
    let step = native_readonly_tool_step(
        &mut b,
        &session,
        &turn,
        &request("read_text_file"),
        Ok(execution("hello")),
    );
    assert_eq!(b.total_result_bytes, 5);
    let result = step.result.expect("completed");
    assert_eq!(result.status, NativeToolOutcome::Completed);
    assert_eq!(result.content, "hello");
    assert_eq!(result.provider_call_id.as_deref(), Some("call-1"));
    let (id, outcome, reason, summary, content) = finished_fields(&step.event);
    assert_eq!(id, "tool-request-1-1");
    assert_eq!(outcome, NativeToolOutcome::Completed);
    assert_eq!(reason, None);
    assert_eq!(summary.as_deref(), Some("read_text_file result redacted"));
    assert_eq!(content.as_deref(), Some("hello"));
}

#[test]
fn oversized_results_fail_the_round_without_charging() {
    let (session, turn) = ids();
    let mut b = budget(3, 1000);
    let step = native_readonly_tool_step(
        &mut b,
        &session,
        &turn,
        &request("read_text_file"),
        Ok(execution("hello")),
    );
    assert_eq!(b.total_result_bytes, 0);
    let error = step.result.expect_err("refused");
    assert_eq!(continuation_label(&error), Some("tool_round_result_too_large"));
    let (_, outcome, reason, summary, content) = finished_fields(&step.event);
    assert_eq!(outcome, NativeToolOutcome::Failed);
    assert_eq!(reason.as_deref(), Some("tool_round_result_too_large"));
    assert_eq!(summary, None);
    assert_eq!(content, None);

    let mut b = budget(100, 4);
    let step = native_readonly_tool_step(
        &mut b,
        &session,
        &turn,
        &request("read_text_file"),
        Ok(execution("hello")),
    );
    let error = step.result.expect_err("refused");
    assert_eq!(continuation_label(&error), Some("tool_loop_total_result_too_large"));
    assert_eq!(b.total_result_bytes, 0);
}

#[test]
fn sensitive_paths_fail_the_call_and_continue() {
    let (session, turn) = ids();
    let mut b = budget(100, 1000);
    let step = native_readonly_tool_step(
        &mut b,
        &session,
        &turn,
        &request("read_text_file"),
        Err(NativeToolExecutionError::ResourcePath { error: NativeResourcePathError::SensitiveDenied }),
    );
    assert_eq!(b.total_result_bytes, 0);
    let result = step.result.expect("recoverable");
    assert_eq!(result.status, NativeToolOutcome::Failed);
    assert_eq!(result.reason.as_deref(), Some("sensitive_path_denied"));
    let value: serde_json::Value = serde_json::from_str(&result.content).unwrap_or_default();
    assert_eq!(value["error"], "sensitive_path_denied");
    let (_, outcome, reason, summary, content) = finished_fields(&step.event);
    assert_eq!(outcome, NativeToolOutcome::Failed);
    assert_eq!(reason.as_deref(), Some("sensitive_path_denied"));
    assert_eq!(summary.as_deref(), Some("sensitive_path_denied"));
    assert_eq!(content.as_deref(), Some(result.content.as_str()));
}

#[test]
fn recoverable_read_failures_carry_guidance() {
    let (session, turn) = ids();
    let mut b = budget(100, 1000);
    let step = native_readonly_tool_step(
        &mut b,
        &session,
        &turn,
        &request("read_text_file"),
        Err(NativeToolExecutionError::ResourceReadTooLarge),
    );
    let result = step.result.expect("recoverable");
    assert_eq!(result.reason.as_deref(), Some("resource_read_too_large"));
    let value: serde_json::Value = serde_json::from_str(&result.content).unwrap_or_default();
    assert_eq!(value["outcome"], "failed");
    assert_eq!(value["tool_request_id"], "tool-request-1-1");
    let (_, _, reason, summary, _) = finished_fields(&step.event);
    assert_eq!(reason.as_deref(), Some("resource_read_too_large"));
    assert_eq!(summary.as_deref(), Some("resource_read_too_large"));
}

#[test]
fn harness_failures_end_the_round() {
    let (session, turn) = ids();
    let mut b = budget(100, 1000);
    let step = native_readonly_tool_step(
        &mut b,
        &session,
        &turn,
        &request("read_text_file"),
        Err(NativeToolExecutionError::MalformedResult),
    );
    let error = step.result.expect_err("fatal");
    assert_eq!(continuation_label(&error), Some("tool_round_execution_failed"));
    let (_, outcome, reason, summary, content) = finished_fields(&step.event);
    assert_eq!(outcome, NativeToolOutcome::Failed);
    assert_eq!(reason.as_deref(), Some("tool_round_execution_failed"));
    assert_eq!((summary, content), (None, None));
    assert_eq!(
        continuation_label(&native_tool_validation_failed()),
        Some("tool_round_validation_failed")
    );
}

#[test]
fn extension_calls_need_an_executor() {
    let (session, turn) = ids();
    let mut b = budget(100, 1000);
    let missing = native_extension_tool_step(&mut b, &session, &turn, &request("ext.lint"), None);
    assert_eq!(
        continuation_label(&missing.result.expect_err("no executor")),
        Some("tool_round_execution_failed")
    );
    let failed = native_extension_tool_step(
        &mut b,
        &session,
        &turn,
        &request("ext.lint"),
        Some(Err(NativeToolExecutionError::ExtensionHost { reason: String::from("boom") })),
    );
    assert!(failed.result.is_err());
    let done = native_extension_tool_step(
        &mut b,
        &session,
        &turn,
        &request("ext.lint"),
        Some(Ok(execution("lint ok"))),
    );
    let result = done.result.expect("completed");
    assert_eq!(result.content, "lint ok");
    assert_eq!(b.total_result_bytes, 7);
    let (_, _, _, summary, _) = finished_fields(&done.event);
    assert_eq!(summary.as_deref(), Some("lint ok"));
}

fn answer(request_id: &str, preview_id: &str, decision_id: &str) -> NativeReviewAnswer {
    NativeReviewAnswer {
        request_id: String::from(request_id),
        preview_id: String::from(preview_id),
        permission_decision_id: String::from(decision_id),
        decision: LocalEditDecision::Apply,
    }
}

#[test]
fn review_answers_must_name_their_review() {
    let good = answer("tool-request-1-1", "command-review-1", "decision-1");
    assert_eq!(
        native_review_answer_check(Some(&good), "tool-request-1-1", "command-review-1", "decision-1"),
        Ok(LocalEditDecision::Apply)
    );
    let stale = native_review_answer_check(
        Some(&good),
        "tool-request-1-1",
        "command-review-2",
        "decision-1",
    );
    assert_eq!(
        continuation_label(&stale.expect_err("stale")),
        Some("stale_tool_review_decision")
    );
    match native_review_answer_check(None, "a", "b", "c") {
        Err(NativeProviderRoundError::Cancelled(message)) => {
            assert_eq!(message, "tool review decision channel closed")
        }
        other => panic!("unexpected {other:?}"),
    }
    match native_review_request_dropped() {
        NativeProviderRoundError::Cancelled(message) => {
            assert_eq!(message, "ui receiver dropped during tool review")
        }
        other => panic!("unexpected {other:?}"),
    }
}

#[test]
fn review_waits_are_traced_by_outcome() {
    assert_eq!(
        native_edit_review_trace(&Ok(LocalEditDecision::Apply)),
        (NativeEditTraceOutcome::Completed, None)
    );
    assert_eq!(
        native_edit_review_trace(&Ok(LocalEditDecision::Reject)),
        (NativeEditTraceOutcome::Rejected, None)
    );
    assert_eq!(
        native_edit_review_trace(&Err(NativeProviderRoundError::Cancelled(String::from("x")))),
        (NativeEditTraceOutcome::Cancelled, Some(String::from("provider_cancelled")))
    );
    assert_eq!(
        native_edit_review_trace(&Err(NativeProviderRoundError::ToolContinuation(String::from(
            "stale_tool_review_decision"
        )))),
        (NativeEditTraceOutcome::Failed, Some(String::from("stale_tool_review_decision")))
    );
    match native_edit_denied_error(String::from("r"), String::from("edit_text_file"), None) {
        NativeProviderRoundError::ToolExecutionDenied { reason, .. } => assert_eq!(reason, "denied"),
        other => panic!("unexpected {other:?}"),
    }
}

#[test]
fn bash_arguments_are_read_from_json() {
    let args = native_bash_arguments("{\"command\":\"ls -la\",\"workdir\":\"src\",\"timeout\":500}");
    assert_eq!(args.command, "ls -la");
    assert_eq!(args.workdir.as_deref(), Some("src"));
    assert_eq!(args.timeout, Some(500));
    let empty = native_bash_arguments("{\"timeout\":\"soon\"}");
    assert_eq!(empty.command, "");
    assert_eq!(empty.workdir, None);
    assert_eq!(empty.timeout, None);
}

#[test]
fn bash_preflight_checks_workdir_then_executor() {
    assert_eq!(native_bash_preflight(Some(false), "docker").map(|r| r.0), Some("workdir_invalid"));
    assert_eq!(native_bash_preflight(None, "docker").map(|r| r.0), Some("unknown_shell_executor"));
    assert_eq!(native_bash_preflight(Some(true), "host"), None);
    assert_eq!(native_bash_preflight(None, "host"), None);
}

#[test]
fn bash_approval_comes_from_allowlist_or_user() {
    assert_eq!(native_bash_approval(true, None), Ok("allowlist"));
    assert_eq!(native_bash_approval(false, Some(LocalEditDecision::Apply)), Ok("user"));
    assert_eq!(
        native_bash_approval(false, Some(LocalEditDecision::Reject)).map_err(|e| e.0),
        Err("user_rejected")
    );
}

#[test]
fn bash_run_failures_are_categorical() {
    let spawn = native_bash_run_failure(Some("No such file"), false).expect("failure");
    assert_eq!(spawn.0, "spawn_failed");
    assert_eq!(spawn.1, "The command could not be started: No such file.");
    assert_eq!(native_bash_run_failure(None, true).map(|f| f.0), Some(String::from("timeout")));
    assert_eq!(native_bash_run_failure(None, false), None);
}

#[test]
fn failed_bash_calls_record_their_reason() {
    let (session, turn) = ids();
    let (event, result) =
        native_bash_failed(&session, &turn, &request("bash"), "workdir_invalid", "pick another");
    assert_eq!(result.status, NativeToolOutcome::Failed);
    assert_eq!(result.reason.as_deref(), Some("workdir_invalid"));
    let (id, outcome, reason, _, _) = finished_fields(&event);
    assert_eq!(id, "tool-request-1-1");
    assert_eq!(outcome, NativeToolOutcome::Failed);
    assert_eq!(reason.as_deref(), Some("workdir_invalid"));
}

#[test]
fn completed_bash_results_are_json_and_charged() {
    let outcome = NativeCommandOutcome {
        exit_code: Some(0),
        duration_ms: 12,
        output: String::from("hi\n"),
        output_bytes_total: 3,
        truncated: false,
        timed_out: false,
    };
    let result = native_bash_completed_result(&request("bash"), "allowlist", &outcome);
    assert_eq!(result.status, NativeToolOutcome::Completed);
    assert!(result.redacted);
    assert_eq!(result.byte_count, result.content.len());
    let value: serde_json::Value = serde_json::from_str(&result.content).unwrap_or_default();
    assert_eq!(value["outcome"], "completed");
    assert_eq!(value["tool_request_id"], "tool-request-1-1");
    assert_eq!(value["approved_by"], "allowlist");
    assert_eq!(value["exit_code"], 0);
    assert_eq!(value["duration_ms"], 12);
    assert_eq!(value["output"], "hi\n");
    assert_eq!(value["output_bytes_total"], 3);
    assert_eq!(value["truncated"], false);

    let no_exit = NativeCommandOutcome { exit_code: None, ..outcome };
    let killed = native_bash_completed_result(&request("bash"), "user", &no_exit);
    let value: serde_json::Value = serde_json::from_str(&killed.content).unwrap_or_default();
    assert!(value["exit_code"].is_null());

    let mut b = budget(1000, 1000);
    assert_eq!(native_tool_result_charge(&mut b, &result), Ok(()));
    assert_eq!(b.total_result_bytes, result.byte_count);
    let mut tight = budget(10, 1000);
    let refused = native_tool_result_charge(&mut tight, &result).expect_err("too large");
    assert_eq!(continuation_label(&refused), Some("tool_round_result_too_large"));
    assert_eq!(tight.total_result_bytes, 0);
}

fn edit_result(reason: Option<&str>) -> NativeProviderToolResult {
    NativeProviderToolResult {
        tool_request_id: String::from("tool-request-1-2"),
        provider_call_id: Some(String::from("call-edit")),
        status: NativeToolOutcome::Completed,
        byte_count: 2,
        content: String::from("{}"),
        redacted: true,
        truncated: false,
        reason: reason.map(str::to_owned),
    }
}

#[test]
fn prepared_edits_finish_fail_or_wait_for_review() {
    match native_edit_prepared_step(
        String::from("edit_text_file"),
        Ok(NativeAgentEditToolPrepared::Completed { trace_id: String::from("trace-1"), result: edit_result(None) }),
    ) {
        NativeEditToolStep::Finished { trace, result } => {
            assert_eq!(result, edit_result(None));
            assert_eq!(trace.trace_id, "trace-1");
            assert_eq!(trace.tool_request_id.0, "tool-request-1-2");
            assert_eq!(trace.provider_call_id.as_deref(), Some("call-edit"));
            assert_eq!(trace.preview_id, None);
        }
        other => panic!("unexpected {other:?}"),
    }
    match native_edit_prepared_step(
        String::from("edit_text_file"),
        Ok(NativeAgentEditToolPrepared::Denied { result: edit_result(Some("outside project")) }),
    ) {
        NativeEditToolStep::Fail(NativeProviderRoundError::ToolExecutionDenied { tool_request_id, reason, .. }) => {
            assert_eq!(tool_request_id, "tool-request-1-2");
            assert_eq!(reason, "outside project");
        }
        other => panic!("unexpected {other:?}"),
    }
    match native_edit_prepared_step(
        String::from("create_text_file"),
        Ok(NativeAgentEditToolPrepared::NeedsUserReview {
            trace_id: String::from("trace-2"),
            request_id: String::from("tool-request-1-3"),
            provider_call_id: String::from("call-create"),
            preview: NativeEditPreview {
                preview_id: String::from("preview-9"),
                transaction_id: String::from("transaction-9"),
                permission_decision_id: String::from("permission-decision-9"),
                review_state: NativeEditAccessReviewState::NeedsUserApproval,
                diff_summary: String::from("+3 -0"),
                diff_summary_truncated: false,
            },
            path: String::from("new.txt"),
            operation: String::from("create_text_file"),
        }),
    ) {
        NativeEditToolStep::Review { preview, pending, trace } => {
            assert_eq!(preview.path, "new.txt");
            assert_eq!(pending.preview_id, "preview-9");
            assert_eq!(pending.permission_decision_id, "permission-decision-9");
            assert_eq!(trace.preview_id.as_deref(), Some("preview-9"));
            assert_eq!(trace.tool_request_id.0, "tool-request-1-3");
        }
        other => panic!("unexpected {other:?}"),
    }
    match native_edit_prepared_step(
        String::from("edit_text_file"),
        Err(NativeToolContinuationError::Validation(String::from("bad"))),
    ) {
        NativeEditToolStep::Fail(error) => {
            assert_eq!(continuation_label(&error), Some("tool_round_validation_failed"))
        }
        other => panic!("unexpected {other:?}"),
    }
    let failed = native_edit_reviewed_result(Err(NativeToolContinuationError::Execution(String::from("io"))));
    assert_eq!(continuation_label(&failed.expect_err("failed")), Some("tool_round_execution_failed"));
    assert_eq!(native_edit_reviewed_result(Ok(edit_result(None))), Ok(edit_result(None)));
}

#[test]
fn commands_run_only_when_allowlisted_or_approved() {
    assert!(matches!(native_bash_gate(Some(false), "host", true), NativeBashGate::Refuse("workdir_invalid", _)));
    assert!(matches!(native_bash_gate(None, "docker", true), NativeBashGate::Refuse("unknown_shell_executor", _)));
    assert_eq!(native_bash_gate(Some(true), "host", true), NativeBashGate::Run("allowlist"));
    assert_eq!(native_bash_gate(None, "host", false), NativeBashGate::Review);

    let apply = answer("tool-request-1-1", "command-review-1", "command-permission-1");
    assert_eq!(
        native_bash_review_gate(Some(&apply), "tool-request-1-1", "command-review-1", "command-permission-1"),
        NativeBashGate::Run("user")
    );
    let reject = NativeReviewAnswer { decision: LocalEditDecision::Reject, ..apply.clone() };
    assert!(matches!(
        native_bash_review_gate(Some(&reject), "tool-request-1-1", "command-review-1", "command-permission-1"),
        NativeBashGate::Refuse("user_rejected", _)
    ));
    match native_bash_review_gate(Some(&apply), "tool-request-1-1", "command-review-2", "command-permission-1") {
        NativeBashGate::Abort(error) => assert_eq!(continuation_label(&error), Some("stale_tool_review_decision")),
        other => panic!("unexpected {other:?}"),
    }
    assert!(matches!(
        native_bash_review_gate(None, "a", "b", "c"),
        NativeBashGate::Abort(NativeProviderRoundError::Cancelled(_))
    ));
}

#[test]
fn refused_batches_start_no_calls() {
    let calls = vec![
        ProviderToolCall { id: String::from("call-a"), name: String::from("read_text_file"), arguments: String::from("{}") },
        ProviderToolCall { id: String::from("call-b"), name: String::from("bash"), arguments: String::from("{\"command\":\"ls\"}") },
    ];
    let mut b = budget(100, 1000);
    let requests = native_tool_batch_start(&mut b, 3, &calls).expect("admitted");
    assert_eq!(requests.len(), 2);
    assert_eq!(requests[1].request_id, "tool-request-3-2");
    assert_eq!(requests[1].provider_call_id.as_deref(), Some("call-b"));
    assert_eq!(requests[1].tool_name, "bash");
    assert_eq!((b.tool_rounds, b.total_tool_calls), (1, 2));

    let mut tight = NativeProviderToolLoopBudget::new(NativeProviderToolLoopPolicy {
        max_tool_rounds: Some(4),
        max_tool_calls_per_round: 1,
        max_total_tool_calls: 16,
        max_result_bytes_per_tool: 100,
        max_total_result_bytes: 1000,
    });
    let before = tight.clone();
    let refused = native_tool_batch_start(&mut tight, 1, &calls).expect_err("too many calls");
    assert_eq!(continuation_label(&refused), Some("tool_round_too_many_calls"));
    assert_eq!(tight, before);
}

fn tool_result(id: &str, status: NativeToolOutcome, content: &str) -> NativeProviderToolResult {
    NativeProviderToolResult {
        tool_request_id: String::from(id),
        provider_call_id: None,
        status,
        byte_count: content.len(),
        content: String::from(content),
        redacted: false,
        truncated: false,
        reason: None,
    }
}

#[test]
fn tool_batch_announces_each_call_then_keeps_one_result_per_call_in_order() {
    let calls = vec![
        ProviderToolCall { id: String::from("call-a"), name: String::from("read_text_file"), arguments: String::from("{\"path\":\"src/lib.rs\"}") },
        ProviderToolCall { id: String::from("call-b"), name: String::from("bash"), arguments: String::from("{\"command\":\"cargo test\\n--all\"}") },
    ];
    let mut b = budget(100, 1000);
    let requests = native_tool_batch_start(&mut b, 2, &calls).expect("admitted");
    let mut run = native_tool_batch_run(requests);

    let (index, start) = native_tool_batch_next(&run).expect("first call");
    assert_eq!(index, 0);
    assert_eq!(start.tool_call_id.as_deref(), Some("tool-request-2-1"));
    assert_eq!(start.tool_name, "read_text_file");
    assert_eq!(start.preview.as_deref(), Some("src/lib.rs"));
    let first = tool_result("tool-request-2-1", NativeToolOutcome::Completed, "{}");
    let report = native_tool_batch_call_done(&mut run, Ok(first.clone())).expect("kept");
    assert_eq!(report, native_tool_call_finished_report("read_text_file", &first));
    assert_eq!(report.tool_call_id.as_deref(), Some("tool-request-2-1"));
    assert!(!report.is_error);

    let (index, start) = native_tool_batch_next(&run).expect("second call");
    assert_eq!(index, 1);
    assert_eq!(start.tool_call_id.as_deref(), Some("tool-request-2-2"));
    assert_eq!(start.preview.as_deref(), Some("cargo test..."));
    let second = tool_result("tool-request-2-2", NativeToolOutcome::Failed, "{}");
    let report = native_tool_batch_call_done(&mut run, Ok(second.clone())).expect("kept");
    assert!(report.is_error);

    assert!(native_tool_batch_next(&run).is_none());
    assert_eq!(
        continuation_label(&native_tool_batch_finish(run.clone(), true).expect_err("store failed")),
        Some("tool_event_persist_failed")
    );
    assert_eq!(native_tool_batch_finish(run, false), Ok(vec![first, second]));
}

#[test]
fn tool_batch_call_error_is_reported_under_the_call_and_ends_the_batch() {
    let calls = vec![ProviderToolCall {
        id: String::from("call-a"),
        name: String::from("bash"),
        arguments: String::from("{\"command\":\"ls\"}"),
    }];
    let mut b = budget(100, 1000);
    let mut run = native_tool_batch_run(native_tool_batch_start(&mut b, 1, &calls).expect("admitted"));
    let before = run.clone();
    let error = NativeProviderRoundError::Cancelled(String::from("ui receiver dropped"));
    let (report, returned) =
        native_tool_batch_call_done(&mut run, Err(error.clone())).expect_err("error ends the batch");
    assert_eq!(returned, error);
    assert_eq!(report.tool_call_id.as_deref(), Some("tool-request-1-1"));
    assert_eq!(report.tool_name, "bash");
    assert_eq!(report.output, "failed: provider_cancelled");
    assert!(report.is_error);
    assert_eq!(run, before);
}
