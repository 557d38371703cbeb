//! Executing a provider tool batch: how a batch starts, runs its calls one
//! after another and ends; which executor each call is routed to; what a
//! read-only or extension execution records and returns; how an edit is
//! finished or reviewed; how a bash command is admitted, reviewed and
//! reported; how review answers are matched to their request; and what the
//! client is shown for each call.
use crate::json::{
    field_views, json_object_text, json_str_field, json_str_field_of, json_u64_field,
    json_u64_field_of, render_json_object, JsonValue, JsonValueView,
};
use crate::local_edit::{
    client_review_state, native_local_edit_preview_summary, LocalEditDecision,
    LocalEditPreviewSummary, NativeEditPreview,
};
use crate::provider_loop::{
    continuation_error, native_provider_tool_batch_result_budget_failure,
    native_provider_round_error_label, native_tool_round_error_label, round_error_label, saturating, tool_round_error_label,
    NativeEditTraceOutcome, NativeProviderRoundError, NativeProviderToolLoopBudget,
    NativeToolContinuationError, ProviderToolCall,
};
use crate::session::{
    NativeSessionEvent, NativeSessionId, NativeToolOutcome, NativeToolPayloadSummary,
    NativeToolRequestId, NativeTurnId,
};
use crate::session_view::str_byte_len;
use crate::text::{
    append_str, decimal, decimal_string, has_prefix, opt_view, owned, str_eq, utf8_bytes,
};
use crate::tool_display::{
    native_provider_readonly_tool_result_summary, native_provider_tool_call_preview,
    native_provider_tool_progress_output, tool_call_preview,
    readonly_summary_text, tool_result_display, NativeProviderToolResult,
    NativeToolExecutionResult,
};
use crate::tool_round::{
    native_bash_finished_event, native_failed_tool_result, native_recoverable_readonly_failure,
    native_sensitive_denied_tool_result, recoverable_failure, sensitive_guidance,
    tool_failure_json, is_bash_finished_event, is_failed_result, NativeResourcePathError,
    NativeToolExecutionError, PendingNativeToolRequest,
};
use vstd::prelude::*;

verus! {

// ---------------------------------------------------------------------------
// Routing and ids
// ---------------------------------------------------------------------------

/// Which executor runs a tool call.
#[derive(Debug, Clone, Copy, PartialEq, Eq, Structural)]
pub enum NativeToolRoute {
    ReadOnly,
    Edit,
    Bash,
    Extension,
    Unroutable,
}

pub open spec fn tool_route(implementation: Option<Seq<char>>, extension_owned: bool) -> NativeToolRoute {
    match implementation {
        Some(n) => if n == "project_path_info"@ || n == "read_text_file"@ || n == "search_project"@
            || n == "list_project_paths"@ {
            NativeToolRoute::ReadOnly
        } else if n == "edit_text_file"@ || n == "create_text_file"@ {
            NativeToolRoute::Edit
        } else if n == "bash"@ {
            NativeToolRoute::Bash
        } else if extension_owned {
            NativeToolRoute::Extension
        } else {
            NativeToolRoute::Unroutable
        },
        None => NativeToolRoute::Unroutable,
    }
}

/// Routes a call by the implementation its provider tool resolves to:
/// the built-in read-only, edit and bash tools, then tools an extension
/// owns; anything else fails validation.
pub fn native_tool_route(implementation: Option<&str>, extension_owned: bool) -> (r: NativeToolRoute)
    ensures
        r == tool_route(
            match implementation {
                Some(n) => Some(n@),
                None => None,
            },
            extension_owned,
        ),
{
    match implementation {
        Some(n) => {
            if str_eq(n, "project_path_info") || str_eq(n, "read_text_file") || str_eq(
                n,
                "search_project",
            ) || str_eq(n, "list_project_paths") {
                NativeToolRoute::ReadOnly
            } else if str_eq(n, "edit_text_file") || str_eq(n, "create_text_file") {
                NativeToolRoute::Edit
            } else if str_eq(n, "bash") {
                NativeToolRoute::Bash
            } else if extension_owned {
                NativeToolRoute::Extension
            } else {
                NativeToolRoute::Unroutable
            }
        },
        None => NativeToolRoute::Unroutable,
    }
}

/// The built-in tools always run on their own executors, whoever owns
/// them: `edit_text_file` and `create_text_file` go to the edit flow, the
/// four read-only tools to the read-only executor and `bash` to the shell;
/// any other implementation runs as an extension tool when an extension
/// owns it and fails validation otherwise, as does a call that resolves to
/// no implementation.
pub proof fn law_builtin_tools_route_to_their_executors(name: Seq<char>, extension_owned: bool)
    ensures
        name == "edit_text_file"@ || name == "create_text_file"@ ==> tool_route(
            Some(name),
            extension_owned,
        ) == NativeToolRoute::Edit,
        name == "project_path_info"@ || name == "read_text_file"@ || name == "search_project"@
            || name == "list_project_paths"@ ==> tool_route(Some(name), extension_owned)
            == NativeToolRoute::ReadOnly,
        name == "bash"@ ==> tool_route(Some(name), extension_owned) == NativeToolRoute::Bash,
        !(name == "edit_text_file"@ || name == "create_text_file"@ || name == "project_path_info"@
            || name == "read_text_file"@ || name == "search_project"@ || name
            == "list_project_paths"@ || name == "bash"@) ==> tool_route(Some(name), extension_owned)
            == if extension_owned {
            NativeToolRoute::Extension
        } else {
            NativeToolRoute::Unroutable
        },
        tool_route(None, extension_owned) == NativeToolRoute::Unroutable,
{
    reveal_strlit("edit_text_file");
    reveal_strlit("create_text_file");
    reveal_strlit("project_path_info");
    reveal_strlit("read_text_file");
    reveal_strlit("search_project");
    reveal_strlit("list_project_paths");
    reveal_strlit("bash");
    assert("edit_text_file"@[0] == 'e' && "edit_text_file"@.len() == 14);
    assert("create_text_file"@.len() == 16);
    assert("project_path_info"@.len() == 17);
    assert("read_text_file"@[0] == 'r' && "read_text_file"@.len() == 14);
    assert("search_project"@[0] == 's' && "search_project"@.len() == 14);
    assert("list_project_paths"@.len() == 18);
    assert("bash"@.len() == 4);
}

/// Calls are numbered per round from one: `tool-request-<round>-<n>`.
pub fn native_tool_request_id(tool_round_index: usize, index: usize) -> (id: String)
    requires
        index < usize::MAX,
    ensures
        id@ == "tool-request-"@ + decimal(tool_round_index as nat) + "-"@ + decimal(
            (index + 1) as nat,
        ),
{
    let mut id = String::from_str("tool-request-");
    append_str(&mut id, decimal_string(tool_round_index as u64).as_str());
    append_str(&mut id, "-");
    let n: usize = index + 1;
    append_str(&mut id, decimal_string(n as u64).as_str());
    id
}

/// Why a tool round of `count` calls is refused, or `None` when the budget
/// admits it.
pub open spec fn batch_refusal(b: NativeProviderToolLoopBudget, count: usize) -> Option<Seq<char>> {
    if b.policy.max_tool_rounds matches Some(m) && b.tool_rounds >= m {
        Some("tool_loop_too_many_rounds"@)
    } else if count > b.policy.max_tool_calls_per_round {
        Some("tool_round_too_many_calls"@)
    } else if saturating(b.total_tool_calls + count) > b.policy.max_total_tool_calls {
        Some("tool_loop_too_many_total_calls"@)
    } else {
        None
    }
}

/// `r` is the pending request of call `i` of round `round`: numbered from
/// one, with the provider's call id, tool name and arguments.
pub open spec fn is_pending_request(
    r: PendingNativeToolRequest,
    round: usize,
    i: int,
    call: ProviderToolCall,
) -> bool {
    &&& r.request_id@ == "tool-request-"@ + decimal(round as nat) + "-"@ + decimal((i + 1) as nat)
    &&& r.provider_call_id == Some(call.id)
    &&& r.tool_name == call.name
    &&& r.arguments == call.arguments
}

/// Starts a tool batch: the round and its calls are charged to the budget.
/// A refused round ends before any call is announced or run, and consumes
/// nothing; otherwise each call becomes a pending request, in order.
pub fn native_tool_batch_start(
    budget: &mut NativeProviderToolLoopBudget,
    tool_round_index: usize,
    calls: &Vec<ProviderToolCall>,
) -> (r: Result<Vec<PendingNativeToolRequest>, NativeProviderRoundError>)
    requires
        old(budget).tool_rounds < usize::MAX,
    ensures
        match batch_refusal(*old(budget), calls@.len() as usize) {
            Some(label) => {
                &&& *final(budget) == *old(budget)
                &&& r matches Err(e) && continuation_error(e, label)
            },
            None => {
                &&& final(budget).policy == old(budget).policy
                &&& final(budget).total_result_bytes == old(budget).total_result_bytes
                &&& final(budget).tool_rounds == old(budget).tool_rounds + 1
                &&& final(budget).total_tool_calls == saturating(
                    old(budget).total_tool_calls + calls@.len(),
                )
                &&& r is Ok
                &&& r->Ok_0@.len() == calls@.len()
                &&& forall|i: int|
                    0 <= i < calls@.len() ==> is_pending_request(
                        #[trigger] r->Ok_0@[i],
                        tool_round_index,
                        i,
                        calls@[i],
                    )
            },
        },
{
    match budget.begin_tool_round(calls.len()) {
        Err(e) => Err(e),
        Ok(()) => {
            let mut requests: Vec<PendingNativeToolRequest> = Vec::new();
            let mut i: usize = 0;
            while i < calls.len()
                invariant
                    i <= calls@.len(),
                    requests@.len() == i,
                    forall|k: int|
                        0 <= k < i ==> is_pending_request(
                            #[trigger] requests@[k],
                            tool_round_index,
                            k,
                            calls@[k],
                        ),
                decreases calls.len() - i,
            {
                let call = &calls[i];
                requests.push(
                    PendingNativeToolRequest {
                        request_id: native_tool_request_id(tool_round_index, i),
                        provider_call_id: Some(call.id.clone()),
                        tool_name: call.name.clone(),
                        arguments: call.arguments.clone(),
                    },
                );
                i = i + 1;
            }
            Ok(requests)
        },
    }
}

/// What the client is shown when a tool call ends.
#[derive(Debug, Clone, PartialEq, Eq)]
pub struct NativeToolCallReport {
    pub tool_call_id: Option<String>,
    pub tool_name: String,
    pub output: String,
    pub is_error: bool,
}

/// A call that failed before producing a result: `failed: <reason>`.
pub fn native_tool_call_error_report(tool_call_id: Option<String>, tool_name: String, reason: &str) -> (r:
    NativeToolCallReport)
    ensures
        r.tool_call_id == tool_call_id,
        r.tool_name == tool_name,
        r.output@ == "failed: "@ + reason@,
        r.is_error,
{
    let mut output = String::from_str("failed: ");
    append_str(&mut output, reason);
    NativeToolCallReport { tool_call_id, tool_name, output, is_error: true }
}

/// A call with a result: its progress row, an error unless it completed.
pub fn native_tool_call_finished_report(tool_name: &str, result: &NativeProviderToolResult) -> (r:
    NativeToolCallReport)
    ensures
        r.tool_call_id == Some(result.tool_request_id),
        r.tool_name@ == tool_name@,
        r.output@ == tool_result_display(
            tool_name@,
            result.status,
            Some(result.content@),
            result.byte_count,
            result.truncated,
            opt_view(result.reason),
        ),
        r.is_error == (result.status != NativeToolOutcome::Completed),
{
    NativeToolCallReport {
        tool_call_id: Some(result.tool_request_id.clone()),
        tool_name: owned(tool_name),
        output: native_provider_tool_progress_output(tool_name, result),
        is_error: result.status != NativeToolOutcome::Completed,
    }
}

// ---------------------------------------------------------------------------
// Running a batch call by call
// ---------------------------------------------------------------------------

/// What the client is shown when a tool call begins.
#[derive(Debug, Clone, PartialEq, Eq)]
pub struct NativeToolCallStart {
    pub tool_call_id: Option<String>,
    pub tool_name: String,
    pub preview: Option<String>,
}

/// `s` announces `request`: its id, tool name and argument preview.
pub open spec fn is_call_start(s: NativeToolCallStart, request: PendingNativeToolRequest) -> bool {
    &&& s.tool_call_id == Some(request.request_id)
    &&& s.tool_name == request.tool_name
    &&& opt_view(s.preview) == tool_call_preview(request.tool_name@, request.arguments@)
}

/// `r` reports a call of `tool_name` that produced `result`.
pub open spec fn is_finished_report(
    r: NativeToolCallReport,
    tool_name: Seq<char>,
    result: NativeProviderToolResult,
) -> bool {
    &&& r.tool_call_id == Some(result.tool_request_id)
    &&& r.tool_name@ == tool_name
    &&& r.output@ == tool_result_display(
        tool_name,
        result.status,
        Some(result.content@),
        result.byte_count,
        result.truncated,
        opt_view(result.reason),
    )
    &&& r.is_error == (result.status != NativeToolOutcome::Completed)
}

/// `r` reports call `request` as failed for `reason`.
pub open spec fn is_failed_report(
    r: NativeToolCallReport,
    request: PendingNativeToolRequest,
    reason: Seq<char>,
) -> bool {
    &&& r.tool_call_id == Some(request.request_id)
    &&& r.tool_name == request.tool_name
    &&& r.output@ == "failed: "@ + reason
    &&& r.is_error
}

/// The announcement of a call about to run.
pub fn native_tool_call_start(request: &PendingNativeToolRequest) -> (s: NativeToolCallStart)
    ensures
        is_call_start(s, *request),
{
    NativeToolCallStart {
        tool_call_id: Some(request.request_id.clone()),
        tool_name: request.tool_name.clone(),
        preview: native_provider_tool_call_preview(
            request.tool_name.as_str(),
            request.arguments.as_str(),
        ),
    }
}

/// A started batch: its pending requests, in call order, and the results
/// of the calls that have run so far.
#[derive(Debug, Clone, PartialEq, Eq)]
pub struct NativeToolBatchRun {
    pub requests: Vec<PendingNativeToolRequest>,
    pub results: Vec<NativeProviderToolResult>,
}

impl NativeToolBatchRun {
    /// No more results than calls.
    pub open spec fn wf(&self) -> bool {
        self.results@.len() <= self.requests@.len()
    }
}

/// The call a batch runs next, by its index: the first call without a
/// result, or `None` once every call has one.
pub open spec fn batch_next_index(requests: Seq<PendingNativeToolRequest>, done: nat) -> Option<int> {
    if done < requests.len() {
        Some(done as int)
    } else {
        None
    }
}

/// A batch of `requests` before any call has run.
pub fn native_tool_batch_run(requests: Vec<PendingNativeToolRequest>) -> (run: NativeToolBatchRun)
    ensures
        run.requests@ == requests@,
        run.results@ == Seq::<NativeProviderToolResult>::empty(),
        run.wf(),
{
    NativeToolBatchRun { requests, results: Vec::new() }
}

/// The next call of a batch and its announcement, or `None` when the batch
/// is done.
pub fn native_tool_batch_next(run: &NativeToolBatchRun) -> (r: Option<(usize, NativeToolCallStart)>)
    requires
        run.wf(),
    ensures
        match batch_next_index(run.requests@, run.results@.len()) {
            None => r is None,
            Some(i) => {
                &&& r matches Some((k, s))
                &&& k == i
                &&& is_call_start(s, run.requests@[i])
            },
        },
{
    let done = run.results.len();
    if done < run.requests.len() {
        Some((done, native_tool_call_start(&run.requests[done])))
    } else {
        None
    }
}

/// Records how the batch's next call ended. A result is kept, after the
/// earlier ones, and reported with its progress row; an error leaves the
/// batch as it was, is reported as `failed: <label>` under the call's id,
/// and ends the batch with that error.
pub fn native_tool_batch_call_done(
    run: &mut NativeToolBatchRun,
    outcome: Result<NativeProviderToolResult, NativeProviderRoundError>,
) -> (r: Result<NativeToolCallReport, (NativeToolCallReport, NativeProviderRoundError)>)
    requires
        old(run).results@.len() < old(run).requests@.len(),
    ensures
        final(run).requests@ == old(run).requests@,
        final(run).wf(),
        match outcome {
            Ok(result) => {
                &&& final(run).results@ == old(run).results@.push(result)
                &&& r matches Ok(report)
                &&& is_finished_report(
                    report,
                    old(run).requests@[old(run).results@.len() as int].tool_name@,
                    result,
                )
            },
            Err(e) => {
                &&& final(run).results@ == old(run).results@
                &&& r matches Err((report, e2))
                &&& e2 == e
                &&& is_failed_report(
                    report,
                    old(run).requests@[old(run).results@.len() as int],
                    round_error_label(e),
                )
            },
        },
{
    let i = run.results.len();
    let tool_name = run.requests[i].tool_name.clone();
    match outcome {
        Ok(result) => {
            let report = native_tool_call_finished_report(tool_name.as_str(), &result);
            run.results.push(result);
            Ok(report)
        },
        Err(e) => {
            let label = native_provider_round_error_label(&e);
            let report = native_tool_call_error_report(
                Some(run.requests[i].request_id.clone()),
                tool_name,
                label.as_str(),
            );
            Err((report, e))
        },
    }
}

/// The calls of a started batch run one after another in the provider's
/// order: with `done` results recorded, the next call is call `done`,
/// announced as `tool-request-<round>-<done + 1>` under the provider's tool
/// name; once every call has a result there is no next call.
pub proof fn law_tool_batch_runs_calls_in_order(
    round: usize,
    calls: Seq<ProviderToolCall>,
    requests: Seq<PendingNativeToolRequest>,
    done: nat,
)
    requires
        requests.len() == calls.len(),
        forall|i: int|
            0 <= i < calls.len() ==> is_pending_request(#[trigger] requests[i], round, i, calls[i]),
        done <= requests.len(),
    ensures
        match batch_next_index(requests, done) {
            Some(i) => {
                &&& i == done
                &&& requests[i].request_id@ == "tool-request-"@ + decimal(round as nat) + "-"@
                    + decimal((done + 1) as nat)
                &&& requests[i].tool_name == calls[i].name
                &&& requests[i].arguments == calls[i].arguments
            },
            None => done == calls.len(),
        },
{
    if done < requests.len() {
        assert(is_pending_request(requests[done as int], round, done as int, calls[done as int]));
    }
}

/// Ends a batch in which every call ended with a result: its results, one
/// per call in call order, unless storing the batch's session events
/// failed, which fails the round with `tool_event_persist_failed`.
pub fn native_tool_batch_finish(run: NativeToolBatchRun, persist_failed: bool) -> (r: Result<
    Vec<NativeProviderToolResult>,
    NativeProviderRoundError,
>)
    requires
        run.results@.len() == run.requests@.len(),
    ensures
        persist_failed ==> (r matches Err(e) && continuation_error(e, "tool_event_persist_failed"@)),
        !persist_failed ==> (r matches Ok(results) && results@ == run.results@),
{
    if persist_failed {
        Err(NativeProviderRoundError::ToolContinuation(String::from_str("tool_event_persist_failed")))
    } else {
        Ok(run.results)
    }
}

// ---------------------------------------------------------------------------
// Read-only and extension executions
// ---------------------------------------------------------------------------

/// The fields of a stored payload summary: its text, byte count, and
/// whether it is redacted or truncated.
pub open spec fn summary_view(s: Option<NativeToolPayloadSummary>) -> Option<
    (Seq<char>, usize, bool, bool),
> {
    match s {
        Some(x) => Some((x.summary@, x.byte_count, x.redacted, x.truncated)),
        None => None,
    }
}

/// `e` finishes request `id` of the turn with `outcome`, `reason`, the
/// summary `summary` and the payload `content`.
pub open spec fn is_tool_finished_event(
    e: NativeSessionEvent,
    session: NativeSessionId,
    turn: NativeTurnId,
    id: Seq<char>,
    outcome: NativeToolOutcome,
    reason: Option<Seq<char>>,
    summary: Option<(Seq<char>, usize, bool, bool)>,
    content: Option<Seq<char>>,
) -> bool {
    match e {
        NativeSessionEvent::ToolExecutionFinished {
            session_id,
            turn_id,
            tool_request_id,
            outcome: o,
            reason: r,
            result_summary,
            result_content,
        } => {
            &&& session_id == session
            &&& turn_id == turn
            &&& tool_request_id.0@ == id
            &&& o == outcome
            &&& opt_view(r) == reason
            &&& summary_view(result_summary) == summary
            &&& opt_view(result_content) == content
        },
        _ => false,
    }
}

fn tool_finished_event(
    session_id: &NativeSessionId,
    turn_id: &NativeTurnId,
    request_id: &str,
    outcome: NativeToolOutcome,
    reason: Option<String>,
    summary: Option<NativeToolPayloadSummary>,
    content: Option<String>,
) -> (e: NativeSessionEvent)
    ensures
        is_tool_finished_event(
            e,
            *session_id,
            *turn_id,
            request_id@,
            outcome,
            opt_view(reason),
            summary_view(summary),
            opt_view(content),
        ),
{
    NativeSessionEvent::ToolExecutionFinished {
        session_id: session_id.duplicate(),
        turn_id: turn_id.duplicate(),
        tool_request_id: NativeToolRequestId(owned(request_id)),
        outcome,
        reason,
        result_summary: summary,
        result_content: content,
    }
}

/// What executing one call decided: the event it records, and the call's
/// result or the error that ends the round.
#[derive(Debug, Clone, PartialEq, Eq)]
pub struct NativeToolExecutionStep {
    pub event: NativeSessionEvent,
    pub result: Result<NativeProviderToolResult, NativeProviderRoundError>,
}

/// `s` hands back `result` and records it as the call's failure, with the
/// reason as its redacted summary and the failure payload.
pub open spec fn records_failure(
    s: NativeToolExecutionStep,
    session: NativeSessionId,
    turn: NativeTurnId,
    request: PendingNativeToolRequest,
    result: NativeProviderToolResult,
    reason: Seq<char>,
) -> bool {
    &&& s.result == Ok::<NativeProviderToolResult, NativeProviderRoundError>(result)
    &&& is_tool_finished_event(
        s.event,
        session,
        turn,
        request.request_id@,
        NativeToolOutcome::Failed,
        Some(reason),
        Some((reason, result.byte_count, true, false)),
        Some(result.content@),
    )
}

/// A failed call the model can continue from: the call's result is the
/// failed result of the request with `reason` and `guidance`, and it is
/// recorded as the call's failure.
pub open spec fn is_recoverable_step(
    s: NativeToolExecutionStep,
    session: NativeSessionId,
    turn: NativeTurnId,
    request: PendingNativeToolRequest,
    reason: Seq<char>,
    guidance: Seq<char>,
) -> bool {
    &&& s.result is Ok
    &&& is_failed_result(s.result->Ok_0, request, reason, guidance)
    &&& records_failure(s, session, turn, request, s.result->Ok_0, reason)
}

/// The round ends with `tool_round_execution_failed`, recorded as the
/// call's failure with no summary or payload.
pub open spec fn is_execution_failed_step(
    s: NativeToolExecutionStep,
    session: NativeSessionId,
    turn: NativeTurnId,
    request: PendingNativeToolRequest,
) -> bool {
    &&& s.result matches Err(e) && continuation_error(e, "tool_round_execution_failed"@)
    &&& is_tool_finished_event(
        s.event,
        session,
        turn,
        request.request_id@,
        NativeToolOutcome::Failed,
        Some("tool_round_execution_failed"@),
        None,
        None,
    )
}

/// Why charging `size` result bytes to `b` is refused, as the batch
/// reports it, or `None` when the result fits.
pub open spec fn result_charge_refusal(b: NativeProviderToolLoopBudget, size: usize) -> Option<
    Seq<char>,
> {
    if size > b.policy.max_result_bytes_per_tool {
        Some("tool_round_result_too_large"@)
    } else if saturating(b.total_result_bytes + size) > b.policy.max_total_result_bytes {
        Some("tool_loop_total_result_too_large"@)
    } else {
        None
    }
}

/// The result of a completed execution of `request`.
pub open spec fn completed_result(
    request: PendingNativeToolRequest,
    execution: NativeToolExecutionResult,
) -> NativeProviderToolResult {
    NativeProviderToolResult {
        tool_request_id: request.request_id,
        provider_call_id: request.provider_call_id,
        status: NativeToolOutcome::Completed,
        byte_count: execution.byte_count,
        content: execution.summary,
        redacted: execution.redacted,
        truncated: execution.truncated,
        reason: None,
    }
}

/// Tools whose stored summary is redacted.
pub open spec fn redacted_summary_tool(tool_name: Seq<char>) -> bool {
    tool_name == "read_text_file"@ || tool_name == "search_project"@ || tool_name
        == "list_project_paths"@
}

/// A completed execution charged to budget `b` (which becomes `b2`): a
/// refusal fails the call and ends the round with the budget unchanged;
/// otherwise its size is added and the call completes with its payload
/// and the stored summary of a read-only result.
pub open spec fn is_completed_step(
    b: NativeProviderToolLoopBudget,
    b2: NativeProviderToolLoopBudget,
    s: NativeToolExecutionStep,
    session: NativeSessionId,
    turn: NativeTurnId,
    request: PendingNativeToolRequest,
    execution: NativeToolExecutionResult,
) -> bool {
    match result_charge_refusal(b, execution.byte_count) {
        Some(label) => {
            &&& b2 == b
            &&& s.result matches Err(e) && continuation_error(e, label)
            &&& is_tool_finished_event(
                s.event,
                session,
                turn,
                request.request_id@,
                NativeToolOutcome::Failed,
                Some(label),
                None,
                None,
            )
        },
        None => {
            &&& b2.policy == b.policy
            &&& b2.tool_rounds == b.tool_rounds
            &&& b2.total_tool_calls == b.total_tool_calls
            &&& b2.total_result_bytes == saturating(b.total_result_bytes + execution.byte_count)
            &&& s.result == Ok::<NativeProviderToolResult, NativeProviderRoundError>(
                completed_result(request, execution),
            )
            &&& is_tool_finished_event(
                s.event,
                session,
                turn,
                request.request_id@,
                NativeToolOutcome::Completed,
                None,
                Some(
                    (
                        readonly_summary_text(request.tool_name@, execution.summary@),
                        execution.byte_count,
                        redacted_summary_tool(request.tool_name@),
                        execution.truncated,
                    ),
                ),
                Some(execution.summary@),
            )
        },
    }
}

fn recoverable_step(
    session_id: &NativeSessionId,
    turn_id: &NativeTurnId,
    request: &PendingNativeToolRequest,
    result: NativeProviderToolResult,
    reason: &str,
) -> (s: NativeToolExecutionStep)
    ensures
        records_failure(s, *session_id, *turn_id, *request, result, reason@),
{
    let summary = NativeToolPayloadSummary {
        summary: owned(reason),
        byte_count: result.byte_count,
        redacted: true,
        truncated: false,
    };
    let event = tool_finished_event(
        session_id,
        turn_id,
        request.request_id.as_str(),
        NativeToolOutcome::Failed,
        Some(owned(reason)),
        Some(summary),
        Some(result.content.clone()),
    );
    NativeToolExecutionStep { event, result: Ok(result) }
}

fn execution_failed_step(
    session_id: &NativeSessionId,
    turn_id: &NativeTurnId,
    request: &PendingNativeToolRequest,
) -> (s: NativeToolExecutionStep)
    ensures
        is_execution_failed_step(s, *session_id, *turn_id, *request),
{
    let event = tool_finished_event(
        session_id,
        turn_id,
        request.request_id.as_str(),
        NativeToolOutcome::Failed,
        Some(String::from_str("tool_round_execution_failed")),
        None,
        None,
    );
    NativeToolExecutionStep {
        event,
        result: Err(
            NativeProviderRoundError::ToolContinuation(
                String::from_str("tool_round_execution_failed"),
            ),
        ),
    }
}

/// The budget's two refusal labels are told apart by their prefix.
proof fn lemma_charge_labels()
    ensures
        !has_prefix("tool_loop_total_result_too_large"@, "tool_result_too_large:"@),
        forall|id: Seq<char>| #[trigger]
            has_prefix("tool_result_too_large:"@ + id, "tool_result_too_large:"@),
{
    reveal_strlit("tool_loop_total_result_too_large");
    reveal_strlit("tool_result_too_large:");
    let total: Seq<char> = "tool_loop_total_result_too_large"@;
    let per: Seq<char> = "tool_result_too_large:"@;
    assert(total.subrange(0, per.len() as int)[5] != per[5]);
    assert forall|id: Seq<char>| #[trigger] has_prefix(per + id, per) by {
        assert((per + id).subrange(0, per.len() as int) =~= per);
    }
}

fn completed_step(
    budget: &mut NativeProviderToolLoopBudget,
    session_id: &NativeSessionId,
    turn_id: &NativeTurnId,
    request: &PendingNativeToolRequest,
    execution: NativeToolExecutionResult,
) -> (s: NativeToolExecutionStep)
    ensures
        is_completed_step(
            *old(budget),
            *final(budget),
            s,
            *session_id,
            *turn_id,
            *request,
            execution,
        ),
{
    proof {
        lemma_charge_labels();
    }
    match budget.record_tool_result(request.request_id.as_str(), execution.byte_count) {
        Err(error) => {
            let (error, reason) = native_provider_tool_batch_result_budget_failure(error);
            let event = tool_finished_event(
                session_id,
                turn_id,
                request.request_id.as_str(),
                NativeToolOutcome::Failed,
                Some(reason),
                None,
                None,
            );
            NativeToolExecutionStep { event, result: Err(error) }
        },
        Ok(()) => {
            let summary = native_provider_readonly_tool_result_summary(
                request.tool_name.as_str(),
                &execution,
            );
            let event = tool_finished_event(
                session_id,
                turn_id,
                request.request_id.as_str(),
                NativeToolOutcome::Completed,
                None,
                Some(summary),
                Some(execution.summary.clone()),
            );
            let result = NativeProviderToolResult {
                tool_request_id: request.request_id.clone(),
                provider_call_id: match &request.provider_call_id {
                    Some(id) => Some(id.clone()),
                    None => None,
                },
                status: NativeToolOutcome::Completed,
                byte_count: execution.byte_count,
                content: execution.summary,
                redacted: execution.redacted,
                truncated: execution.truncated,
                reason: None,
            };
            NativeToolExecutionStep { event, result: Ok(result) }
        },
    }
}

/// A call that failed validation ends the round; its validation events are
/// all it records.
pub fn native_tool_validation_failed() -> (e: NativeProviderRoundError)
    ensures
        continuation_error(e, "tool_round_validation_failed"@),
{
    NativeProviderRoundError::ToolContinuation(String::from_str("tool_round_validation_failed"))
}

/// Executing a read-only call: a denied sensitive path and failures the
/// model can recover from fail the call with guidance and the loop goes
/// on; other failures end the round; a completed execution is charged to
/// the budget and returned.
pub fn native_readonly_tool_step(
    budget: &mut NativeProviderToolLoopBudget,
    session_id: &NativeSessionId,
    turn_id: &NativeTurnId,
    request: &PendingNativeToolRequest,
    execution: Result<NativeToolExecutionResult, NativeToolExecutionError>,
) -> (s: NativeToolExecutionStep)
    ensures
        match execution {
            Ok(x) => is_completed_step(
                *old(budget),
                *final(budget),
                s,
                *session_id,
                *turn_id,
                *request,
                x,
            ),
            Err(e) => {
                &&& *final(budget) == *old(budget)
                &&& match e {
                    NativeToolExecutionError::ResourcePath {
                        error: NativeResourcePathError::SensitiveDenied,
                    } => is_recoverable_step(
                        s,
                        *session_id,
                        *turn_id,
                        *request,
                        "sensitive_path_denied"@,
                        sensitive_guidance(),
                    ),
                    _ => match recoverable_failure(e) {
                        Some((reason, guidance)) => is_recoverable_step(
                            s,
                            *session_id,
                            *turn_id,
                            *request,
                            reason,
                            guidance,
                        ),
                        None => is_execution_failed_step(s, *session_id, *turn_id, *request),
                    },
                }
            },
        },
{
    match execution {
        Err(NativeToolExecutionError::ResourcePath { error: NativeResourcePathError::SensitiveDenied }) => {
            let result = native_sensitive_denied_tool_result(request);
            recoverable_step(session_id, turn_id, request, result, "sensitive_path_denied")
        },
        Err(error) => match native_recoverable_readonly_failure(&error) {
            Some((reason, guidance)) => {
                let result = native_failed_tool_result(request, reason, guidance);
                recoverable_step(session_id, turn_id, request, result, reason)
            },
            None => execution_failed_step(session_id, turn_id, request),
        },
        Ok(execution) => completed_step(budget, session_id, turn_id, request, execution),
    }
}

/// Executing an extension tool call: without an executor (`None`), or when
/// the extension fails, the round ends; a completed execution is charged
/// and recorded as a read-only one.
pub fn native_extension_tool_step(
    budget: &mut NativeProviderToolLoopBudget,
    session_id: &NativeSessionId,
    turn_id: &NativeTurnId,
    request: &PendingNativeToolRequest,
    execution: Option<Result<NativeToolExecutionResult, NativeToolExecutionError>>,
) -> (s: NativeToolExecutionStep)
    ensures
        match execution {
            Some(Ok(x)) => is_completed_step(
                *old(budget),
                *final(budget),
                s,
                *session_id,
                *turn_id,
                *request,
                x,
            ),
            _ => *final(budget) == *old(budget) && is_execution_failed_step(
                s,
                *session_id,
                *turn_id,
                *request,
            ),
        },
{
    match execution {
        Some(Ok(execution)) => completed_step(budget, session_id, turn_id, request, execution),
        _ => execution_failed_step(session_id, turn_id, request),
    }
}

// ---------------------------------------------------------------------------
// Reviews
// ---------------------------------------------------------------------------

/// The user's answer to a review, with the ids it answers.
#[derive(Debug, Clone, PartialEq, Eq)]
pub struct NativeReviewAnswer {
    pub request_id: String,
    pub preview_id: String,
    pub permission_decision_id: String,
    pub decision: LocalEditDecision,
}

/// An answer counts only for the review it names: its request, its
/// preview (or command review) and its permission decision. A closed
/// channel cancels the round; an answer for another review ends it as
/// stale.
pub fn native_review_answer_check(
    answer: Option<&NativeReviewAnswer>,
    request_id: &str,
    review_id: &str,
    permission_decision_id: &str,
) -> (r: Result<LocalEditDecision, NativeProviderRoundError>)
    ensures
        match answer {
            None => r is Err && r->Err_0 is Cancelled && r->Err_0->Cancelled_0@
                == "tool review decision channel closed"@,
            Some(a) => if a.request_id@ == request_id@ && a.preview_id@ == review_id@
                && a.permission_decision_id@ == permission_decision_id@ {
                r == Ok::<LocalEditDecision, NativeProviderRoundError>(a.decision)
            } else {
                r is Err && continuation_error(r->Err_0, "stale_tool_review_decision"@)
            },
        },
{
    match answer {
        None => Err(
            NativeProviderRoundError::Cancelled(String::from_str("tool review decision channel closed")),
        ),
        Some(answer) => {
            if str_eq(answer.request_id.as_str(), request_id) && str_eq(
                answer.preview_id.as_str(),
                review_id,
            ) && str_eq(answer.permission_decision_id.as_str(), permission_decision_id) {
                Ok(answer.decision)
            } else {
                Err(
                    NativeProviderRoundError::ToolContinuation(
                        String::from_str("stale_tool_review_decision"),
                    ),
                )
            }
        },
    }
}

/// A review request the client can no longer receive cancels the round.
pub fn native_review_request_dropped() -> (e: NativeProviderRoundError)
    ensures
        e is Cancelled && e->Cancelled_0@ == "ui receiver dropped during tool review"@,
{
    NativeProviderRoundError::Cancelled(String::from_str("ui receiver dropped during tool review"))
}

/// How a review wait is traced: completed when applied, rejected when
/// rejected, and by the error's kind and label when the wait failed.
pub fn native_edit_review_trace(decision: &Result<LocalEditDecision, NativeProviderRoundError>) -> (r:
    (NativeEditTraceOutcome, Option<String>))
    ensures
        match *decision {
            Ok(LocalEditDecision::Apply) => r.0 == NativeEditTraceOutcome::Completed && r.1 is None,
            Ok(LocalEditDecision::Reject) => r.0 == NativeEditTraceOutcome::Rejected && r.1 is None,
            Err(e) => r.0 == (if e is Cancelled {
                NativeEditTraceOutcome::Cancelled
            } else {
                NativeEditTraceOutcome::Failed
            }) && r.1 is Some && r.1.unwrap()@ == round_error_label(e),
        },
{
    match decision {
        Ok(LocalEditDecision::Apply) => (NativeEditTraceOutcome::Completed, None),
        Ok(LocalEditDecision::Reject) => (NativeEditTraceOutcome::Rejected, None),
        Err(error) => (
            crate::provider_loop::native_review_wait_error_outcome(error),
            Some(crate::provider_loop::native_provider_round_error_label(error)),
        ),
    }
}

/// A denied edit ends the round as denied, with its reason or `denied`.
pub fn native_edit_denied_error(tool_request_id: String, tool_name: String, reason: Option<String>) -> (e:
    NativeProviderRoundError)
    ensures
        e is ToolExecutionDenied,
        e->ToolExecutionDenied_tool_request_id == tool_request_id,
        e->ToolExecutionDenied_tool_name == tool_name,
        e->ToolExecutionDenied_reason@ == match reason {
            Some(r) => r@,
            None => "denied"@,
        },
{
    let reason = match reason {
        Some(r) => r,
        None => String::from_str("denied"),
    };
    NativeProviderRoundError::ToolExecutionDenied { tool_request_id, tool_name, reason }
}

// ---------------------------------------------------------------------------
// Edits
// ---------------------------------------------------------------------------

/// How an edit tool request came out of preparation.
#[derive(Debug, Clone, PartialEq, Eq)]
pub enum NativeAgentEditToolPrepared {
    Completed { trace_id: String, result: NativeProviderToolResult },
    Failed { trace_id: String, result: NativeProviderToolResult },
    Denied { result: NativeProviderToolResult },
    NeedsUserReview {
        trace_id: String,
        request_id: String,
        provider_call_id: String,
        preview: NativeEditPreview,
        path: String,
        operation: String,
    },
}

/// The edit trace a provider continuation records for an edit call.
#[derive(Debug, Clone, PartialEq, Eq)]
pub struct ProviderContinuationEditTrace {
    pub trace_id: String,
    pub tool_name: String,
    pub tool_request_id: NativeToolRequestId,
    pub provider_call_id: Option<String>,
    pub preview_id: Option<String>,
    pub permission_decision_id: Option<String>,
}

/// An edit waiting for the user's review.
#[derive(Debug, Clone, PartialEq, Eq)]
pub struct PendingAgentEditToolReview {
    pub trace_id: String,
    pub request_id: String,
    pub provider_call_id: String,
    pub preview_id: String,
    pub permission_decision_id: String,
    pub path: String,
    pub operation: String,
}

/// What an edit call does after preparation.
#[derive(Debug, Clone, PartialEq, Eq)]
pub enum NativeEditToolStep {
    /// The call's result, with the trace its continuation records.
    Finished { trace: ProviderContinuationEditTrace, result: NativeProviderToolResult },
    /// The preview the client reviews, the review awaited, and the trace
    /// recorded once the review is applied or rejected.
    Review {
        preview: LocalEditPreviewSummary,
        pending: PendingAgentEditToolReview,
        trace: ProviderContinuationEditTrace,
    },
    /// The error that ends the round.
    Fail(NativeProviderRoundError),
}

/// The trace of an edit that finished without review: its ids from the
/// result, no preview or permission decision.
pub open spec fn is_unreviewed_trace(
    t: ProviderContinuationEditTrace,
    trace_id: String,
    tool_name: String,
    result: NativeProviderToolResult,
) -> bool {
    &&& t.trace_id == trace_id
    &&& t.tool_name == tool_name
    &&& t.tool_request_id.0 == result.tool_request_id
    &&& t.provider_call_id == result.provider_call_id
    &&& t.preview_id is None
    &&& t.permission_decision_id is None
}

/// An edit call after preparation: a finished (completed or failed) edit
/// hands back its result with a trace; a denied edit ends the round as
/// denied; an edit that needs review shows its preview and awaits the
/// answer for its request, preview and permission decision; a preparation
/// error ends the round with its label.
pub fn native_edit_prepared_step(
    tool_name: String,
    prepared: Result<NativeAgentEditToolPrepared, NativeToolContinuationError>,
) -> (s: NativeEditToolStep)
    ensures
        match prepared {
            Err(e) => s matches NativeEditToolStep::Fail(f) && continuation_error(
                f,
                tool_round_error_label(e),
            ),
            Ok(NativeAgentEditToolPrepared::Completed { trace_id, result }) => s matches NativeEditToolStep::Finished {
                trace,
                result: r,
            } && r == result && is_unreviewed_trace(trace, trace_id, tool_name, result),
            Ok(NativeAgentEditToolPrepared::Failed { trace_id, result }) => s matches NativeEditToolStep::Finished {
                trace,
                result: r,
            } && r == result && is_unreviewed_trace(trace, trace_id, tool_name, result),
            Ok(NativeAgentEditToolPrepared::Denied { result }) => s matches NativeEditToolStep::Fail(f)
                && f is ToolExecutionDenied && f->ToolExecutionDenied_tool_request_id
                == result.tool_request_id && f->ToolExecutionDenied_tool_name == tool_name
                && f->ToolExecutionDenied_reason@ == match result.reason {
                Some(r) => r@,
                None => "denied"@,
            },
            Ok(
                NativeAgentEditToolPrepared::NeedsUserReview {
                    trace_id,
                    request_id,
                    provider_call_id,
                    preview,
                    path,
                    operation,
                },
            ) => s matches NativeEditToolStep::Review { preview: shown, pending, trace } && {
                &&& shown.preview_id == preview.preview_id
                &&& shown.transaction_id == preview.transaction_id
                &&& shown.permission_decision_id == preview.permission_decision_id
                &&& shown.path == path
                &&& shown.operation == operation
                &&& shown.review_state == client_review_state(preview.review_state)
                &&& shown.diff_summary == preview.diff_summary
                &&& shown.diff_summary_truncated == preview.diff_summary_truncated
                &&& pending == (PendingAgentEditToolReview {
                    trace_id,
                    request_id,
                    provider_call_id,
                    preview_id: preview.preview_id,
                    permission_decision_id: preview.permission_decision_id,
                    path,
                    operation,
                })
                &&& trace == (ProviderContinuationEditTrace {
                    trace_id,
                    tool_name,
                    tool_request_id: NativeToolRequestId(request_id),
                    provider_call_id: Some(provider_call_id),
                    preview_id: Some(preview.preview_id),
                    permission_decision_id: Some(preview.permission_decision_id),
                })
            },
        },
{
    match prepared {
        Err(e) => NativeEditToolStep::Fail(
            NativeProviderRoundError::ToolContinuation(owned(native_tool_round_error_label(&e))),
        ),
        Ok(NativeAgentEditToolPrepared::Completed { trace_id, result })
        | Ok(NativeAgentEditToolPrepared::Failed { trace_id, result }) => {
            let trace = ProviderContinuationEditTrace {
                trace_id,
                tool_name,
                tool_request_id: NativeToolRequestId(result.tool_request_id.clone()),
                provider_call_id: match &result.provider_call_id {
                    Some(id) => Some(id.clone()),
                    None => None,
                },
                preview_id: None,
                permission_decision_id: None,
            };
            NativeEditToolStep::Finished { trace, result }
        },
        Ok(NativeAgentEditToolPrepared::Denied { result }) => NativeEditToolStep::Fail(
            native_edit_denied_error(result.tool_request_id, tool_name, result.reason),
        ),
        Ok(
            NativeAgentEditToolPrepared::NeedsUserReview {
                trace_id,
                request_id,
                provider_call_id,
                preview,
                path,
                operation,
            },
        ) => {
            let pending = PendingAgentEditToolReview {
                trace_id: trace_id.clone(),
                request_id: request_id.clone(),
                provider_call_id: provider_call_id.clone(),
                preview_id: preview.preview_id.clone(),
                permission_decision_id: preview.permission_decision_id.clone(),
                path: path.clone(),
                operation: operation.clone(),
            };
            let trace = ProviderContinuationEditTrace {
                trace_id,
                tool_name,
                tool_request_id: NativeToolRequestId(request_id),
                provider_call_id: Some(provider_call_id),
                preview_id: Some(preview.preview_id.clone()),
                permission_decision_id: Some(preview.permission_decision_id.clone()),
            };
            let shown = native_local_edit_preview_summary(preview, path, operation);
            NativeEditToolStep::Review { preview: shown, pending, trace }
        },
    }
}

/// A reviewed edit once applied or rejected: its result, or the label of
/// the failure that ends the round.
pub fn native_edit_reviewed_result(
    reviewed: Result<NativeProviderToolResult, NativeToolContinuationError>,
) -> (r: Result<NativeProviderToolResult, NativeProviderRoundError>)
    ensures
        match reviewed {
            Ok(result) => r == Ok::<NativeProviderToolResult, NativeProviderRoundError>(result),
            Err(e) => r matches Err(f) && continuation_error(f, tool_round_error_label(e)),
        },
{
    match reviewed {
        Ok(result) => Ok(result),
        Err(e) => Err(
            NativeProviderRoundError::ToolContinuation(owned(native_tool_round_error_label(&e))),
        ),
    }
}

// ---------------------------------------------------------------------------
// bash
// ---------------------------------------------------------------------------

/// The arguments of a bash call.
#[derive(Debug, Clone, PartialEq, Eq)]
pub struct NativeBashArguments {
    pub command: String,
    pub workdir: Option<String>,
    pub timeout: Option<u64>,
}

/// The command (empty when absent), the working directory and the timeout
/// of a bash call's JSON arguments.
pub fn native_bash_arguments(arguments: &str) -> (a: NativeBashArguments)
    ensures
        a.command@ == match json_str_field(arguments@, "command"@) {
            Some(c) => c,
            None => Seq::<char>::empty(),
        },
        opt_view(a.workdir) == json_str_field(arguments@, "workdir"@),
        a.timeout == json_u64_field(arguments@, "timeout"@),
{
    let command = match json_str_field_of(arguments, "command") {
        Some(c) => c,
        None => String::new(),
    };
    NativeBashArguments {
        command,
        workdir: json_str_field_of(arguments, "workdir"),
        timeout: json_u64_field_of(arguments, "timeout"),
    }
}

pub open spec fn workdir_guidance() -> Seq<char> {
    "workdir must be an existing directory inside the project root. Use list_project_paths to inspect the project layout."@
}

pub open spec fn executor_guidance() -> Seq<char> {
    "The configured shell.executor is not available in this build; only \"host\" exists today. Ask the user to fix .yach/config.json."@
}

/// Before a command runs: a working directory that is not an existing
/// directory inside the project fails the call, then a shell executor
/// other than `host` does.
pub fn native_bash_preflight(workdir_valid: Option<bool>, executor: &str) -> (r: Option<
    (&'static str, &'static str),
>)
    ensures
        workdir_valid == Some(false) ==> r is Some && r.unwrap().0@ == "workdir_invalid"@
            && r.unwrap().1@ == workdir_guidance(),
        workdir_valid != Some(false) && executor@ != "host"@ ==> r is Some && r.unwrap().0@
            == "unknown_shell_executor"@ && r.unwrap().1@ == executor_guidance(),
        workdir_valid != Some(false) && executor@ == "host"@ ==> r is None,
{
    if workdir_valid == Some(false) {
        return Some(
            (
                "workdir_invalid",
                "workdir must be an existing directory inside the project root. Use list_project_paths to inspect the project layout.",
            ),
        );
    }
    if !str_eq(executor, "host") {
        return Some(
            (
                "unknown_shell_executor",
                "The configured shell.executor is not available in this build; only \"host\" exists today. Ask the user to fix .yach/config.json.",
            ),
        );
    }
    None
}

pub open spec fn rejected_guidance() -> Seq<char> {
    "The user declined to run this command. Ask the user how to proceed or take a different approach."@
}

/// Who approved a command: the allowlist, or the user's review; a
/// rejected review fails the call.
pub fn native_bash_approval(allowlisted: bool, review: Option<LocalEditDecision>) -> (r: Result<
    &'static str,
    (&'static str, &'static str),
>)
    ensures
        allowlisted ==> r is Ok && r->Ok_0@ == "allowlist"@,
        !allowlisted && review == Some(LocalEditDecision::Apply) ==> r is Ok && r->Ok_0@ == "user"@,
        !allowlisted && review != Some(LocalEditDecision::Apply) ==> r is Err && r->Err_0.0@
            == "user_rejected"@ && r->Err_0.1@ == rejected_guidance(),
{
    if allowlisted {
        return Ok("allowlist");
    }
    match review {
        Some(LocalEditDecision::Apply) => Ok("user"),
        _ => Err(
            (
                "user_rejected",
                "The user declined to run this command. Ask the user how to proceed or take a different approach.",
            ),
        ),
    }
}

/// What a bash call does next.
#[derive(Debug, Clone, PartialEq, Eq)]
pub enum NativeBashGate {
    /// Run the command, approved by `allowlist` or `user`.
    Run(&'static str),
    /// Ask the user to review the command.
    Review,
    /// Fail the call with a categorical reason and guidance; the loop goes on.
    Refuse(&'static str, &'static str),
    /// End the round.
    Abort(NativeProviderRoundError),
}

/// Before a command runs: a working directory outside the project, then a
/// shell executor other than `host`, fail the call; an allowlisted command
/// runs; any other waits for the user's review.
pub fn native_bash_gate(workdir_valid: Option<bool>, executor: &str, allowlisted: bool) -> (g:
    NativeBashGate)
    ensures
        workdir_valid == Some(false) ==> g is Refuse && g->Refuse_0@ == "workdir_invalid"@
            && g->Refuse_1@ == workdir_guidance(),
        workdir_valid != Some(false) && executor@ != "host"@ ==> g is Refuse && g->Refuse_0@
            == "unknown_shell_executor"@ && g->Refuse_1@ == executor_guidance(),
        workdir_valid != Some(false) && executor@ == "host"@ && allowlisted ==> g is Run
            && g->Run_0@ == "allowlist"@,
        workdir_valid != Some(false) && executor@ == "host"@ && !allowlisted ==> g
            == NativeBashGate::Review,
{
    match native_bash_preflight(workdir_valid, executor) {
        Some((reason, guidance)) => NativeBashGate::Refuse(reason, guidance),
        None => if allowlisted {
            NativeBashGate::Run("allowlist")
        } else {
            NativeBashGate::Review
        },
    }
}

/// After a command review: a closed channel or an answer for another
/// review ends the round; an answer for this review runs the command when
/// it applies, and fails the call when it rejects. A command runs only on
/// an `Apply` answer naming its request, review and permission decision.
pub fn native_bash_review_gate(
    answer: Option<&NativeReviewAnswer>,
    request_id: &str,
    review_id: &str,
    permission_decision_id: &str,
) -> (g: NativeBashGate)
    ensures
        match answer {
            None => g matches NativeBashGate::Abort(e) && e is Cancelled && e->Cancelled_0@
                == "tool review decision channel closed"@,
            Some(a) => if a.request_id@ == request_id@ && a.preview_id@ == review_id@
                && a.permission_decision_id@ == permission_decision_id@ {
                if a.decision == LocalEditDecision::Apply {
                    g matches NativeBashGate::Run(by) && by@ == "user"@
                } else {
                    g matches NativeBashGate::Refuse(r, h) && r@ == "user_rejected"@ && h@
                        == rejected_guidance()
                }
            } else {
                g matches NativeBashGate::Abort(e) && continuation_error(
                    e,
                    "stale_tool_review_decision"@,
                )
            },
        },
        g is Run ==> answer is Some && answer.unwrap().request_id@ == request_id@
            && answer.unwrap().preview_id@ == review_id@ && answer.unwrap().permission_decision_id@
            == permission_decision_id@ && answer.unwrap().decision == LocalEditDecision::Apply,
{
    match native_review_answer_check(answer, request_id, review_id, permission_decision_id) {
        Ok(decision) => match native_bash_approval(false, Some(decision)) {
            Ok(by) => NativeBashGate::Run(by),
            Err((reason, guidance)) => NativeBashGate::Refuse(reason, guidance),
        },
        Err(e) => NativeBashGate::Abort(e),
    }
}

/// What running a command produced.
#[derive(Debug, Clone, PartialEq, Eq)]
pub struct NativeCommandOutcome {
    pub exit_code: Option<i32>,
    pub duration_ms: u64,
    pub output: String,
    pub output_bytes_total: u64,
    pub truncated: bool,
    pub timed_out: bool,
}

pub open spec fn timeout_guidance() -> Seq<char> {
    "The command exceeded its timeout and was killed. Retry with a larger timeout argument, or run a narrower command."@
}

/// A command that could not start fails with `spawn_failed` and the
/// spawn error; one that timed out with `timeout`.
pub fn native_bash_run_failure(spawn_error: Option<&str>, timed_out: bool) -> (r: Option<
    (String, String),
>)
    ensures
        match spawn_error {
            Some(e) => r is Some && r.unwrap().0@ == "spawn_failed"@ && r.unwrap().1@
                == "The command could not be started: "@ + e@ + "."@,
            None => if timed_out {
                r is Some && r.unwrap().0@ == "timeout"@ && r.unwrap().1@ == timeout_guidance()
            } else {
                r is None
            },
        },
{
    match spawn_error {
        Some(error) => {
            let mut guidance = String::from_str("The command could not be started: ");
            append_str(&mut guidance, error);
            append_str(&mut guidance, ".");
            Some((String::from_str("spawn_failed"), guidance))
        },
        None => if timed_out {
            Some(
                (
                    String::from_str("timeout"),
                    String::from_str(
                        "The command exceeded its timeout and was killed. Retry with a larger timeout argument, or run a narrower command.",
                    ),
                ),
            )
        } else {
            None
        },
    }
}

/// A failed bash call: the failure with guidance as its result, and the
/// bash event that records it.
pub fn native_bash_failed(
    session_id: &NativeSessionId,
    turn_id: &NativeTurnId,
    request: &PendingNativeToolRequest,
    reason: &str,
    guidance: &str,
) -> (r: (NativeSessionEvent, NativeProviderToolResult))
    ensures
        is_failed_result(r.1, *request, reason@, guidance@),
        is_bash_finished_event(
            r.0,
            *session_id,
            *turn_id,
            request.request_id@,
            NativeToolOutcome::Failed,
            r.0->ToolExecutionFinished_reason,
            r.1,
        ),
        opt_view(r.0->ToolExecutionFinished_reason) == Some(reason@),
{
    let result = native_failed_tool_result(request, reason, guidance);
    let event = native_bash_finished_event(
        session_id,
        turn_id,
        request.request_id.as_str(),
        NativeToolOutcome::Failed,
        Some(owned(reason)),
        &result,
    );
    (event, result)
}

/// The object `serde_json` renders for a completed command: `{outcome:
/// "completed", tool_request_id, approved_by, exit_code (a number or
/// null), duration_ms, output, output_bytes_total, truncated}`.
pub open spec fn bash_result_json(
    tool_request_id: Seq<char>,
    approved_by: Seq<char>,
    exit_code: Option<i32>,
    duration_ms: u64,
    output: Seq<char>,
    output_bytes_total: u64,
    truncated: bool,
) -> Seq<char> {
    json_object_text(
        seq![
            ("outcome"@, JsonValueView::Text("completed"@)),
            ("tool_request_id"@, JsonValueView::Text(tool_request_id)),
            ("approved_by"@, JsonValueView::Text(approved_by)),
            (
                "exit_code"@,
                match exit_code {
                    Some(c) => JsonValueView::Signed(c as i64),
                    None => JsonValueView::Null,
                },
            ),
            ("duration_ms"@, JsonValueView::Unsigned(duration_ms)),
            ("output"@, JsonValueView::Text(output)),
            ("output_bytes_total"@, JsonValueView::Unsigned(output_bytes_total)),
            ("truncated"@, JsonValueView::Bool(truncated)),
        ],
    )
}

fn render_bash_result_json(
    tool_request_id: &str,
    approved_by: &str,
    exit_code: Option<i32>,
    duration_ms: u64,
    output: &str,
    output_bytes_total: u64,
    truncated: bool,
) -> (r: String)
    ensures
        r@ == bash_result_json(
            tool_request_id@,
            approved_by@,
            exit_code,
            duration_ms,
            output@,
            output_bytes_total,
            truncated,
        ),
{
    let exit = match exit_code {
        Some(c) => JsonValue::Signed(c as i64),
        None => JsonValue::Null,
    };
    let mut fields: Vec<(String, JsonValue)> = Vec::new();
    fields.push((String::from_str("outcome"), JsonValue::Text(String::from_str("completed"))));
    fields.push((String::from_str("tool_request_id"), JsonValue::Text(owned(tool_request_id))));
    fields.push((String::from_str("approved_by"), JsonValue::Text(owned(approved_by))));
    fields.push((String::from_str("exit_code"), exit));
    fields.push((String::from_str("duration_ms"), JsonValue::Unsigned(duration_ms)));
    fields.push((String::from_str("output"), JsonValue::Text(owned(output))));
    fields.push((String::from_str("output_bytes_total"), JsonValue::Unsigned(output_bytes_total)));
    fields.push((String::from_str("truncated"), JsonValue::Bool(truncated)));
    let ghost expected = seq![
        ("outcome"@, JsonValueView::Text("completed"@)),
        ("tool_request_id"@, JsonValueView::Text(tool_request_id@)),
        ("approved_by"@, JsonValueView::Text(approved_by@)),
        (
            "exit_code"@,
            match exit_code {
                Some(c) => JsonValueView::Signed(c as i64),
                None => JsonValueView::Null,
            },
        ),
        ("duration_ms"@, JsonValueView::Unsigned(duration_ms)),
        ("output"@, JsonValueView::Text(output@)),
        ("output_bytes_total"@, JsonValueView::Unsigned(output_bytes_total)),
        ("truncated"@, JsonValueView::Bool(truncated)),
    ];
    assert(field_views(fields@) =~= expected);
    render_json_object(&fields)
}

/// A command that ran: completed with its exit, timing and output as the
/// redacted payload.
pub fn native_bash_completed_result(
    request: &PendingNativeToolRequest,
    approved_by: &str,
    outcome: &NativeCommandOutcome,
) -> (r: NativeProviderToolResult)
    ensures
        r.tool_request_id == request.request_id,
        r.provider_call_id == request.provider_call_id,
        r.status == NativeToolOutcome::Completed,
        r.content@ == bash_result_json(
            request.request_id@,
            approved_by@,
            outcome.exit_code,
            outcome.duration_ms,
            outcome.output@,
            outcome.output_bytes_total,
            outcome.truncated,
        ),
        r.byte_count == utf8_bytes(r.content@),
        r.redacted,
        r.truncated == outcome.truncated,
        r.reason is None,
{
    let content = render_bash_result_json(
        request.request_id.as_str(),
        approved_by,
        outcome.exit_code,
        outcome.duration_ms,
        outcome.output.as_str(),
        outcome.output_bytes_total,
        outcome.truncated,
    );
    let byte_count = str_byte_len(content.as_str());
    NativeProviderToolResult {
        tool_request_id: request.request_id.clone(),
        provider_call_id: match &request.provider_call_id {
            Some(id) => Some(id.clone()),
            None => None,
        },
        status: NativeToolOutcome::Completed,
        byte_count,
        content,
        redacted: true,
        truncated: outcome.truncated,
        reason: None,
    }
}

/// A result recorded before it is charged (a command's, or a reviewed
/// edit's) is charged to the budget; a refusal ends the round with the
/// batch's error.
pub fn native_tool_result_charge(
    budget: &mut NativeProviderToolLoopBudget,
    result: &NativeProviderToolResult,
) -> (r: Result<(), NativeProviderRoundError>)
    ensures
        match result_charge_refusal(*old(budget), result.byte_count) {
            Some(label) => {
                &&& *final(budget) == *old(budget)
                &&& r matches Err(e) && continuation_error(e, label)
            },
            None => {
                &&& r is Ok
                &&& final(budget).policy == old(budget).policy
                &&& final(budget).tool_rounds == old(budget).tool_rounds
                &&& final(budget).total_tool_calls == old(budget).total_tool_calls
                &&& final(budget).total_result_bytes == saturating(
                    old(budget).total_result_bytes + result.byte_count,
                )
            },
        },
{
    proof {
        lemma_charge_labels();
    }
    match budget.record_tool_result(result.tool_request_id.as_str(), result.byte_count) {
        Ok(()) => Ok(()),
        Err(error) => Err(native_provider_tool_batch_result_budget_failure(error).0),
    }
}

} // verus!
