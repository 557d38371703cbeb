//! Pieces of a provider tool round: failed-but-continuable tool results
//! with guidance, which read-only failures the model can recover from, the
//! ids of command reviews, and the events and trace attributes a round
//! records.
use crate::json::{field_views, json_object_text, render_json_object, JsonValue, JsonValueView};
use crate::session::{
    NativeMetricAttribute, NativeSessionEvent, NativeSessionId, NativeToolOutcome,
    NativeToolPayloadSummary, NativeToolRequestId, NativeTurnId,
};
use crate::text::{append_str, decimal, decimal_string, opt_view, owned, utf8_bytes};
use crate::tool_display::NativeProviderToolResult;
use vstd::prelude::*;

verus! {

/// A tool call the provider asked for, awaiting execution.
#[derive(Debug, Clone, PartialEq, Eq)]
pub struct PendingNativeToolRequest {
    pub request_id: String,
    pub provider_call_id: Option<String>,
    pub tool_name: String,
    pub arguments: String,
}

/// The failure object `{outcome, tool_request_id, error, guidance}` of four
/// strings, as `serde_json` renders it.
pub open spec fn tool_failure_json(
    outcome: Seq<char>,
    tool_request_id: Seq<char>,
    error: Seq<char>,
    guidance: Seq<char>,
) -> Seq<char> {
    json_object_text(
        seq![
            ("outcome"@, JsonValueView::Text(outcome)),
            ("tool_request_id"@, JsonValueView::Text(tool_request_id)),
            ("error"@, JsonValueView::Text(error)),
            ("guidance"@, JsonValueView::Text(guidance)),
        ],
    )
}

fn render_tool_failure_json(outcome: &str, tool_request_id: &str, error: &str, guidance: &str) -> (r:
    String)
    ensures
        r@ == tool_failure_json(outcome@, tool_request_id@, error@, guidance@),
{
    let mut fields: Vec<(String, JsonValue)> = Vec::new();
    fields.push((String::from_str("outcome"), JsonValue::Text(owned(outcome))));
    fields.push((String::from_str("tool_request_id"), JsonValue::Text(owned(tool_request_id))));
    fields.push((String::from_str("error"), JsonValue::Text(owned(error))));
    fields.push((String::from_str("guidance"), JsonValue::Text(owned(guidance))));
    let ghost expected = seq![
        ("outcome"@, JsonValueView::Text(outcome@)),
        ("tool_request_id"@, JsonValueView::Text(tool_request_id@)),
        ("error"@, JsonValueView::Text(error@)),
        ("guidance"@, JsonValueView::Text(guidance@)),
    ];
    assert(field_views(fields@) =~= expected);
    render_json_object(&fields)
}

/// `r` is the failed result of `request` the model can continue from: it
/// answers the request's ids, carries the categorical `reason`, and its
/// redacted payload is the failure object with `guidance`.
pub open spec fn is_failed_result(
    r: NativeProviderToolResult,
    request: PendingNativeToolRequest,
    reason: Seq<char>,
    guidance: Seq<char>,
) -> bool {
    &&& r.tool_request_id == request.request_id
    &&& r.provider_call_id == request.provider_call_id
    &&& r.status == NativeToolOutcome::Failed
    &&& r.content@ == tool_failure_json("failed"@, request.request_id@, reason, guidance)
    &&& r.byte_count == utf8_bytes(r.content@)
    &&& r.redacted
    &&& !r.truncated
    &&& opt_view(r.reason) == Some(reason)
}

/// A failed result the model can continue from: the categorical error and
/// the next step to take, as the payload it sees.
pub fn native_failed_tool_result(
    request: &PendingNativeToolRequest,
    reason: &str,
    guidance: &str,
) -> (r: NativeProviderToolResult)
    ensures
        is_failed_result(r, *request, reason@, guidance@),
{
    let content = render_tool_failure_json("failed", request.request_id.as_str(), reason, guidance);
    let byte_count = crate::session_view::str_byte_len(content.as_str());
    NativeProviderToolResult {
        tool_request_id: request.request_id.clone(),
        provider_call_id: match &request.provider_call_id {
            Some(id) => Some(id.clone()),
            None => None,
        },
        status: NativeToolOutcome::Failed,
        byte_count,
        content,
        redacted: true,
        truncated: false,
        reason: Some(owned(reason)),
    }
}

pub open spec fn sensitive_guidance() -> Seq<char> {
    "This path matches the sensitive-file deny list, so its contents are not available to tools. If access is intended, ask the user to allow the path under files.allow in .yach/config.json and retry."@
}

/// A read of a sensitive path fails with `sensitive_path_denied` and says
/// how the user can allow the path.
pub fn native_sensitive_denied_tool_result(request: &PendingNativeToolRequest) -> (r:
    NativeProviderToolResult)
    ensures
        is_failed_result(r, *request, "sensitive_path_denied"@, sensitive_guidance()),
{
    native_failed_tool_result(
        request,
        "sensitive_path_denied",
        "This path matches the sensitive-file deny list, so its contents are not available to tools. If access is intended, ask the user to allow the path under files.allow in .yach/config.json and retry.",
    )
}

/// Why a path could not be resolved inside the project.
#[derive(Debug, Clone, Copy, PartialEq, Eq, Structural)]
pub enum NativeResourcePathError {
    Missing,
    EscapesRoot,
    ExpectedFile,
    ExpectedDirectory,
    RootUnavailable,
    SensitiveDenied,
}

/// Why a tool could not run.
#[derive(Debug, Clone, PartialEq, Eq)]
pub enum NativeToolExecutionError {
    ResourceReadTooLarge,
    ResourceReadNotUtf8,
    ResourcePath { error: NativeResourcePathError },
    UnknownTool,
    PermissionDenied,
    UnsupportedTool,
    MalformedResult,
    ExtensionHost { reason: String },
}

pub open spec fn too_large_guidance() -> Seq<char> {
    "The file exceeds the read_text_file size limit (32KB). Use the bash tool to sample it instead (for example `head -c 20000 <path>`, `wc -l <path>`, or `sed -n '1,50p' <path>`), or read a smaller file."@
}

pub open spec fn not_utf8_guidance() -> Seq<char> {
    "The file is not valid UTF-8 text. Use the bash tool to inspect it (for example `file <path>` or `head -c 200 <path> | xxd`), or skip it."@
}

/// The categorical reason and guidance of a read-only failure the model
/// can recover from; `None` for failures of the harness itself, which end
/// the turn.
pub open spec fn recoverable_failure(e: NativeToolExecutionError) -> Option<(Seq<char>, Seq<char>)> {
    match e {
        NativeToolExecutionError::ResourceReadTooLarge => Some(
            ("resource_read_too_large"@, too_large_guidance()),
        ),
        NativeToolExecutionError::ResourceReadNotUtf8 => Some(
            ("resource_read_not_utf8"@, not_utf8_guidance()),
        ),
        NativeToolExecutionError::ResourcePath { error } => match error {
            NativeResourcePathError::Missing => Some(
                (
                    "path_missing"@,
                    "The path does not exist. Use list_project_paths to inspect the project layout."@,
                ),
            ),
            NativeResourcePathError::EscapesRoot => Some(
                (
                    "path_outside_project"@,
                    "Paths must stay inside the project root. Use project-relative paths."@,
                ),
            ),
            NativeResourcePathError::ExpectedFile => Some(
                (
                    "expected_file"@,
                    "The path is a directory. Use list_project_paths to browse it, or name a file."@,
                ),
            ),
            NativeResourcePathError::ExpectedDirectory => Some(
                (
                    "expected_directory"@,
                    "The path is a file, not a directory. Use read_text_file for file contents."@,
                ),
            ),
            _ => None,
        },
        _ => None,
    }
}

pub fn native_recoverable_readonly_failure(error: &NativeToolExecutionError) -> (r: Option<
    (&'static str, &'static str),
>)
    ensures
        match r {
            Some((reason, guidance)) => recoverable_failure(*error) == Some((reason@, guidance@)),
            None => recoverable_failure(*error) is None,
        },
{
    match error {
        NativeToolExecutionError::ResourceReadTooLarge => Some(
            (
                "resource_read_too_large",
                "The file exceeds the read_text_file size limit (32KB). Use the bash tool to sample it instead (for example `head -c 20000 <path>`, `wc -l <path>`, or `sed -n '1,50p' <path>`), or read a smaller file.",
            ),
        ),
        NativeToolExecutionError::ResourceReadNotUtf8 => Some(
            (
                "resource_read_not_utf8",
                "The file is not valid UTF-8 text. Use the bash tool to inspect it (for example `file <path>` or `head -c 200 <path> | xxd`), or skip it.",
            ),
        ),
        NativeToolExecutionError::ResourcePath { error } => match error {
            NativeResourcePathError::Missing => Some(
                (
                    "path_missing",
                    "The path does not exist. Use list_project_paths to inspect the project layout.",
                ),
            ),
            NativeResourcePathError::EscapesRoot => Some(
                (
                    "path_outside_project",
                    "Paths must stay inside the project root. Use project-relative paths.",
                ),
            ),
            NativeResourcePathError::ExpectedFile => Some(
                (
                    "expected_file",
                    "The path is a directory. Use list_project_paths to browse it, or name a file.",
                ),
            ),
            NativeResourcePathError::ExpectedDirectory => Some(
                (
                    "expected_directory",
                    "The path is a file, not a directory. Use read_text_file for file contents.",
                ),
            ),
            NativeResourcePathError::RootUnavailable | NativeResourcePathError::SensitiveDenied => None,
        },
        _ => None,
    }
}

// ---------------------------------------------------------------------------
// Command review ids
// ---------------------------------------------------------------------------

/// How many command reviews have been requested.
#[derive(Debug, Clone, Copy, PartialEq, Eq)]
pub struct NativeCommandReviewCounter {
    pub issued: u64,
}

impl NativeCommandReviewCounter {
    pub fn new() -> (c: Self)
        ensures
            c.issued == 0,
    {
        NativeCommandReviewCounter { issued: 0 }
    }
}

/// The ids of the next command review, `command-review-<n>` and
/// `command-permission-<n>`, numbering reviews from one.
pub fn next_command_review_ids(counter: &mut NativeCommandReviewCounter) -> (ids: (String, String))
    requires
        old(counter).issued < u64::MAX,
    ensures
        final(counter).issued == old(counter).issued + 1,
        ids.0@ == "command-review-"@ + decimal(final(counter).issued as nat),
        ids.1@ == "command-permission-"@ + decimal(final(counter).issued as nat),
{
    let next = counter.issued + 1;
    counter.issued = next;
    let digits = decimal_string(next);
    let mut review = String::from_str("command-review-");
    append_str(&mut review, digits.as_str());
    let mut permission = String::from_str("command-permission-");
    append_str(&mut permission, digits.as_str());
    (review, permission)
}

// ---------------------------------------------------------------------------
// Recorded events
// ---------------------------------------------------------------------------

/// A trace attribute.
pub fn native_trace_attribute(key: &str, value: String) -> (a: NativeMetricAttribute)
    ensures
        a.key@ == key@,
        a.value == value,
{
    NativeMetricAttribute { key: owned(key), value }
}

pub open spec fn outcome_debug_name(outcome: NativeToolOutcome) -> Seq<char> {
    match outcome {
        NativeToolOutcome::Completed => "Completed"@,
        NativeToolOutcome::Failed => "Failed"@,
        NativeToolOutcome::Denied => "Denied"@,
        NativeToolOutcome::Cancelled => "Cancelled"@,
        NativeToolOutcome::ValidationFailed => "ValidationFailed"@,
    }
}

fn outcome_debug(outcome: NativeToolOutcome) -> (s: &'static str)
    ensures
        s@ == outcome_debug_name(outcome),
{
    match outcome {
        NativeToolOutcome::Completed => "Completed",
        NativeToolOutcome::Failed => "Failed",
        NativeToolOutcome::Denied => "Denied",
        NativeToolOutcome::Cancelled => "Cancelled",
        NativeToolOutcome::ValidationFailed => "ValidationFailed",
    }
}

pub open spec fn is_bash_finished_event(
    e: NativeSessionEvent,
    session: NativeSessionId,
    turn: NativeTurnId,
    request_id: Seq<char>,
    outcome: NativeToolOutcome,
    reason: Option<String>,
    result: NativeProviderToolResult,
) -> bool {
    match e {
        NativeSessionEvent::ToolExecutionFinished {
            session_id,
            turn_id,
            tool_request_id,
            outcome: o,
            reason: r,
            result_summary,
            result_content,
        } => {
            &&& session_id == session
            &&& turn_id == turn
            &&& tool_request_id.0@ == request_id
            &&& o == outcome
            &&& r == reason
            &&& result_summary is Some
            &&& result_summary.unwrap().summary@ == "bash outcome="@ + outcome_debug_name(outcome)
            &&& result_summary.unwrap().byte_count == result.byte_count
            &&& result_summary.unwrap().redacted
            &&& result_summary.unwrap().truncated == result.truncated
            &&& result_content == Some(result.content)
        },
        _ => false,
    }
}

/// The event that finishes a bash call: its outcome and reason, the result
/// payload, and a redacted summary `bash outcome=<Outcome>` with the
/// result's size and truncation.
pub fn native_bash_finished_event(
    session_id: &NativeSessionId,
    turn_id: &NativeTurnId,
    request_id: &str,
    outcome: NativeToolOutcome,
    reason: Option<String>,
    result: &NativeProviderToolResult,
) -> (e: NativeSessionEvent)
    ensures
        is_bash_finished_event(e, *session_id, *turn_id, request_id@, outcome, reason, *result),
{
    let mut summary = String::from_str("bash outcome=");
    append_str(&mut summary, outcome_debug(outcome));
    NativeSessionEvent::ToolExecutionFinished {
        session_id: session_id.duplicate(),
        turn_id: turn_id.duplicate(),
        tool_request_id: NativeToolRequestId(owned(request_id)),
        outcome,
        reason,
        result_summary: Some(
            NativeToolPayloadSummary {
                summary,
                byte_count: result.byte_count,
                redacted: true,
                truncated: result.truncated,
            },
        ),
        result_content: Some(result.content.clone()),
    }
}

// ---------------------------------------------------------------------------
// Advertised tools
// ---------------------------------------------------------------------------

pub open spec fn approved_tool_names() -> Seq<Seq<char>> {
    seq![
        "project_path_info"@,
        "read_text_file"@,
        "search_project"@,
        "list_project_paths"@,
        "edit_text_file"@,
        "create_text_file"@,
        "bash"@,
    ]
}

/// The tools the provider is approved to call, in advertising order.
pub fn native_provider_approved_tools() -> (tools: Vec<String>)
    ensures
        tools@.map_values(|t: String| t@) == approved_tool_names(),
{
    let mut tools: Vec<String> = Vec::new();
    tools.push(String::from_str("project_path_info"));
    tools.push(String::from_str("read_text_file"));
    tools.push(String::from_str("search_project"));
    tools.push(String::from_str("list_project_paths"));
    tools.push(String::from_str("edit_text_file"));
    tools.push(String::from_str("create_text_file"));
    tools.push(String::from_str("bash"));
    assert(tools@.map_values(|t: String| t@) =~= approved_tool_names());
    tools
}

/// Different review numbers give different review ids and different
/// permission ids.
pub proof fn law_command_review_ids_are_distinct(n: u64, m: u64)
    requires
        n != m,
    ensures
        "command-review-"@ + decimal(n as nat) != "command-review-"@ + decimal(m as nat),
        "command-permission-"@ + decimal(n as nat) != "command-permission-"@ + decimal(m as nat),
{
    let r = "command-review-"@;
    let p = "command-permission-"@;
    if r + decimal(n as nat) == r + decimal(m as nat) {
        assert((r + decimal(n as nat)).subrange(r.len() as int, (r + decimal(n as nat)).len() as int)
            =~= decimal(n as nat));
        assert((r + decimal(m as nat)).subrange(r.len() as int, (r + decimal(m as nat)).len() as int)
            =~= decimal(m as nat));
        crate::text::lemma_decimal_injective(n as nat, m as nat);
    }
    if p + decimal(n as nat) == p + decimal(m as nat) {
        assert((p + decimal(n as nat)).subrange(p.len() as int, (p + decimal(n as nat)).len() as int)
            =~= decimal(n as nat));
        assert((p + decimal(m as nat)).subrange(p.len() as int, (p + decimal(m as nat)).len() as int)
            =~= decimal(m as nat));
        crate::text::lemma_decimal_injective(n as nat, m as nat);
    }
}

} // verus!
