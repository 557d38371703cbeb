//! The provider tool loop: its runaway-loop budget, how a provider round's
//! stream is collected, and how round failures are labelled and mapped to
//! provider errors.
use crate::text::{
    append_str, decimal, decimal_string, has_prefix, opt_index, owned, str_starts_with,
};
use vstd::prelude::*;

verus! {

/// Runaway-loop backstops for one provider turn.
#[derive(Debug, Clone, Copy, PartialEq, Eq, Structural)]
pub struct NativeProviderToolLoopPolicy {
    pub max_tool_rounds: Option<usize>,
    pub max_tool_calls_per_round: usize,
    pub max_total_tool_calls: usize,
    pub max_result_bytes_per_tool: usize,
    pub max_total_result_bytes: usize,
}

/// Per-round limits handed to tool continuation.
#[derive(Debug, Clone, Copy, PartialEq, Eq, Structural)]
pub struct NativeToolContinuationPolicy {
    pub max_tool_calls: usize,
    pub max_result_bytes: usize,
}

impl NativeProviderToolLoopPolicy {
    /// No round limit; 16 calls per round, 200 calls in all, 64 KiB per
    /// result and 512 KiB of results in all.
    pub fn agent_default() -> (p: Self)
        ensures
            p.max_tool_rounds is None,
            p.max_tool_calls_per_round == 16,
            p.max_total_tool_calls == 200,
            p.max_result_bytes_per_tool == 64 * 1024,
            p.max_total_result_bytes == 512 * 1024,
    {
        Self {
            max_tool_rounds: None,
            max_tool_calls_per_round: 16,
            max_total_tool_calls: 200,
            max_result_bytes_per_tool: 64 * 1024,
            max_total_result_bytes: 512 * 1024,
        }
    }

    /// The same policy with a round limit.
    pub fn with_max_tool_rounds(self, max_tool_rounds: usize) -> (p: Self)
        ensures
            p == (Self { max_tool_rounds: Some(max_tool_rounds), ..self }),
    {
        let mut p = self;
        p.max_tool_rounds = Some(max_tool_rounds);
        p
    }

    /// The per-round part of the policy.
    pub fn as_continuation_policy(self) -> (p: NativeToolContinuationPolicy)
        ensures
            p.max_tool_calls == self.max_tool_calls_per_round,
            p.max_result_bytes == self.max_result_bytes_per_tool,
    {
        NativeToolContinuationPolicy {
            max_tool_calls: self.max_tool_calls_per_round,
            max_result_bytes: self.max_result_bytes_per_tool,
        }
    }
}

#[derive(Debug, Clone, Copy, PartialEq, Eq, Structural)]
pub enum ProviderErrorKind {
    Authentication,
    RateLimited,
    InvalidRequest,
    ContextLength,
    UnavailableModel,
    Timeout,
    Network,
    ProviderInternal,
    SafetyRefusal,
    MalformedStream,
    Backpressure,
    Cancelled,
    Unknown,
}

#[derive(Debug, Clone, PartialEq, Eq)]
pub struct ProviderError {
    pub kind: ProviderErrorKind,
    pub message: String,
    pub redacted_debug: Option<String>,
}

/// Why a provider round could not complete.
#[derive(Debug, Clone, PartialEq, Eq)]
pub enum NativeProviderRoundError {
    Provider(ProviderError),
    Cancelled(String),
    StreamEndedWithoutCompletion,
    ProjectRootUnavailable,
    ToolContinuation(String),
    ToolExecutionDenied { tool_request_id: String, tool_name: String, reason: String },
    /// A final round that asked for more tools.
    SecondRoundToolCall,
}

/// The budget a turn has consumed so far.
#[derive(Debug, Clone, PartialEq, Eq)]
pub struct NativeProviderToolLoopBudget {
    pub policy: NativeProviderToolLoopPolicy,
    pub tool_rounds: usize,
    pub total_tool_calls: usize,
    pub total_result_bytes: usize,
}

pub open spec fn continuation_error(e: NativeProviderRoundError, label: Seq<char>) -> bool {
    match e {
        NativeProviderRoundError::ToolContinuation(l) => l@ == label,
        _ => false,
    }
}

pub open spec fn saturating(x: int) -> int {
    if x > usize::MAX {
        usize::MAX as int
    } else {
        x
    }
}

fn continuation(label: &str) -> (e: NativeProviderRoundError)
    ensures
        continuation_error(e, label@),
{
    NativeProviderRoundError::ToolContinuation(owned(label))
}

impl NativeProviderToolLoopBudget {
    /// What has been consumed stays within the policy's totals and round limit.
    pub open spec fn within_limits(self) -> bool {
        &&& self.total_tool_calls <= self.policy.max_total_tool_calls
        &&& self.total_result_bytes <= self.policy.max_total_result_bytes
        &&& (self.policy.max_tool_rounds matches Some(m) ==> self.tool_rounds <= m)
    }

    /// A budget with nothing consumed.
    pub fn new(policy: NativeProviderToolLoopPolicy) -> (b: Self)
        ensures
            b.policy == policy,
            b.tool_rounds == 0,
            b.total_tool_calls == 0,
            b.total_result_bytes == 0,
            b.within_limits(),
    {
        Self { policy, tool_rounds: 0, total_tool_calls: 0, total_result_bytes: 0 }
    }

    /// Admits a round of `tool_call_count` calls, or names the limit it
    /// would break: the round limit, then the per-round call limit, then the
    /// total call limit. A refused round consumes nothing.
    pub fn begin_tool_round(&mut self, tool_call_count: usize) -> (r: Result<
        (),
        NativeProviderRoundError,
    >)
        requires
            old(self).tool_rounds < usize::MAX,
        ensures
            final(self).policy == old(self).policy,
            final(self).total_result_bytes == old(self).total_result_bytes,
            old(self).within_limits() ==> final(self).within_limits(),
            r is Err ==> *final(self) == *old(self),
            ({
                let b = *old(self);
                let next_total = saturating(b.total_tool_calls + tool_call_count);
                if b.policy.max_tool_rounds matches Some(m) && b.tool_rounds >= m {
                    r matches Err(e) && continuation_error(e, "tool_loop_too_many_rounds"@)
                        && *final(self) == b
                } else if tool_call_count > b.policy.max_tool_calls_per_round {
                    r matches Err(e) && continuation_error(e, "tool_round_too_many_calls"@)
                        && *final(self) == b
                } else if next_total > b.policy.max_total_tool_calls {
                    r matches Err(e) && continuation_error(e, "tool_loop_too_many_total_calls"@)
                        && *final(self) == b
                } else {
                    r is Ok && final(self).tool_rounds == b.tool_rounds + 1
                        && final(self).total_tool_calls == next_total
                }
            }),
    {
        if let Some(max_tool_rounds) = self.policy.max_tool_rounds {
            if self.tool_rounds >= max_tool_rounds {
                return Err(continuation("tool_loop_too_many_rounds"));
            }
        }
        if tool_call_count > self.policy.max_tool_calls_per_round {
            return Err(continuation("tool_round_too_many_calls"));
        }
        let next_total_tool_calls = self.total_tool_calls.saturating_add(tool_call_count);
        if next_total_tool_calls > self.policy.max_total_tool_calls {
            return Err(continuation("tool_loop_too_many_total_calls"));
        }
        self.tool_rounds = self.tool_rounds + 1;
        self.total_tool_calls = next_total_tool_calls;
        Ok(())
    }

    /// Admits one tool result of `byte_count` bytes, or names the limit it
    /// would break: the per-result limit (naming the request), then the
    /// total limit. A refused result consumes nothing.
    pub fn record_tool_result(&mut self, tool_request_id: &str, byte_count: usize) -> (r: Result<
        (),
        NativeProviderRoundError,
    >)
        ensures
            final(self).policy == old(self).policy,
            final(self).tool_rounds == old(self).tool_rounds,
            final(self).total_tool_calls == old(self).total_tool_calls,
            old(self).within_limits() ==> final(self).within_limits(),
            r is Err ==> *final(self) == *old(self),
            ({
                let b = *old(self);
                let next_total = saturating(b.total_result_bytes + byte_count);
                if byte_count > b.policy.max_result_bytes_per_tool {
                    r matches Err(e) && continuation_error(
                        e,
                        "tool_result_too_large:"@ + tool_request_id@,
                    ) && *final(self) == b
                } else if next_total > b.policy.max_total_result_bytes {
                    r matches Err(e) && continuation_error(e, "tool_loop_total_result_too_large"@)
                        && *final(self) == b
                } else {
                    r is Ok && final(self).total_result_bytes == next_total
                }
            }),
    {
        if byte_count > self.policy.max_result_bytes_per_tool {
            let mut label = String::from_str("tool_result_too_large:");
            append_str(&mut label, tool_request_id);
            return Err(NativeProviderRoundError::ToolContinuation(label));
        }
        let next_total_result_bytes = self.total_result_bytes.saturating_add(byte_count);
        if next_total_result_bytes > self.policy.max_total_result_bytes {
            return Err(continuation("tool_loop_total_result_too_large"));
        }
        self.total_result_bytes = next_total_result_bytes;
        Ok(())
    }
}

// ---------------------------------------------------------------------------
// Error labels and provider errors
// ---------------------------------------------------------------------------

/// The wire label of a provider error kind.
pub open spec fn error_kind_label(kind: ProviderErrorKind) -> Seq<char> {
    match kind {
        ProviderErrorKind::Authentication => "authentication"@,
        ProviderErrorKind::RateLimited => "rate_limited"@,
        ProviderErrorKind::InvalidRequest => "invalid_request"@,
        ProviderErrorKind::ContextLength => "context_length"@,
        ProviderErrorKind::UnavailableModel => "unavailable_model"@,
        ProviderErrorKind::Timeout => "timeout"@,
        ProviderErrorKind::Network => "network"@,
        ProviderErrorKind::ProviderInternal => "provider_internal"@,
        ProviderErrorKind::SafetyRefusal => "safety_refusal"@,
        ProviderErrorKind::MalformedStream => "malformed_stream"@,
        ProviderErrorKind::Backpressure => "backpressure"@,
        ProviderErrorKind::Cancelled => "cancelled"@,
        ProviderErrorKind::Unknown => "unknown"@,
    }
}

/// The wire label of a provider error kind.
pub fn provider_error_kind_label(kind: ProviderErrorKind) -> (s: &'static str)
    ensures
        s@ == error_kind_label(kind),
{
    match kind {
        ProviderErrorKind::Authentication => "authentication",
        ProviderErrorKind::RateLimited => "rate_limited",
        ProviderErrorKind::InvalidRequest => "invalid_request",
        ProviderErrorKind::ContextLength => "context_length",
        ProviderErrorKind::UnavailableModel => "unavailable_model",
        ProviderErrorKind::Timeout => "timeout",
        ProviderErrorKind::Network => "network",
        ProviderErrorKind::ProviderInternal => "provider_internal",
        ProviderErrorKind::SafetyRefusal => "safety_refusal",
        ProviderErrorKind::MalformedStream => "malformed_stream",
        ProviderErrorKind::Backpressure => "backpressure",
        ProviderErrorKind::Cancelled => "cancelled",
        ProviderErrorKind::Unknown => "unknown",
    }
}

pub struct ProviderErrorView {
    pub kind: ProviderErrorKind,
    pub message: Seq<char>,
    pub redacted_debug: Option<Seq<char>>,
}

impl View for ProviderError {
    type V = ProviderErrorView;

    open spec fn view(&self) -> ProviderErrorView {
        ProviderErrorView {
            kind: self.kind,
            message: self.message@,
            redacted_debug: match self.redacted_debug {
                Some(d) => Some(d@),
                None => None,
            },
        }
    }
}

impl ProviderError {
    /// A cancellation carrying its reason as the message.
    pub fn cancelled(message: String) -> (e: Self)
        ensures
            e.kind == ProviderErrorKind::Cancelled,
            e.message == message,
            e.redacted_debug is None,
    {
        ProviderError { kind: ProviderErrorKind::Cancelled, message, redacted_debug: None }
    }

    /// A copy with the same view.
    pub fn duplicate(&self) -> (e: Self)
        ensures
            e@ == self@,
    {
        ProviderError {
            kind: self.kind,
            message: self.message.clone(),
            redacted_debug: match &self.redacted_debug {
                Some(d) => Some(d.clone()),
                None => None,
            },
        }
    }
}

/// The label a round error is reported under.
pub open spec fn round_error_label(e: NativeProviderRoundError) -> Seq<char> {
    match e {
        NativeProviderRoundError::Provider(_) => "provider_failed"@,
        NativeProviderRoundError::Cancelled(_) => "provider_cancelled"@,
        NativeProviderRoundError::StreamEndedWithoutCompletion => "stream_ended_without_completion"@,
        NativeProviderRoundError::ProjectRootUnavailable => "project_root_unavailable"@,
        NativeProviderRoundError::ToolContinuation(reason) => reason@,
        NativeProviderRoundError::ToolExecutionDenied { .. } => "tool_execution_denied"@,
        NativeProviderRoundError::SecondRoundToolCall => "unexpected_tool_call"@,
    }
}

pub fn native_provider_round_error_label(error: &NativeProviderRoundError) -> (s: String)
    ensures
        s@ == round_error_label(*error),
{
    match error {
        NativeProviderRoundError::Provider(_) => String::from_str("provider_failed"),
        NativeProviderRoundError::Cancelled(_) => String::from_str("provider_cancelled"),
        NativeProviderRoundError::StreamEndedWithoutCompletion => String::from_str(
            "stream_ended_without_completion",
        ),
        NativeProviderRoundError::ProjectRootUnavailable => String::from_str(
            "project_root_unavailable",
        ),
        NativeProviderRoundError::ToolContinuation(reason) => reason.clone(),
        NativeProviderRoundError::ToolExecutionDenied { .. } => String::from_str(
            "tool_execution_denied",
        ),
        NativeProviderRoundError::SecondRoundToolCall => String::from_str("unexpected_tool_call"),
    }
}

/// How an edit trace step ended.
#[derive(Debug, Clone, Copy, PartialEq, Eq, Structural)]
pub enum NativeEditTraceOutcome {
    Completed,
    Failed,
    Cancelled,
    Rejected,
}

/// A review wait ends `Cancelled` when the round was cancelled, `Failed` otherwise.
pub fn native_review_wait_error_outcome(error: &NativeProviderRoundError) -> (o:
    NativeEditTraceOutcome)
    ensures
        o == (if error is Cancelled {
            NativeEditTraceOutcome::Cancelled
        } else {
            NativeEditTraceOutcome::Failed
        }),
{
    match error {
        NativeProviderRoundError::Cancelled(_) => NativeEditTraceOutcome::Cancelled,
        _ => NativeEditTraceOutcome::Failed,
    }
}

/// Why a tool round failed validation or execution.
#[derive(Debug, Clone, PartialEq, Eq)]
pub enum NativeToolContinuationError {
    TooManyToolCalls { count: usize, max: usize },
    Validation(String),
    Execution(String),
    ResultTooLarge { tool_request_id: String, byte_count: usize },
}

/// The label a tool round failure ends the round with.
pub open spec fn tool_round_error_label(error: NativeToolContinuationError) -> Seq<char> {
    match error {
        NativeToolContinuationError::TooManyToolCalls { .. } => "tool_round_too_many_calls"@,
        NativeToolContinuationError::Validation(_) => "tool_round_validation_failed"@,
        NativeToolContinuationError::Execution(_) => "tool_round_execution_failed"@,
        NativeToolContinuationError::ResultTooLarge { .. } => "tool_round_result_too_large"@,
    }
}

pub fn native_tool_round_error_label(error: &NativeToolContinuationError) -> (s: &'static str)
    ensures
        s@ == tool_round_error_label(*error),
{
    match error {
        NativeToolContinuationError::TooManyToolCalls { .. } => "tool_round_too_many_calls",
        NativeToolContinuationError::Validation(_) => "tool_round_validation_failed",
        NativeToolContinuationError::Execution(_) => "tool_round_execution_failed",
        NativeToolContinuationError::ResultTooLarge { .. } => "tool_round_result_too_large",
    }
}

/// Why tool results could not be mapped into a continuation request.
#[derive(Debug, Clone, PartialEq, Eq)]
pub enum ProviderContinuationMappingError {
    Validation(String),
    EmptyToolResults,
    UnsupportedToolResultStatus { tool_request_id: String },
}

pub fn native_provider_mapping_error_label(error: &ProviderContinuationMappingError) -> (s:
    &'static str)
    ensures
        s@ == match error {
            ProviderContinuationMappingError::Validation(_) => "tool_continuation_validation_failed"@,
            ProviderContinuationMappingError::EmptyToolResults => "tool_continuation_empty_results"@,
            ProviderContinuationMappingError::UnsupportedToolResultStatus {
                ..
            } => "tool_continuation_unsupported_status"@,
        },
{
    match error {
        ProviderContinuationMappingError::Validation(_) => "tool_continuation_validation_failed",
        ProviderContinuationMappingError::EmptyToolResults => "tool_continuation_empty_results",
        ProviderContinuationMappingError::UnsupportedToolResultStatus { .. } =>
            "tool_continuation_unsupported_status",
    }
}

/// Why advertised provider tools were rejected.
#[derive(Debug, Clone, PartialEq, Eq)]
pub enum ProviderToolAdvertisingError {
    Malformed,
    EmptyTools,
    DuplicateExtension,
    DuplicateToolName { tool_name: String },
    UnsupportedTool { tool_name: String },
    UnsupportedRisk { tool_name: String },
    UnsupportedSchema { tool_name: String },
}

pub fn native_provider_tool_advertising_error_label(error: &ProviderToolAdvertisingError) -> (s:
    &'static str)
    ensures
        s@ == match error {
            ProviderToolAdvertisingError::Malformed => "provider_tool_advertising_malformed"@,
            ProviderToolAdvertisingError::EmptyTools => "provider_tool_advertising_empty_tools"@,
            ProviderToolAdvertisingError::DuplicateExtension =>
                "provider_tool_advertising_duplicate_extension"@,
            ProviderToolAdvertisingError::DuplicateToolName {
                ..
            } => "provider_tool_advertising_duplicate_tool_name"@,
            ProviderToolAdvertisingError::UnsupportedTool {
                ..
            } => "provider_tool_advertising_unsupported_tool"@,
            ProviderToolAdvertisingError::UnsupportedRisk {
                ..
            } => "provider_tool_advertising_unsupported_risk"@,
            ProviderToolAdvertisingError::UnsupportedSchema {
                ..
            } => "provider_tool_advertising_unsupported_schema"@,
        },
{
    match error {
        ProviderToolAdvertisingError::Malformed => "provider_tool_advertising_malformed",
        ProviderToolAdvertisingError::EmptyTools => "provider_tool_advertising_empty_tools",
        ProviderToolAdvertisingError::DuplicateExtension =>
            "provider_tool_advertising_duplicate_extension",
        ProviderToolAdvertisingError::DuplicateToolName { .. } =>
            "provider_tool_advertising_duplicate_tool_name",
        ProviderToolAdvertisingError::UnsupportedTool { .. } =>
            "provider_tool_advertising_unsupported_tool",
        ProviderToolAdvertisingError::UnsupportedRisk { .. } =>
            "provider_tool_advertising_unsupported_risk",
        ProviderToolAdvertisingError::UnsupportedSchema { .. } =>
            "provider_tool_advertising_unsupported_schema",
    }
}

/// The user-facing message for a stopped tool loop.
pub open spec fn tool_loop_stop_message(reason: Seq<char>) -> Seq<char> {
    if reason == "tool_loop_too_many_rounds"@ || reason == "tool_loop_too_many_total_calls"@
        || reason == "tool_loop_total_result_too_large"@ {
        "Native provider tool loop stopped before completion"@
    } else if reason == "context_refilled_after_compaction"@ {
        "Context refilled immediately after compaction; narrow the request or start a fresh session"@
    } else {
        "Native provider tool continuation failed"@
    }
}

pub fn native_provider_tool_loop_stop_message(reason: &str) -> (s: &'static str)
    ensures
        s@ == tool_loop_stop_message(reason@),
{
    if crate::text::str_eq(reason, "tool_loop_too_many_rounds") || crate::text::str_eq(
        reason,
        "tool_loop_too_many_total_calls",
    ) || crate::text::str_eq(reason, "tool_loop_total_result_too_large") {
        "Native provider tool loop stopped before completion"
    } else if crate::text::str_eq(reason, "context_refilled_after_compaction") {
        "Context refilled immediately after compaction; narrow the request or start a fresh session"
    } else {
        "Native provider tool continuation failed"
    }
}

/// The provider error a failed round is reported as.
pub open spec fn round_error_to_provider_error(e: NativeProviderRoundError) -> ProviderErrorView {
    match e {
        NativeProviderRoundError::Provider(error) => error@,
        NativeProviderRoundError::Cancelled(reason) => ProviderErrorView {
            kind: ProviderErrorKind::Cancelled,
            message: reason@,
            redacted_debug: None,
        },
        NativeProviderRoundError::StreamEndedWithoutCompletion => ProviderErrorView {
            kind: ProviderErrorKind::MalformedStream,
            message: "Native provider stream ended without completion"@,
            redacted_debug: None,
        },
        NativeProviderRoundError::ProjectRootUnavailable => ProviderErrorView {
            kind: ProviderErrorKind::InvalidRequest,
            message: "Native provider project root unavailable"@,
            redacted_debug: None,
        },
        NativeProviderRoundError::ToolContinuation(reason) => ProviderErrorView {
            kind: ProviderErrorKind::InvalidRequest,
            message: tool_loop_stop_message(reason@),
            redacted_debug: Some(reason@),
        },
        NativeProviderRoundError::ToolExecutionDenied { tool_request_id, tool_name, reason } =>
            ProviderErrorView {
            kind: ProviderErrorKind::InvalidRequest,
            message: "Native provider tool execution denied"@,
            redacted_debug: Some(
                "tool_execution_denied:"@ + tool_name@ + ":"@ + tool_request_id@ + ":"@ + reason@,
            ),
        },
        NativeProviderRoundError::SecondRoundToolCall => ProviderErrorView {
            kind: ProviderErrorKind::InvalidRequest,
            message: "Native provider tool continuation failed"@,
            redacted_debug: Some("unexpected_tool_call"@),
        },
    }
}

pub fn native_provider_round_error_to_provider_error(error: &NativeProviderRoundError) -> (p:
    ProviderError)
    ensures
        p@ == round_error_to_provider_error(*error),
{
    match error {
        NativeProviderRoundError::Provider(error) => error.duplicate(),
        NativeProviderRoundError::Cancelled(reason) => ProviderError::cancelled(reason.clone()),
        NativeProviderRoundError::StreamEndedWithoutCompletion => ProviderError {
            kind: ProviderErrorKind::MalformedStream,
            message: String::from_str("Native provider stream ended without completion"),
            redacted_debug: None,
        },
        NativeProviderRoundError::ProjectRootUnavailable => ProviderError {
            kind: ProviderErrorKind::InvalidRequest,
            message: String::from_str("Native provider project root unavailable"),
            redacted_debug: None,
        },
        NativeProviderRoundError::ToolContinuation(reason) => ProviderError {
            kind: ProviderErrorKind::InvalidRequest,
            message: owned(native_provider_tool_loop_stop_message(reason.as_str())),
            redacted_debug: Some(reason.clone()),
        },
        NativeProviderRoundError::ToolExecutionDenied { tool_request_id, tool_name, reason } => {
            let mut debug = String::from_str("tool_execution_denied:");
            append_str(&mut debug, tool_name.as_str());
            append_str(&mut debug, ":");
            append_str(&mut debug, tool_request_id.as_str());
            append_str(&mut debug, ":");
            append_str(&mut debug, reason.as_str());
            ProviderError {
                kind: ProviderErrorKind::InvalidRequest,
                message: String::from_str("Native provider tool execution denied"),
                redacted_debug: Some(debug),
            }
        },
        NativeProviderRoundError::SecondRoundToolCall => ProviderError {
            kind: ProviderErrorKind::InvalidRequest,
            message: String::from_str("Native provider tool continuation failed"),
            redacted_debug: Some(String::from_str("unexpected_tool_call")),
        },
    }
}

/// A per-result overage is reported for the whole batch as
/// `tool_round_result_too_large`; other continuation labels pass through;
/// other errors keep their kind and get the batch reason.
pub fn native_provider_tool_batch_result_budget_failure(error: NativeProviderRoundError) -> (r: (
    NativeProviderRoundError,
    String,
))
    ensures
        match error {
            NativeProviderRoundError::ToolContinuation(label) => if has_prefix(
                label@,
                "tool_result_too_large:"@,
            ) {
                continuation_error(r.0, "tool_round_result_too_large"@) && r.1@
                    == "tool_round_result_too_large"@
            } else {
                continuation_error(r.0, label@) && r.1@ == label@
            },
            other => r.0 == other && r.1@ == "tool_round_result_too_large"@,
        },
{
    match error {
        NativeProviderRoundError::ToolContinuation(label) => {
            if str_starts_with(label.as_str(), "tool_result_too_large:") {
                let reason = String::from_str("tool_round_result_too_large");
                (NativeProviderRoundError::ToolContinuation(reason.clone()), reason)
            } else {
                (NativeProviderRoundError::ToolContinuation(label.clone()), label)
            }
        },
        other => (other, String::from_str("tool_round_result_too_large")),
    }
}

/// `provider_error kind=… message=…`, with ` debug=…` when the redacted
/// debug text is present and non-empty.
pub open spec fn error_reason_text(e: ProviderErrorView) -> Seq<char> {
    let base = "provider_error kind="@ + error_kind_label(e.kind) + " message="@ + e.message;
    match e.redacted_debug {
        Some(d) => if d.len() > 0 {
            base + " debug="@ + d
        } else {
            base
        },
        None => base,
    }
}

pub fn native_provider_error_reason(error: &ProviderError) -> (s: String)
    ensures
        s@ == error_reason_text(error@),
{
    let mut s = String::from_str("provider_error kind=");
    append_str(&mut s, provider_error_kind_label(error.kind));
    append_str(&mut s, " message=");
    append_str(&mut s, error.message.as_str());
    match &error.redacted_debug {
        Some(debug) => {
            if !debug.as_str().is_empty() {
                append_str(&mut s, " debug=");
                append_str(&mut s, debug.as_str());
            }
        },
        None => {},
    }
    s
}

/// The recovery hint for a provider failure of a kind; kinds without a
/// hint show the error's own message.
pub open spec fn failure_hint(e: ProviderErrorView) -> Seq<char> {
    match e.kind {
        ProviderErrorKind::Authentication => "check provider credentials and required YACH_RIG_* env vars"@,
        ProviderErrorKind::UnavailableModel => "provider model is unavailable or unsupported; check YACH_RIG_*_MODEL"@,
        ProviderErrorKind::Timeout => "provider stream timed out; try again or increase YACH_RIG_PROVIDER_TIMEOUT_SECS"@,
        ProviderErrorKind::Network => "provider network error; check connectivity and provider endpoint"@,
        ProviderErrorKind::RateLimited => "provider rate limit reached; wait or switch provider/model"@,
        ProviderErrorKind::InvalidRequest => "provider rejected the request; inspect prompt/model setup"@,
        ProviderErrorKind::ContextLength => "prompt is too large for the selected provider/model"@,
        ProviderErrorKind::Cancelled => "native provider cancelled"@,
        _ => e.message,
    }
}

pub fn native_provider_failure_status(error: &ProviderError) -> (s: String)
    ensures
        s@ == "native provider failed ("@ + error_kind_label(error.kind) + "): "@ + failure_hint(
            error@,
        ),
{
    let hint: &str = match error.kind {
        ProviderErrorKind::Authentication => "check provider credentials and required YACH_RIG_* env vars",
        ProviderErrorKind::UnavailableModel => "provider model is unavailable or unsupported; check YACH_RIG_*_MODEL",
        ProviderErrorKind::Timeout => "provider stream timed out; try again or increase YACH_RIG_PROVIDER_TIMEOUT_SECS",
        ProviderErrorKind::Network => "provider network error; check connectivity and provider endpoint",
        ProviderErrorKind::RateLimited => "provider rate limit reached; wait or switch provider/model",
        ProviderErrorKind::InvalidRequest => "provider rejected the request; inspect prompt/model setup",
        ProviderErrorKind::ContextLength => "prompt is too large for the selected provider/model",
        ProviderErrorKind::Cancelled => "native provider cancelled",
        _ => error.message.as_str(),
    };
    let mut s = String::from_str("native provider failed (");
    append_str(&mut s, provider_error_kind_label(error.kind));
    append_str(&mut s, "): ");
    append_str(&mut s, hint);
    s
}

// ---------------------------------------------------------------------------
// Collecting a provider round
// ---------------------------------------------------------------------------

#[derive(Debug, Clone, Copy, PartialEq, Eq, Structural)]
pub enum ProviderFinishReason {
    Stop,
    ToolCalls,
    Length,
    ContentFilter,
    Other,
}

#[derive(Debug, Clone, PartialEq, Eq)]
pub struct ProviderToolCall {
    pub id: String,
    pub name: String,
    pub arguments: String,
}

/// One event of a provider response stream.
#[derive(Debug, Clone, PartialEq, Eq)]
pub enum ProviderStreamEvent {
    Started { provider_response_id: Option<String> },
    TextDelta { delta: String },
    ToolCallStarted { tool_call_id: String },
    ToolCallDelta { tool_call_id: String, delta: String },
    ToolCallCompleted { tool_call: ProviderToolCall },
    Completed { provider_response_id: Option<String>, finish_reason: Option<ProviderFinishReason> },
    Failed { error: ProviderError },
    Cancelled { reason: Option<String> },
}

/// What a first provider round produced: its text, response id and the
/// tool calls it asked for.
#[derive(Debug, Clone, PartialEq, Eq)]
pub struct NativeProviderFirstRound {
    pub text: String,
    pub provider_response_id: Option<String>,
    pub tool_calls: Vec<ProviderToolCall>,
}

/// What a final provider round produced.
#[derive(Debug, Clone, PartialEq, Eq)]
pub struct NativeProviderRoundResult {
    pub text: String,
    pub provider_response_id: Option<String>,
}

pub open spec fn stops_stream(e: ProviderStreamEvent) -> bool {
    e is Failed || e is Cancelled
}

/// The text deltas of the first `k` events, concatenated.
pub open spec fn text_upto(events: Seq<ProviderStreamEvent>, k: nat) -> Seq<char>
    decreases k,
{
    if k == 0 || k > events.len() {
        seq![]
    } else {
        match events[k - 1] {
            ProviderStreamEvent::TextDelta { delta } => text_upto(events, (k - 1) as nat)
                + delta@,
            _ => text_upto(events, (k - 1) as nat),
        }
    }
}

/// The completed tool calls of the first `k` events.
pub open spec fn tool_calls_upto(events: Seq<ProviderStreamEvent>, k: nat) -> Seq<ProviderToolCall>
    decreases k,
{
    if k == 0 || k > events.len() {
        seq![]
    } else {
        match events[k - 1] {
            ProviderStreamEvent::ToolCallCompleted { tool_call } => tool_calls_upto(
                events,
                (k - 1) as nat,
            ).push(tool_call),
            _ => tool_calls_upto(events, (k - 1) as nat),
        }
    }
}

/// The last `Completed` event among the first `k` events.
pub open spec fn last_completed(events: Seq<ProviderStreamEvent>, k: nat) -> Option<int>
    decreases k,
{
    if k == 0 || k > events.len() {
        None
    } else if events[k - 1] is Completed {
        Some(k - 1)
    } else {
        last_completed(events, (k - 1) as nat)
    }
}

impl ProviderToolCall {
    pub fn duplicate(&self) -> (c: Self)
        ensures
            c == *self,
    {
        ProviderToolCall {
            id: self.id.clone(),
            name: self.name.clone(),
            arguments: self.arguments.clone(),
        }
    }
}

fn clone_opt(o: &Option<String>) -> (r: Option<String>)
    ensures
        r == *o,
{
    match o {
        Some(s) => Some(s.clone()),
        None => None,
    }
}

/// Collects a first-round stream. The first `Failed` event fails the round
/// with its provider error and the first `Cancelled` with its reason (or
/// `native provider cancelled`); a stream without `Completed` fails as
/// ended without completion; a stream that finished for tool calls but
/// completed none fails as `provider_tool_call_incomplete`. Otherwise the
/// round carries the concatenated text, the last completion's response id
/// and the completed tool calls in order.
pub fn collect_native_provider_first_round(events: Vec<ProviderStreamEvent>) -> (r: Result<
    NativeProviderFirstRound,
    NativeProviderRoundError,
>)
    ensures
        (exists|i: int| 0 <= i < events@.len() && stops_stream(#[trigger] events@[i])) ==> ({
            let i = choose|i: int|
                0 <= i < events@.len() && stops_stream(#[trigger] events@[i]) && forall|j: int|
                    0 <= j < i ==> !stops_stream(#[trigger] events@[j]);
            match events@[i] {
                ProviderStreamEvent::Failed { error } => r == Err::<
                    NativeProviderFirstRound,
                    NativeProviderRoundError,
                >(NativeProviderRoundError::Provider(error)),
                ProviderStreamEvent::Cancelled { reason } => r matches Err(
                    NativeProviderRoundError::Cancelled(m),
                ) && m@ == match reason {
                    Some(t) => t@,
                    None => "native provider cancelled"@,
                },
                _ => false,
            }
        }),
        (forall|i: int| 0 <= i < events@.len() ==> !stops_stream(#[trigger] events@[i])) ==> ({
            let n = events@.len();
            match last_completed(events@, n) {
                None => r == Err::<NativeProviderFirstRound, NativeProviderRoundError>(
                    NativeProviderRoundError::StreamEndedWithoutCompletion,
                ),
                Some(c) => match events@[c] {
                    ProviderStreamEvent::Completed { provider_response_id, finish_reason } => if
                    tool_calls_upto(events@, n).len() == 0 && finish_reason == Some(
                        ProviderFinishReason::ToolCalls,
                    ) {
                        r matches Err(e) && continuation_error(e, "provider_tool_call_incomplete"@)
                    } else {
                        r matches Ok(round) && round.text@ == text_upto(events@, n)
                            && round.provider_response_id == provider_response_id
                            && round.tool_calls@ == tool_calls_upto(events@, n)
                    },
                    _ => false,
                },
            }
        }),
{
    let n = events.len();
    let mut text = String::new();
    let mut completed: Option<usize> = None;
    let mut tool_calls: Vec<ProviderToolCall> = Vec::new();
    let mut k: usize = 0;
    while k < n
        invariant
            n == events@.len(),
            k <= n,
            forall|j: int| 0 <= j < k ==> !stops_stream(#[trigger] events@[j]),
            text@ == text_upto(events@, k as nat),
            tool_calls@ == tool_calls_upto(events@, k as nat),
            opt_index(completed) == last_completed(events@, k as nat),
            completed matches Some(c) ==> c < k,
        decreases n - k,
    {
        match &events[k] {
            ProviderStreamEvent::TextDelta { delta } => {
                append_str(&mut text, delta.as_str());
            },
            ProviderStreamEvent::ToolCallCompleted { tool_call } => {
                tool_calls.push(tool_call.duplicate());
            },
            ProviderStreamEvent::Completed { .. } => {
                completed = Some(k);
            },
            ProviderStreamEvent::Failed { error } => {
                let e = NativeProviderRoundError::Provider(
                    ProviderError {
                        kind: error.kind,
                        message: error.message.clone(),
                        redacted_debug: clone_opt(&error.redacted_debug),
                    },
                );
                proof {
                    let i = choose|i: int|
                        0 <= i < events@.len() && stops_stream(#[trigger] events@[i]) && forall|
                            j: int,
                        | 0 <= j < i ==> !stops_stream(#[trigger] events@[j]);
                    assert(stops_stream(events@[k as int]));
                    if i < k {
                        assert(!stops_stream(events@[i]));
                    } else if i > k {
                        assert(!stops_stream(events@[k as int]));
                    }
                }
                return Err(e);
            },
            ProviderStreamEvent::Cancelled { reason } => {
                let message = match reason {
                    Some(reason) => reason.clone(),
                    None => String::from_str("native provider cancelled"),
                };
                proof {
                    let i = choose|i: int|
                        0 <= i < events@.len() && stops_stream(#[trigger] events@[i]) && forall|
                            j: int,
                        | 0 <= j < i ==> !stops_stream(#[trigger] events@[j]);
                    assert(stops_stream(events@[k as int]));
                    if i < k {
                        assert(!stops_stream(events@[i]));
                    } else if i > k {
                        assert(!stops_stream(events@[k as int]));
                    }
                }
                return Err(NativeProviderRoundError::Cancelled(message));
            },
            _ => {},
        }
        k = k + 1;
    }
    let c = match completed {
        Some(c) => c,
        None => {
            return Err(NativeProviderRoundError::StreamEndedWithoutCompletion);
        },
    };
    proof {
        lemma_last_completed(events@, n as nat);
        assert(events@[c as int] is Completed);
    }
    let (provider_response_id, finish_reason) = match &events[c] {
        ProviderStreamEvent::Completed { provider_response_id, finish_reason } => (
            clone_opt(provider_response_id),
            *finish_reason,
        ),
        _ => (None, None),
    };
    if tool_calls.len() == 0 {
        if let Some(ProviderFinishReason::ToolCalls) = finish_reason {
            return Err(continuation("provider_tool_call_incomplete"));
        }
    }
    Ok(NativeProviderFirstRound { text, provider_response_id, tool_calls })
}

/// Collects a final round: as a first round, but asking for more tools
/// fails as `SecondRoundToolCall`.
pub fn collect_native_provider_final_round(events: Vec<ProviderStreamEvent>) -> (r: Result<
    NativeProviderRoundResult,
    NativeProviderRoundError,
>)
    ensures
        (exists|i: int| 0 <= i < events@.len() && stops_stream(#[trigger] events@[i])) ==> ({
            let i = choose|i: int|
                0 <= i < events@.len() && stops_stream(#[trigger] events@[i]) && forall|j: int|
                    0 <= j < i ==> !stops_stream(#[trigger] events@[j]);
            match events@[i] {
                ProviderStreamEvent::Failed { error } => r == Err::<
                    NativeProviderRoundResult,
                    NativeProviderRoundError,
                >(NativeProviderRoundError::Provider(error)),
                ProviderStreamEvent::Cancelled { reason } => r matches Err(
                    NativeProviderRoundError::Cancelled(m),
                ) && m@ == match reason {
                    Some(t) => t@,
                    None => "native provider cancelled"@,
                },
                _ => false,
            }
        }),
        (forall|i: int| 0 <= i < events@.len() ==> !stops_stream(#[trigger] events@[i])) ==> ({
            let n = events@.len();
            match last_completed(events@, n) {
                None => r == Err::<NativeProviderRoundResult, NativeProviderRoundError>(
                    NativeProviderRoundError::StreamEndedWithoutCompletion,
                ),
                Some(c) => match events@[c] {
                    ProviderStreamEvent::Completed { provider_response_id, finish_reason } => if
                    tool_calls_upto(events@, n).len() > 0 {
                        r == Err::<NativeProviderRoundResult, NativeProviderRoundError>(
                            NativeProviderRoundError::SecondRoundToolCall,
                        )
                    } else if finish_reason == Some(ProviderFinishReason::ToolCalls) {
                        r matches Err(e) && continuation_error(e, "provider_tool_call_incomplete"@)
                    } else {
                        r matches Ok(round) && round.text@ == text_upto(events@, n)
                            && round.provider_response_id == provider_response_id
                    },
                    _ => false,
                },
            }
        }),
{
    let ghost evs = events@;
    proof {
        lemma_last_completed(evs, evs.len());
    }
    let first_round = collect_native_provider_first_round(events);
    match first_round {
        Ok(round) => {
            if round.tool_calls.len() > 0 {
                return Err(NativeProviderRoundError::SecondRoundToolCall);
            }
            Ok(NativeProviderRoundResult {
                text: round.text,
                provider_response_id: round.provider_response_id,
            })
        },
        Err(e) => Err(e),
    }
}

proof fn lemma_last_completed(events: Seq<ProviderStreamEvent>, k: nat)
    ensures
        last_completed(events, k) matches Some(c) ==> 0 <= c < k && c < events.len()
            && events[c] is Completed,
    decreases k,
{
    if k > 0 && k <= events.len() {
        lemma_last_completed(events, (k - 1) as nat);
    }
}

} // verus!
