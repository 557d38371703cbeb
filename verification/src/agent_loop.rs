//! The decisions of a provider agent turn. The runner performs each
//! action (a provider request, a compaction, a tool batch) and reports
//! what happened; these functions say what to do next: retry once after
//! compacting an overflowing first request, finish with the answer, run
//! the requested tools, or fail the turn.
use crate::compaction::NativeCompactionBudget;
use crate::provider_loop::{
    native_provider_round_error_label, round_error_label, NativeProviderFirstRound,
    NativeProviderRoundError, ProviderError, ProviderErrorKind, ProviderToolCall,
};
use vstd::prelude::*;

verus! {

/// What the turn has done so far.
#[derive(Debug, Clone, Copy, PartialEq, Eq)]
pub struct NativeAgentLoopState {
    pub is_initial_request: bool,
    pub overflow_compaction_used: bool,
    pub compaction_enabled: bool,
    pub has_project_root: bool,
}

impl NativeAgentLoopState {
    /// A turn before its first request.
    pub fn new(compaction_enabled: bool, has_project_root: bool) -> (s: Self)
        ensures
            s.is_initial_request,
            !s.overflow_compaction_used,
            s.compaction_enabled == compaction_enabled,
            s.has_project_root == has_project_root,
    {
        NativeAgentLoopState {
            is_initial_request: true,
            overflow_compaction_used: false,
            compaction_enabled,
            has_project_root,
        }
    }
}

/// What the runner does next.
#[derive(Debug, Clone, PartialEq, Eq)]
pub enum NativeAgentLoopAction {
    /// Compact the session, then report whether it compacted.
    CompactForOverflow,
    /// Send the initial request again, rebuilt from the compacted log.
    RetryInitialRequest,
    /// End the turn with this answer.
    Finish { text: String, provider_response_id: Option<String> },
    /// Run these tool calls as round `tool_round_index`, then continue.
    ExecuteTools { tool_calls: Vec<ProviderToolCall>, tool_round_index: usize },
    /// End the turn with this error; pending continuation traces are
    /// recorded as failed with `trace_reason`.
    Fail { error: NativeProviderRoundError, trace_reason: String },
}

/// Whether a failure of `kind` compacts for an overflow, and the state
/// after it: only a context overflow of the turn's first request, with
/// compaction enabled and not yet used for an overflow, compacts, and
/// doing so uses it up.
pub open spec fn request_failed_step(s: NativeAgentLoopState, kind: ProviderErrorKind) -> (
    NativeAgentLoopState,
    bool,
) {
    if kind == ProviderErrorKind::ContextLength && s.is_initial_request && s.compaction_enabled
        && !s.overflow_compaction_used {
        (NativeAgentLoopState { overflow_compaction_used: true, ..s }, true)
    } else {
        (s, false)
    }
}

/// A provider request failed: compact for an overflow when
/// `request_failed_step` says so; otherwise end the turn with the
/// provider error.
pub fn native_agent_on_request_failed(state: &mut NativeAgentLoopState, error: ProviderError) -> (a:
    NativeAgentLoopAction)
    ensures
        *final(state) == request_failed_step(*old(state), error.kind).0,
        request_failed_step(*old(state), error.kind).1 ==> a
            == NativeAgentLoopAction::CompactForOverflow,
        !request_failed_step(*old(state), error.kind).1 ==> {
            &&& a is Fail
            &&& a->Fail_error == NativeProviderRoundError::Provider(error)
            &&& a->Fail_trace_reason@ == "provider_request_failed"@
        },
{
    if error.kind == ProviderErrorKind::ContextLength && state.is_initial_request
        && state.compaction_enabled && !state.overflow_compaction_used {
        state.overflow_compaction_used = true;
        NativeAgentLoopAction::CompactForOverflow
    } else {
        NativeAgentLoopAction::Fail {
            error: NativeProviderRoundError::Provider(error),
            trace_reason: String::from_str("provider_request_failed"),
        }
    }
}

/// After an overflow compaction: retry the first request when the session
/// compacted, otherwise end the turn with the overflow error.
pub fn native_agent_after_overflow_compaction(compacted: bool, error: ProviderError) -> (a:
    NativeAgentLoopAction)
    ensures
        compacted ==> a == NativeAgentLoopAction::RetryInitialRequest,
        !compacted ==> {
            &&& a is Fail
            &&& a->Fail_error == NativeProviderRoundError::Provider(error)
            &&& a->Fail_trace_reason@ == "provider_request_failed"@
        },
{
    if compacted {
        NativeAgentLoopAction::RetryInitialRequest
    } else {
        NativeAgentLoopAction::Fail {
            error: NativeProviderRoundError::Provider(error),
            trace_reason: String::from_str("provider_request_failed"),
        }
    }
}

/// A provider round was collected. A failed round ends the turn with its
/// error (traces get its label); a round without tool calls finishes with
/// its answer; tool calls without a project root end the turn; otherwise
/// the tools run as the next round.
pub fn native_agent_on_round(
    state: &NativeAgentLoopState,
    round: Result<NativeProviderFirstRound, NativeProviderRoundError>,
    tool_rounds: usize,
) -> (a: NativeAgentLoopAction)
    requires
        tool_rounds < usize::MAX,
    ensures
        match round {
            Err(e) => a is Fail && a->Fail_error == e && a->Fail_trace_reason@ == round_error_label(e),
            Ok(r) => if r.tool_calls@.len() == 0 {
                a == (NativeAgentLoopAction::Finish {
                    text: r.text,
                    provider_response_id: r.provider_response_id,
                })
            } else if !state.has_project_root {
                a is Fail && a->Fail_error == NativeProviderRoundError::ProjectRootUnavailable
            } else {
                a == (NativeAgentLoopAction::ExecuteTools {
                    tool_calls: r.tool_calls,
                    tool_round_index: (tool_rounds + 1) as usize,
                })
            },
        },
{
    match round {
        Err(error) => {
            let trace_reason = native_provider_round_error_label(&error);
            NativeAgentLoopAction::Fail { error, trace_reason }
        },
        Ok(round) => {
            if round.tool_calls.len() == 0 {
                NativeAgentLoopAction::Finish {
                    text: round.text,
                    provider_response_id: round.provider_response_id,
                }
            } else if !state.has_project_root {
                let error = NativeProviderRoundError::ProjectRootUnavailable;
                let trace_reason = native_provider_round_error_label(&error);
                NativeAgentLoopAction::Fail { error, trace_reason }
            } else {
                NativeAgentLoopAction::ExecuteTools {
                    tool_calls: round.tool_calls,
                    tool_round_index: tool_rounds + 1,
                }
            }
        },
    }
}

/// A continuation request was sent: later failures are no longer those of
/// the turn's first request.
pub fn native_agent_on_continuation_sent(state: &mut NativeAgentLoopState)
    ensures
        *final(state) == continued(*old(state)),
{
    state.is_initial_request = false;
}

/// The thrash guard: when the context is still over the threshold right
/// after a successful compaction, the turn stops with a status telling the
/// user how to go on.
pub fn native_compaction_thrash_guard(budget: &NativeCompactionBudget, refilled_tokens: u64) -> (r:
    Option<(String, NativeProviderRoundError)>)
    ensures
        refilled_tokens > budget.threshold() ==> {
            &&& r is Some
            &&& r.unwrap().0@
                == "context refilled immediately after compaction; narrow the request or start a fresh session"@
            &&& r.unwrap().1 is ToolContinuation
            &&& r.unwrap().1->ToolContinuation_0@ == "context_refilled_after_compaction"@
        },
        refilled_tokens <= budget.threshold() ==> r is None,
{
    if budget.over_threshold(refilled_tokens) {
        Some(
            (
                String::from_str(
                    "context refilled immediately after compaction; narrow the request or start a fresh session",
                ),
                NativeProviderRoundError::ToolContinuation(
                    String::from_str("context_refilled_after_compaction"),
                ),
            ),
        )
    } else {
        None
    }
}

/// The state after a continuation request was sent.
pub open spec fn continued(s: NativeAgentLoopState) -> NativeAgentLoopState {
    NativeAgentLoopState { is_initial_request: false, ..s }
}

/// A turn compacts for an overflow at most once: after a failure that
/// compacted, no later failure compacts again, whether or not a
/// continuation was sent in between.
pub proof fn law_overflow_compaction_at_most_once(
    s: NativeAgentLoopState,
    first: ProviderErrorKind,
    later: ProviderErrorKind,
)
    requires
        request_failed_step(s, first).1,
    ensures
        !request_failed_step(request_failed_step(s, first).0, later).1,
        !request_failed_step(continued(request_failed_step(s, first).0), later).1,
{
}

} // verus!
