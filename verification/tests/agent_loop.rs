use yach_backend::agent_loop::{
    native_agent_after_overflow_compaction, native_agent_on_continuation_sent,
    native_agent_on_request_failed, native_agent_on_round, native_compaction_thrash_guard,
    NativeAgentLoopAction, NativeAgentLoopState,
};
use yach_backend::compaction::{NativeCompactionBudget, NativeCompactionConfig};
use yach_backend::provider_loop::{
    NativeProviderFirstRound, NativeProviderRoundError, ProviderError, ProviderErrorKind,
    ProviderToolCall,
};

fn overflow() -> ProviderError {
    ProviderError {
        kind: ProviderErrorKind::ContextLength,
        message: String::from("prompt is too long"),
        redacted_debug: None,
    }
}

#[test]
fn first_overflow_compacts_once_and_retries() {
    let mut state = NativeAgentLoopState::new(true, true);
    assert_eq!(
        native_agent_on_request_failed(&mut state, overflow()),
        NativeAgentLoopAction::CompactForOverflow
    );
    assert!(state.overflow_compaction_used);
    assert_eq!(
        native_agent_after_overflow_compaction(true, overflow()),
        NativeAgentLoopAction::RetryInitialRequest
    );
    match native_agent_on_request_failed(&mut state, overflow()) {
        NativeAgentLoopAction::Fail { error, trace_reason } => {
            assert_eq!(error, NativeProviderRoundError::Provider(overflow()));
            assert_eq!(trace_reason, "provider_request_failed");
        }
        other => panic!("unexpected action {other:?}"),
    }
}

#[test]
fn overflow_mid_loop_or_without_compaction_fails() {
    let mut state = NativeAgentLoopState::new(true, true);
    native_agent_on_continuation_sent(&mut state);
    assert!(!state.is_initial_request);
    assert!(matches!(
        native_agent_on_request_failed(&mut state, overflow()),
        NativeAgentLoopAction::Fail { .. }
    ));
    let mut disabled = NativeAgentLoopState::new(false, true);
    assert!(matches!(
        native_agent_on_request_failed(&mut disabled, overflow()),
        NativeAgentLoopAction::Fail { .. }
    ));
    assert!(matches!(
        native_agent_after_overflow_compaction(false, overflow()),
        NativeAgentLoopAction::Fail { .. }
    ));
}

#[test]
fn rounds_finish_run_tools_or_fail() {
    let state = NativeAgentLoopState::new(true, true);
    let answer = NativeProviderFirstRound {
        text: String::from("done"),
        provider_response_id: Some(String::from("response-1")),
        tool_calls: Vec::new(),
    };
    assert_eq!(
        native_agent_on_round(&state, Ok(answer), 0),
        NativeAgentLoopAction::Finish {
            text: String::from("done"),
            provider_response_id: Some(String::from("response-1")),
        }
    );
    let call = ProviderToolCall {
        id: String::from("call-1"),
        name: String::from("read_text_file"),
        arguments: String::from("{}"),
    };
    let tools = NativeProviderFirstRound {
        text: String::new(),
        provider_response_id: None,
        tool_calls: vec![call.clone()],
    };
    assert_eq!(
        native_agent_on_round(&state, Ok(tools.clone()), 2),
        NativeAgentLoopAction::ExecuteTools { tool_calls: vec![call], tool_round_index: 3 }
    );
    let rootless = NativeAgentLoopState::new(true, false);
    match native_agent_on_round(&rootless, Ok(tools), 0) {
        NativeAgentLoopAction::Fail { error, trace_reason } => {
            assert_eq!(error, NativeProviderRoundError::ProjectRootUnavailable);
            assert_eq!(trace_reason, "project_root_unavailable");
        }
        other => panic!("unexpected action {other:?}"),
    }
    match native_agent_on_round(&state, Err(NativeProviderRoundError::StreamEndedWithoutCompletion), 0) {
        NativeAgentLoopAction::Fail { trace_reason, .. } => {
            assert_eq!(trace_reason, "stream_ended_without_completion");
        }
        other => panic!("unexpected action {other:?}"),
    }
}

#[test]
fn thrash_guard_stops_refilled_context() {
    let budget = NativeCompactionBudget {
        context_window: 10_000,
        max_output_tokens: 0,
        config: NativeCompactionConfig {
            compactor: String::from("summary"),
            keep_recent_tokens: 200,
            reserve_tokens: 0,
            auto_threshold_percent: 10,
        },
    };
    assert_eq!(native_compaction_thrash_guard(&budget, 1_000), None);
    let (status, error) = native_compaction_thrash_guard(&budget, 1_001)
        .unwrap_or_else(|| panic!("guard expected"));
    assert!(status.contains("refilled immediately after compaction"));
    assert_eq!(
        error,
        NativeProviderRoundError::ToolContinuation(String::from("context_refilled_after_compaction"))
    );
}
