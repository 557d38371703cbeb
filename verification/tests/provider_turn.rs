use yach_backend::prompt_turn::{native_provider_response_chunks, native_provider_turn_end, native_turn_refs};
use yach_backend::proto::PromptOutcome;
use yach_backend::provider_loop::{NativeProviderRoundError, NativeProviderRoundResult};
use yach_backend::session::{NativeRole, NativeSessionEvent, NativeSessionId, NativeTurnOutcome};

#[test]
fn empty_answers_stream_the_no_text_marker() {
    assert_eq!(native_provider_response_chunks("  \n"), vec![String::from("assistant returned no text")]);
    assert_eq!(native_provider_response_chunks("hi").concat(), "hi");
}

#[test]
fn answered_provider_turns_append_the_answer_with_metadata() {
    let session = NativeSessionId(String::from("default"));
    let refs = native_turn_refs(4);
    let end = native_provider_turn_end(
        &session,
        &refs,
        "anthropic",
        "model-a",
        Ok(NativeProviderRoundResult {
            text: String::from("the answer"),
            provider_response_id: Some(String::from("resp-1")),
        }),
        false,
        7,
    );
    assert_eq!(end.events.len(), 3);
    match &end.events[1] {
        NativeSessionEvent::EntryAppended { role, text, provider, parent_entry_id, .. } => {
            assert_eq!(*role, NativeRole::Assistant);
            assert_eq!(text, "the answer");
            let provider = provider.as_ref().expect("metadata");
            assert_eq!(provider.provider, "anthropic");
            assert_eq!(provider.model, "model-a");
            assert_eq!(provider.response_id.as_deref(), Some("resp-1"));
            assert_eq!(parent_entry_id.as_ref().map(|p| p.0.as_str()), Some("entry-4-user"));
        }
        other => panic!("unexpected {other:?}"),
    }
    assert!(matches!(
        end.events[2],
        NativeSessionEvent::TurnFinished { outcome: NativeTurnOutcome::Completed, .. }
    ));
    assert_eq!(end.outcome, Some(PromptOutcome::Completed));
    assert_eq!(end.status, Some("turn_end native provider"));
    assert_eq!(end.failure_status, None);
}

#[test]
fn dropped_clients_cancel_provider_turns_quietly() {
    let refs = native_turn_refs(1);
    let end = native_provider_turn_end(
        &NativeSessionId(String::from("default")),
        &refs,
        "anthropic",
        "model-a",
        Ok(NativeProviderRoundResult { text: String::from("x"), provider_response_id: None }),
        true,
        0,
    );
    assert_eq!(end.events.len(), 2);
    match &end.events[1] {
        NativeSessionEvent::TurnFinished { outcome, reason, .. } => {
            assert_eq!(*outcome, NativeTurnOutcome::Cancelled);
            assert_eq!(reason.as_deref(), Some("ui receiver dropped"));
        }
        other => panic!("unexpected {other:?}"),
    }
    assert_eq!((end.outcome, end.status), (None, None));
}

#[test]
fn round_errors_fail_or_cancel_provider_turns() {
    let refs = native_turn_refs(2);
    let session = NativeSessionId(String::from("default"));
    let cancelled = native_provider_turn_end(
        &session,
        &refs,
        "anthropic",
        "model-a",
        Err(NativeProviderRoundError::Cancelled(String::from("stop"))),
        false,
        0,
    );
    assert_eq!(cancelled.outcome, Some(PromptOutcome::Cancelled));
    assert_eq!(cancelled.status, Some("turn_end native provider cancelled"));
    let failed = native_provider_turn_end(
        &session,
        &refs,
        "anthropic",
        "model-a",
        Err(NativeProviderRoundError::StreamEndedWithoutCompletion),
        false,
        0,
    );
    assert_eq!(failed.outcome, Some(PromptOutcome::Failed));
    assert_eq!(failed.status, Some("turn_end native provider failed"));
    match &failed.events[1] {
        NativeSessionEvent::TurnFinished { outcome, reason, .. } => {
            assert_eq!(*outcome, NativeTurnOutcome::Failed);
            assert!(reason.as_deref().unwrap_or("").starts_with("provider_error kind="));
        }
        other => panic!("unexpected {other:?}"),
    }
    assert!(failed.failure_status.unwrap_or_default().starts_with("native provider failed ("));
}
