use yach_backend::prompt_turn::{native_turn_refs, native_unconfigured_prompt_answer};
use yach_backend::proto::PromptOutcome;
use yach_backend::runner_events::{native_startup_messages, NativeStartupMessage};
use yach_backend::session::{NativeRole, NativeSessionEvent, NativeSessionId, NativeSessionLog, NativeTurnOutcome};
use yach_backend::runner_events::{
    native_runner_event, native_runner_initial_state, native_runner_session_id,
    native_runner_session_switched, native_runner_status_message,
    native_session_file_checked, NativeActiveTurn, NativeClientEvent, NativePromptRoute,
    NativeRunnerAction, NativeRunnerState, NativeRunnerStatus,
};

fn state(route: NativePromptRoute) -> NativeRunnerState {
    NativeRunnerState {
        session_path: String::from("/work/.yach/native-sessions/default.jsonl"),
        turn_index: 3,
        local_edit_index: 3,
        active_turn: NativeActiveTurn::Idle,
        prompt_route: route,
    }
}

fn prompt(text: &str) -> NativeClientEvent {
    NativeClientEvent::PromptSubmitted { prompt: String::from(text) }
}

#[test]
fn prompts_take_the_next_turn_index() {
    let mut s = state(NativePromptRoute::Provider);
    assert_eq!(
        native_runner_event(&mut s, prompt("hello")),
        NativeRunnerAction::StartProviderPrompt { turn_index: 3 }
    );
    assert_eq!((s.turn_index, s.local_edit_index), (4, 4));
    assert_eq!(s.active_turn, NativeActiveTurn::Running);

    assert_eq!(
        native_runner_event(&mut s, prompt("again")),
        NativeRunnerAction::Status(NativeRunnerStatus::PromptInProgress)
    );
    assert_eq!(s.turn_index, 5);

    s.active_turn = NativeActiveTurn::Finished;
    assert_eq!(
        native_runner_event(&mut s, prompt("next")),
        NativeRunnerAction::StartProviderPrompt { turn_index: 5 }
    );
}

#[test]
fn blank_prompts_are_ignored() {
    let mut s = state(NativePromptRoute::Fixture);
    let action = native_runner_event(&mut s, prompt("  \n\t"));
    assert_eq!(action, NativeRunnerAction::Status(NativeRunnerStatus::EmptyPrompt));
    assert_eq!(s.turn_index, 3);
    assert_eq!(
        native_runner_status_message(&NativeRunnerStatus::EmptyPrompt),
        "native dogfood: empty prompt ignored"
    );
}

#[test]
fn prompts_without_a_provider_are_answered_locally() {
    let mut fixture = state(NativePromptRoute::Fixture);
    assert_eq!(
        native_runner_event(&mut fixture, prompt("hi")),
        NativeRunnerAction::AnswerWithFixture { turn_index: 3 }
    );
    let mut setup = state(NativePromptRoute::SetupError);
    assert_eq!(
        native_runner_event(&mut setup, prompt("hi")),
        NativeRunnerAction::AnswerWithSetupError { turn_index: 3 }
    );
    assert_eq!(setup.active_turn, NativeActiveTurn::Idle);
}

#[test]
fn compaction_is_refused_while_prompting_without_provider_or_cut() {
    let mut s = state(NativePromptRoute::Provider);
    s.active_turn = NativeActiveTurn::Running;
    let busy = native_runner_event(&mut s, NativeClientEvent::CompactionRequested { nothing_to_fold: false });
    assert_eq!(busy, NativeRunnerAction::Status(NativeRunnerStatus::CompactionWhilePrompting));
    let mut fixture = state(NativePromptRoute::Fixture);
    assert_eq!(
        native_runner_event(&mut fixture, NativeClientEvent::CompactionRequested { nothing_to_fold: false }),
        NativeRunnerAction::Status(NativeRunnerStatus::CompactionNeedsProvider)
    );
    let mut idle = state(NativePromptRoute::Provider);
    assert_eq!(
        native_runner_event(&mut idle, NativeClientEvent::CompactionRequested { nothing_to_fold: true }),
        NativeRunnerAction::Status(NativeRunnerStatus::NothingToCompact)
    );
    assert_eq!(
        native_runner_event(&mut idle, NativeClientEvent::CompactionRequested { nothing_to_fold: false }),
        NativeRunnerAction::RunCompaction { turn_index: 3 }
    );
    assert_eq!(idle.turn_index, 4);
    assert_eq!(
        native_runner_status_message(&NativeRunnerStatus::NothingToCompact),
        "nothing to compact yet"
    );
}

#[test]
fn local_edits_and_prompts_never_share_an_index() {
    let mut s = state(NativePromptRoute::Fixture);
    let mut issued = Vec::new();
    for event in [
        NativeClientEvent::LocalEditPrepareRequested,
        prompt("one"),
        NativeClientEvent::LocalEditPrepareRequested,
        NativeClientEvent::LocalEditPrepareRequested,
        prompt("two"),
    ] {
        match native_runner_event(&mut s, event) {
            NativeRunnerAction::PrepareLocalEdit { turn_index }
            | NativeRunnerAction::AnswerWithFixture { turn_index } => issued.push(turn_index),
            other => panic!("unexpected {other:?}"),
        }
        assert!(s.local_edit_index >= s.turn_index);
    }
    assert_eq!(issued, vec![3, 4, 5, 6, 7]);
}

#[test]
fn cancelling_drops_the_running_turn() {
    let mut s = state(NativePromptRoute::Provider);
    s.active_turn = NativeActiveTurn::Running;
    assert_eq!(native_runner_event(&mut s, NativeClientEvent::PromptCancelled), NativeRunnerAction::CancelTurn);
    assert_eq!(s.active_turn, NativeActiveTurn::Idle);
    assert_eq!(native_runner_event(&mut s, NativeClientEvent::PromptCancelled), NativeRunnerAction::Nothing);
}

#[test]
fn sessions_switch_only_between_prompts() {
    let mut s = state(NativePromptRoute::Provider);
    s.active_turn = NativeActiveTurn::Finished;
    assert_eq!(
        native_runner_event(&mut s, NativeClientEvent::SessionSelected { session_id: String::from("other") }),
        NativeRunnerAction::Status(NativeRunnerStatus::SwitchDuringPrompt)
    );
    s.active_turn = NativeActiveTurn::Idle;
    let action = native_runner_event(&mut s, NativeClientEvent::SessionSelected { session_id: String::from("other") });
    assert_eq!(
        action,
        NativeRunnerAction::CheckSessionFile {
            path: String::from("/work/.yach/native-sessions/other.jsonl"),
            unknown: NativeRunnerStatus::UnknownSession(String::from("other")),
        }
    );
    assert_eq!(
        native_runner_event(&mut s, NativeClientEvent::SessionSelected { session_id: String::from("../x") }),
        NativeRunnerAction::Status(NativeRunnerStatus::UnknownSession(String::from("../x")))
    );
    assert_eq!(
        native_runner_status_message(&NativeRunnerStatus::UnknownSession(String::from("../x"))),
        "native dogfood: unknown session ../x"
    );

    let unknown = NativeRunnerStatus::UnknownSession(String::from("other"));
    let path = String::from("/work/.yach/native-sessions/other.jsonl");
    assert_eq!(
        native_session_file_checked(&s, path.clone(), true, unknown.clone()),
        NativeRunnerAction::SwitchSession { path: path.clone() }
    );
    assert_eq!(
        native_session_file_checked(&s, path.clone(), false, unknown.clone()),
        NativeRunnerAction::Status(unknown.clone())
    );
    assert_eq!(
        native_session_file_checked(&s, String::from("/elsewhere/other.jsonl"), true, unknown.clone()),
        NativeRunnerAction::Status(unknown)
    );
    native_runner_session_switched(&mut s, path.clone(), 9);
    assert_eq!((s.session_path, s.turn_index, s.local_edit_index), (path, 9, 9));
}

#[test]
fn other_events_get_their_handlers_or_status_lines() {
    let mut s = state(NativePromptRoute::Provider);
    assert_eq!(
        native_runner_event(&mut s, NativeClientEvent::ThinkingLevelSelected { level: String::from("high") }),
        NativeRunnerAction::Status(NativeRunnerStatus::ThinkingLevelNoted(String::from("high")))
    );
    assert_eq!(
        native_runner_status_message(&NativeRunnerStatus::ThinkingLevelNoted(String::from("high"))),
        "native dogfood: thinking level high noted but not used yet"
    );
    assert_eq!(
        native_runner_event(&mut s, NativeClientEvent::ForkRequested),
        NativeRunnerAction::Status(NativeRunnerStatus::ForkUnavailable)
    );
    assert_eq!(
        native_runner_event(&mut s, NativeClientEvent::ToolReviewDecisionSubmitted),
        NativeRunnerAction::Status(NativeRunnerStatus::StaleReviewDecision)
    );
    assert_eq!(
        native_runner_event(&mut s, NativeClientEvent::ModelSelected),
        NativeRunnerAction::SelectModel { prompt_in_progress: false }
    );
    s.active_turn = NativeActiveTurn::Running;
    assert_eq!(
        native_runner_event(&mut s, NativeClientEvent::ToolReviewDecisionSubmitted),
        NativeRunnerAction::ForwardReviewDecision
    );
    assert_eq!(
        native_runner_event(&mut s, NativeClientEvent::ModelSelected),
        NativeRunnerAction::SelectModel { prompt_in_progress: true }
    );
    assert_eq!(native_runner_event(&mut s, NativeClientEvent::Initialize), NativeRunnerAction::SendInitialState);
    assert_eq!(
        native_runner_event(&mut s, NativeClientEvent::FirstRenderCompleted),
        NativeRunnerAction::ScheduleExtensionScan
    );
}

#[test]
fn runners_start_idle_in_their_session() {
    let s = native_runner_initial_state(String::from("/s/abc.jsonl"), false, true, 7);
    assert_eq!(s.prompt_route, NativePromptRoute::SetupError);
    assert_eq!((s.turn_index, s.local_edit_index), (7, 7));
    assert_eq!(s.active_turn, NativeActiveTurn::Idle);
    assert_eq!(
        native_runner_initial_state(String::from("/s/abc.jsonl"), true, true, 0).prompt_route,
        NativePromptRoute::Provider
    );
    assert_eq!(
        native_runner_initial_state(String::from("/s/abc.jsonl"), false, false, 0).prompt_route,
        NativePromptRoute::Fixture
    );
    assert_eq!(native_runner_session_id("/s/abc.jsonl"), "abc");
    assert_eq!(native_runner_session_id("/s/notes.txt"), "default");
}

#[test]
fn native_runner_unconfigured_provider_prompt_fails_with_setup_error() {
    let setup_error =
        "native provider setup failed: missing required env var YACH_RIG_ANTHROPIC_API_KEY";
    let session_path = "/tmp/unconfigured-provider-prompt/session.jsonl";
    let log = NativeSessionLog::default();
    let startup = native_startup_messages("default", session_path, None, Some(setup_error), &log, &Vec::new());
    assert!(matches!(startup[0], NativeStartupMessage::Ready { .. }));
    match &startup[1] {
        NativeStartupMessage::StateUpdated { model, .. } => assert_eq!(model.id, "provider-unconfigured"),
        other => panic!("unexpected {other:?}"),
    }
    match &startup[2] {
        NativeStartupMessage::Status(message) => {
            assert!(message.contains(setup_error) && message.contains("relaunch"));
        }
        other => panic!("unexpected {other:?}"),
    }

    let mut s = native_runner_initial_state(String::from(session_path), false, true, 0);
    let action = native_runner_event(&mut s, prompt("hello without provider config"));
    assert_eq!(action, NativeRunnerAction::AnswerWithSetupError { turn_index: 0 });

    let session = NativeSessionId(String::from("default"));
    let answer = native_unconfigured_prompt_answer(
        &session,
        &native_turn_refs(0),
        "hello without provider config",
        setup_error,
        1,
    );
    assert!(answer.deltas.is_empty(), "unconfigured provider must not stream fixture text");
    assert_eq!(answer.outcome, PromptOutcome::Failed);
    assert_eq!(
        answer.message,
        format!("{setup_error}; set the provider environment and relaunch yach tui")
    );
    match &answer.events[0] {
        NativeSessionEvent::EntryAppended { role, text, .. } => {
            assert_eq!(*role, NativeRole::User);
            assert_eq!(text, "hello without provider config");
        }
        other => panic!("unexpected {other:?}"),
    }
    match answer.events.last() {
        Some(NativeSessionEvent::TurnFinished { outcome, reason, .. }) => {
            assert_eq!(*outcome, NativeTurnOutcome::Failed);
            assert_eq!(reason.clone(), Some(format!("provider_unconfigured {setup_error}")));
        }
        other => panic!("unexpected {other:?}"),
    }
}
