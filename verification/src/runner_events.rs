//! The runner's decisions on client events: which handler an event goes
//! to, which requests are refused and with which status line, and the turn
//! indices that prompts, compactions and local edits are given. The runner
//! loop observes whether its provider turn is still running, performs the
//! action, and reports back what it found on disk.
use crate::session_files::{
    native_session_id_from_log_path, native_session_path_for_id_in_dir,
    native_session_path_is_selectable, path_parent,
    same_parent, session_id_of_path, std_path_join, std_path_parent, valid_session_id,
};
use crate::config::{
    active_model, available_models, choice_views, model_view, native_active_model,
    native_available_models, native_status_message, NativeProviderDogfoodConfig,
};
use crate::proto::{Capability, ModelInfo};
use crate::session::NativeSessionLog;
use crate::session_view::{entry_roles, native_session_message_count};
use crate::text::{append_str, opt_str_view, owned, trim, trimmed};
use vstd::prelude::*;

verus! {

/// The provider turn of the runner, as observed when an event arrives.
#[derive(Debug, Clone, Copy, PartialEq, Eq, Structural)]
pub enum NativeActiveTurn {
    Idle,
    Running,
    Finished,
}

/// Who answers prompts: the configured provider, the provider's setup
/// error, or the built-in fixture.
#[derive(Debug, Clone, Copy, PartialEq, Eq, Structural)]
pub enum NativePromptRoute {
    Provider,
    SetupError,
    Fixture,
}

/// What the runner loop keeps between client events.
#[derive(Debug, Clone, PartialEq, Eq)]
pub struct NativeRunnerState {
    pub session_path: String,
    pub turn_index: u64,
    pub local_edit_index: u64,
    pub active_turn: NativeActiveTurn,
    pub prompt_route: NativePromptRoute,
}

/// A client event, with what the runner knows of it.
#[derive(Debug, Clone, PartialEq, Eq)]
pub enum NativeClientEvent {
    Initialize,
    FirstRenderCompleted,
    AvailableModelsRequested,
    PromptCancelled,
    RecentSessionsRequested,
    SessionMessagesRequested,
    SessionStatsRequested,
    /// `nothing_to_fold`: the log has no cut a compaction could fold.
    CompactionRequested { nothing_to_fold: bool },
    PromptSubmitted { prompt: String },
    ModelSelected,
    SessionSelected { session_id: String },
    SessionPathSelected { session_path: String },
    ForkRequested,
    ThinkingLevelSelected { level: String },
    LocalEditPrepareRequested,
    LocalEditDecisionSubmitted,
    ToolReviewDecisionSubmitted,
    ExtensionLifecycleRequested,
    ExtensionDiagnosticSnapshotRequested,
    DialogResolved,
}

/// A status line the runner answers with.
#[derive(Debug, Clone, PartialEq, Eq)]
pub enum NativeRunnerStatus {
    CompactionWhilePrompting,
    CompactionNeedsProvider,
    NothingToCompact,
    EmptyPrompt,
    PromptInProgress,
    SwitchDuringPrompt,
    UnknownSession(String),
    UnknownSessionPath(String),
    ForkUnavailable,
    ThinkingLevelNoted(String),
    StaleReviewDecision,
}

pub open spec fn status_text(s: NativeRunnerStatus) -> Seq<char> {
    match s {
        NativeRunnerStatus::CompactionWhilePrompting => "compaction unavailable while a prompt is in progress"@,
        NativeRunnerStatus::CompactionNeedsProvider => "compaction requires a configured provider"@,
        NativeRunnerStatus::NothingToCompact => "nothing to compact yet"@,
        NativeRunnerStatus::EmptyPrompt => "native dogfood: empty prompt ignored"@,
        NativeRunnerStatus::PromptInProgress => "native provider: prompt already in progress"@,
        NativeRunnerStatus::SwitchDuringPrompt => "native dogfood: cannot switch sessions during an active prompt"@,
        NativeRunnerStatus::UnknownSession(id) => "native dogfood: unknown session "@ + id@,
        NativeRunnerStatus::UnknownSessionPath(p) => "native dogfood: unknown session path "@ + p@,
        NativeRunnerStatus::ForkUnavailable => "native dogfood: fork/session tree UI is not available yet"@,
        NativeRunnerStatus::ThinkingLevelNoted(level) => "native dogfood: thinking level "@ + level@
            + " noted but not used yet"@,
        NativeRunnerStatus::StaleReviewDecision => "native provider: stale tool review decision"@,
    }
}

/// The text of a status line.
pub fn native_runner_status_message(status: &NativeRunnerStatus) -> (m: String)
    ensures
        m@ == status_text(*status),
{
    match status {
        NativeRunnerStatus::CompactionWhilePrompting => String::from_str(
            "compaction unavailable while a prompt is in progress",
        ),
        NativeRunnerStatus::CompactionNeedsProvider => String::from_str(
            "compaction requires a configured provider",
        ),
        NativeRunnerStatus::NothingToCompact => String::from_str("nothing to compact yet"),
        NativeRunnerStatus::EmptyPrompt => String::from_str("native dogfood: empty prompt ignored"),
        NativeRunnerStatus::PromptInProgress => String::from_str(
            "native provider: prompt already in progress",
        ),
        NativeRunnerStatus::SwitchDuringPrompt => String::from_str(
            "native dogfood: cannot switch sessions during an active prompt",
        ),
        NativeRunnerStatus::UnknownSession(id) => {
            let mut m = String::from_str("native dogfood: unknown session ");
            append_str(&mut m, id.as_str());
            m
        },
        NativeRunnerStatus::UnknownSessionPath(path) => {
            let mut m = String::from_str("native dogfood: unknown session path ");
            append_str(&mut m, path.as_str());
            m
        },
        NativeRunnerStatus::ForkUnavailable => String::from_str(
            "native dogfood: fork/session tree UI is not available yet",
        ),
        NativeRunnerStatus::ThinkingLevelNoted(level) => {
            let mut m = String::from_str("native dogfood: thinking level ");
            append_str(&mut m, level.as_str());
            append_str(&mut m, " noted but not used yet");
            m
        },
        NativeRunnerStatus::StaleReviewDecision => String::from_str(
            "native provider: stale tool review decision",
        ),
    }
}

/// What the runner loop does for an event.
#[derive(Debug, Clone, PartialEq, Eq)]
pub enum NativeRunnerAction {
    Nothing,
    SendInitialState,
    ScheduleExtensionScan,
    SendModels,
    CancelTurn,
    SendRecentSessions,
    SendSessionMessages,
    SendSessionStats,
    Status(NativeRunnerStatus),
    RunCompaction { turn_index: u64 },
    StartProviderPrompt { turn_index: u64 },
    AnswerWithSetupError { turn_index: u64 },
    AnswerWithFixture { turn_index: u64 },
    /// Applies a model selection; `prompt_in_progress` refuses it.
    SelectModel { prompt_in_progress: bool },
    /// Checks that `path` exists before switching to it; `unknown`
    /// answers otherwise.
    CheckSessionFile { path: String, unknown: NativeRunnerStatus },
    SwitchSession { path: String },
    PrepareLocalEdit { turn_index: u64 },
    DecideLocalEdit,
    ForwardReviewDecision,
    HandleExtensionLifecycle,
    SendExtensionDiagnostics,
}

pub open spec fn inc(n: u64) -> u64 {
    if n == u64::MAX {
        n
    } else {
        (n + 1) as u64
    }
}

pub open spec fn max(a: u64, b: u64) -> u64 {
    if a >= b {
        a
    } else {
        b
    }
}

/// A prompt with nothing but whitespace is ignored.
pub open spec fn blank_prompt(prompt: Seq<char>) -> bool {
    trim(prompt).len() == 0
}

/// A compaction is run: no prompt is running, a provider is configured,
/// and the log has something to fold.
pub open spec fn compaction_runs(s: NativeRunnerState, nothing_to_fold: bool) -> bool {
    s.active_turn != NativeActiveTurn::Running && s.prompt_route == NativePromptRoute::Provider
        && !nothing_to_fold
}

/// The turn index an event is given, if it starts a turn or a local edit.
pub open spec fn issued_index(s: NativeRunnerState, e: NativeClientEvent) -> Option<u64> {
    match e {
        NativeClientEvent::CompactionRequested { nothing_to_fold } => if compaction_runs(
            s,
            nothing_to_fold,
        ) {
            Some(s.turn_index)
        } else {
            None
        },
        NativeClientEvent::PromptSubmitted { prompt } => if blank_prompt(prompt@) || (
        s.prompt_route == NativePromptRoute::Provider && s.active_turn
            == NativeActiveTurn::Running) {
            None
        } else {
            Some(s.turn_index)
        },
        NativeClientEvent::LocalEditPrepareRequested => Some(max(s.local_edit_index, s.turn_index)),
        _ => None,
    }
}

/// The turn and local-edit indices after an event. A prompt takes the
/// next turn index even when it is refused as already in progress.
pub open spec fn indices_after(s: NativeRunnerState, e: NativeClientEvent) -> (u64, u64) {
    let (t, l) = (s.turn_index, s.local_edit_index);
    match e {
        NativeClientEvent::CompactionRequested { nothing_to_fold } => if compaction_runs(
            s,
            nothing_to_fold,
        ) {
            (inc(t), max(l, inc(t)))
        } else {
            (t, l)
        },
        NativeClientEvent::PromptSubmitted { prompt } => if blank_prompt(prompt@) {
            (t, l)
        } else {
            (inc(t), max(l, inc(t)))
        },
        NativeClientEvent::LocalEditPrepareRequested => {
            let edit = max(l, t);
            (max(t, inc(edit)), inc(edit))
        },
        _ => (t, l),
    }
}

/// The provider turn after an event: a cancel drops it, and a prompt for
/// the provider starts one unless one is running.
pub open spec fn active_after(s: NativeRunnerState, e: NativeClientEvent) -> NativeActiveTurn {
    match e {
        NativeClientEvent::PromptCancelled => NativeActiveTurn::Idle,
        NativeClientEvent::PromptSubmitted { prompt } => if !blank_prompt(prompt@)
            && s.prompt_route == NativePromptRoute::Provider {
            NativeActiveTurn::Running
        } else {
            s.active_turn
        },
        _ => s.active_turn,
    }
}

pub open spec fn state_after(s: NativeRunnerState, e: NativeClientEvent) -> NativeRunnerState {
    NativeRunnerState {
        session_path: s.session_path,
        turn_index: indices_after(s, e).0,
        local_edit_index: indices_after(s, e).1,
        active_turn: active_after(s, e),
        prompt_route: s.prompt_route,
    }
}

/// The action an event asks for, but for session selection, whose
/// candidate file depends on the path the platform joins.
pub open spec fn action_for(s: NativeRunnerState, e: NativeClientEvent, a: NativeRunnerAction) -> bool {
    match e {
        NativeClientEvent::Initialize => a == NativeRunnerAction::SendInitialState,
        NativeClientEvent::FirstRenderCompleted => a == NativeRunnerAction::ScheduleExtensionScan,
        NativeClientEvent::AvailableModelsRequested => a == NativeRunnerAction::SendModels,
        NativeClientEvent::PromptCancelled => a == if s.active_turn == NativeActiveTurn::Running {
            NativeRunnerAction::CancelTurn
        } else {
            NativeRunnerAction::Nothing
        },
        NativeClientEvent::RecentSessionsRequested => a == NativeRunnerAction::SendRecentSessions,
        NativeClientEvent::SessionMessagesRequested => a == NativeRunnerAction::SendSessionMessages,
        NativeClientEvent::SessionStatsRequested => a == NativeRunnerAction::SendSessionStats,
        NativeClientEvent::CompactionRequested { nothing_to_fold } => a == if s.active_turn
            == NativeActiveTurn::Running {
            NativeRunnerAction::Status(NativeRunnerStatus::CompactionWhilePrompting)
        } else if s.prompt_route != NativePromptRoute::Provider {
            NativeRunnerAction::Status(NativeRunnerStatus::CompactionNeedsProvider)
        } else if nothing_to_fold {
            NativeRunnerAction::Status(NativeRunnerStatus::NothingToCompact)
        } else {
            NativeRunnerAction::RunCompaction { turn_index: s.turn_index }
        },
        NativeClientEvent::PromptSubmitted { prompt } => a == if blank_prompt(prompt@) {
            NativeRunnerAction::Status(NativeRunnerStatus::EmptyPrompt)
        } else {
            match s.prompt_route {
                NativePromptRoute::Provider => if s.active_turn == NativeActiveTurn::Running {
                    NativeRunnerAction::Status(NativeRunnerStatus::PromptInProgress)
                } else {
                    NativeRunnerAction::StartProviderPrompt { turn_index: s.turn_index }
                },
                NativePromptRoute::SetupError => NativeRunnerAction::AnswerWithSetupError {
                    turn_index: s.turn_index,
                },
                NativePromptRoute::Fixture => NativeRunnerAction::AnswerWithFixture {
                    turn_index: s.turn_index,
                },
            }
        },
        NativeClientEvent::ModelSelected => a == NativeRunnerAction::SelectModel {
            prompt_in_progress: s.active_turn == NativeActiveTurn::Running,
        },
        NativeClientEvent::SessionSelected { session_id } => if s.active_turn
            != NativeActiveTurn::Idle {
            a == NativeRunnerAction::Status(NativeRunnerStatus::SwitchDuringPrompt)
        } else {
            let unknown = NativeRunnerStatus::UnknownSession(session_id);
            match std_path_parent(s.session_path@) {
                Some(dir) => if valid_session_id(session_id@) {
                    &&& a is CheckSessionFile
                    &&& a->CheckSessionFile_path@ == std_path_join(dir, session_id@ + ".jsonl"@)
                    &&& a->CheckSessionFile_unknown == unknown
                } else {
                    a == NativeRunnerAction::Status(unknown)
                },
                None => a == NativeRunnerAction::Status(unknown),
            }
        },
        NativeClientEvent::SessionPathSelected { session_path } => if s.active_turn
            != NativeActiveTurn::Idle {
            a == NativeRunnerAction::Status(NativeRunnerStatus::SwitchDuringPrompt)
        } else {
            a == NativeRunnerAction::CheckSessionFile {
                path: session_path,
                unknown: NativeRunnerStatus::UnknownSessionPath(session_path),
            }
        },
        NativeClientEvent::ForkRequested => a == NativeRunnerAction::Status(
            NativeRunnerStatus::ForkUnavailable,
        ),
        NativeClientEvent::ThinkingLevelSelected { level } => a == NativeRunnerAction::Status(
            NativeRunnerStatus::ThinkingLevelNoted(level),
        ),
        NativeClientEvent::LocalEditPrepareRequested => a == NativeRunnerAction::PrepareLocalEdit {
            turn_index: max(s.local_edit_index, s.turn_index),
        },
        NativeClientEvent::LocalEditDecisionSubmitted => a == NativeRunnerAction::DecideLocalEdit,
        NativeClientEvent::ToolReviewDecisionSubmitted => a == if s.active_turn
            == NativeActiveTurn::Idle {
            NativeRunnerAction::Status(NativeRunnerStatus::StaleReviewDecision)
        } else {
            NativeRunnerAction::ForwardReviewDecision
        },
        NativeClientEvent::ExtensionLifecycleRequested => a
            == NativeRunnerAction::HandleExtensionLifecycle,
        NativeClientEvent::ExtensionDiagnosticSnapshotRequested => a
            == NativeRunnerAction::SendExtensionDiagnostics,
        NativeClientEvent::DialogResolved => a == NativeRunnerAction::Nothing,
    }
}

fn inc_u64(n: u64) -> (r: u64)
    ensures
        r == inc(n),
{
    if n == u64::MAX {
        n
    } else {
        n + 1
    }
}

fn max_u64(a: u64, b: u64) -> (r: u64)
    ensures
        r == max(a, b),
{
    if a >= b {
        a
    } else {
        b
    }
}

/// Who answers prompts: the configured provider, else the provider's
/// setup error, else the built-in fixture.
pub open spec fn prompt_route_of(provider_configured: bool, setup_error: bool) -> NativePromptRoute {
    if provider_configured {
        NativePromptRoute::Provider
    } else if setup_error {
        NativePromptRoute::SetupError
    } else {
        NativePromptRoute::Fixture
    }
}

/// The state a runner starts in: the session file it was given, turn
/// indices that continue after that session's log, and no provider turn.
pub fn native_runner_initial_state(
    session_path: String,
    provider_configured: bool,
    setup_error: bool,
    next_turn_index: u64,
) -> (s: NativeRunnerState)
    ensures
        s.session_path == session_path,
        s.turn_index == next_turn_index,
        s.local_edit_index == next_turn_index,
        s.active_turn == NativeActiveTurn::Idle,
        s.prompt_route == prompt_route_of(provider_configured, setup_error),
{
    let prompt_route = if provider_configured {
        NativePromptRoute::Provider
    } else if setup_error {
        NativePromptRoute::SetupError
    } else {
        NativePromptRoute::Fixture
    };
    NativeRunnerState {
        session_path,
        turn_index: next_turn_index,
        local_edit_index: next_turn_index,
        active_turn: NativeActiveTurn::Idle,
        prompt_route,
    }
}

/// The session a runner is in: the id its file stands for, or `default`.
pub fn native_runner_session_id(session_path: &str) -> (id: String)
    ensures
        id@ == match session_id_of_path(session_path@) {
            Some(i) => i,
            None => "default"@,
        },
{
    match native_session_id_from_log_path(session_path) {
        Some(id) => id,
        None => String::from_str("default"),
    }
}

/// Decides what an event does and updates the runner state.
pub fn native_runner_event(state: &mut NativeRunnerState, event: NativeClientEvent) -> (a:
    NativeRunnerAction)
    ensures
        *final(state) == state_after(*old(state), event),
        action_for(*old(state), event, a),
{
    let ghost s0 = *state;
    match event {
        NativeClientEvent::Initialize => NativeRunnerAction::SendInitialState,
        NativeClientEvent::FirstRenderCompleted => NativeRunnerAction::ScheduleExtensionScan,
        NativeClientEvent::AvailableModelsRequested => NativeRunnerAction::SendModels,
        NativeClientEvent::PromptCancelled => {
            let running = state.active_turn == NativeActiveTurn::Running;
            state.active_turn = NativeActiveTurn::Idle;
            if running {
                NativeRunnerAction::CancelTurn
            } else {
                NativeRunnerAction::Nothing
            }
        },
        NativeClientEvent::RecentSessionsRequested => NativeRunnerAction::SendRecentSessions,
        NativeClientEvent::SessionMessagesRequested => NativeRunnerAction::SendSessionMessages,
        NativeClientEvent::SessionStatsRequested => NativeRunnerAction::SendSessionStats,
        NativeClientEvent::CompactionRequested { nothing_to_fold } => {
            if state.active_turn == NativeActiveTurn::Running {
                return NativeRunnerAction::Status(NativeRunnerStatus::CompactionWhilePrompting);
            }
            if state.prompt_route != NativePromptRoute::Provider {
                return NativeRunnerAction::Status(NativeRunnerStatus::CompactionNeedsProvider);
            }
            if nothing_to_fold {
                return NativeRunnerAction::Status(NativeRunnerStatus::NothingToCompact);
            }
            let turn_index = state.turn_index;
            state.turn_index = inc_u64(state.turn_index);
            state.local_edit_index = max_u64(state.local_edit_index, state.turn_index);
            NativeRunnerAction::RunCompaction { turn_index }
        },
        NativeClientEvent::PromptSubmitted { prompt } => {
            if trimmed(prompt.as_str()).as_str().is_empty() {
                return NativeRunnerAction::Status(NativeRunnerStatus::EmptyPrompt);
            }
            let turn_index = state.turn_index;
            state.turn_index = inc_u64(state.turn_index);
            state.local_edit_index = max_u64(state.local_edit_index, state.turn_index);
            match state.prompt_route {
                NativePromptRoute::Provider => {
                    if state.active_turn == NativeActiveTurn::Running {
                        NativeRunnerAction::Status(NativeRunnerStatus::PromptInProgress)
                    } else {
                        state.active_turn = NativeActiveTurn::Running;
                        NativeRunnerAction::StartProviderPrompt { turn_index }
                    }
                },
                NativePromptRoute::SetupError => NativeRunnerAction::AnswerWithSetupError {
                    turn_index,
                },
                NativePromptRoute::Fixture => NativeRunnerAction::AnswerWithFixture { turn_index },
            }
        },
        NativeClientEvent::ModelSelected => NativeRunnerAction::SelectModel {
            prompt_in_progress: state.active_turn == NativeActiveTurn::Running,
        },
        NativeClientEvent::SessionSelected { session_id } => {
            if state.active_turn != NativeActiveTurn::Idle {
                return NativeRunnerAction::Status(NativeRunnerStatus::SwitchDuringPrompt);
            }
            let dir = path_parent(state.session_path.as_str());
            let candidate = match &dir {
                Some(d) => native_session_path_for_id_in_dir(Some(d.as_str()), session_id.as_str()),
                None => native_session_path_for_id_in_dir(None, session_id.as_str()),
            };
            match candidate {
                Some(path) => NativeRunnerAction::CheckSessionFile {
                    path,
                    unknown: NativeRunnerStatus::UnknownSession(session_id),
                },
                None => NativeRunnerAction::Status(NativeRunnerStatus::UnknownSession(session_id)),
            }
        },
        NativeClientEvent::SessionPathSelected { session_path } => {
            if state.active_turn != NativeActiveTurn::Idle {
                return NativeRunnerAction::Status(NativeRunnerStatus::SwitchDuringPrompt);
            }
            let unknown = NativeRunnerStatus::UnknownSessionPath(session_path.clone());
            NativeRunnerAction::CheckSessionFile { path: session_path, unknown }
        },
        NativeClientEvent::ForkRequested => NativeRunnerAction::Status(
            NativeRunnerStatus::ForkUnavailable,
        ),
        NativeClientEvent::ThinkingLevelSelected { level } => NativeRunnerAction::Status(
            NativeRunnerStatus::ThinkingLevelNoted(level),
        ),
        NativeClientEvent::LocalEditPrepareRequested => {
            let edit_turn_index = max_u64(state.local_edit_index, state.turn_index);
            state.local_edit_index = inc_u64(edit_turn_index);
            state.turn_index = max_u64(state.turn_index, state.local_edit_index);
            NativeRunnerAction::PrepareLocalEdit { turn_index: edit_turn_index }
        },
        NativeClientEvent::LocalEditDecisionSubmitted => NativeRunnerAction::DecideLocalEdit,
        NativeClientEvent::ToolReviewDecisionSubmitted => {
            if state.active_turn == NativeActiveTurn::Idle {
                NativeRunnerAction::Status(NativeRunnerStatus::StaleReviewDecision)
            } else {
                NativeRunnerAction::ForwardReviewDecision
            }
        },
        NativeClientEvent::ExtensionLifecycleRequested => NativeRunnerAction::HandleExtensionLifecycle,
        NativeClientEvent::ExtensionDiagnosticSnapshotRequested => NativeRunnerAction::SendExtensionDiagnostics,
        NativeClientEvent::DialogResolved => NativeRunnerAction::Nothing,
    }
}

/// After `CheckSessionFile`: the runner switches to a file that names a
/// session, exists and lies beside the current one; otherwise it answers
/// with the unknown-session line.
pub fn native_session_file_checked(
    state: &NativeRunnerState,
    path: String,
    exists: bool,
    unknown: NativeRunnerStatus,
) -> (a: NativeRunnerAction)
    ensures
        (session_id_of_path(path@) is Some && exists && same_parent(path@, state.session_path@))
            ==> a == (NativeRunnerAction::SwitchSession { path }),
        !(session_id_of_path(path@) is Some && exists && same_parent(path@, state.session_path@))
            ==> a == NativeRunnerAction::Status(unknown),
{
    if native_session_path_is_selectable(path.as_str(), state.session_path.as_str(), exists) {
        NativeRunnerAction::SwitchSession { path }
    } else {
        NativeRunnerAction::Status(unknown)
    }
}

/// A switched-to session is now the runner's: its path, and turn indices
/// that continue after its log.
pub fn native_runner_session_switched(
    state: &mut NativeRunnerState,
    path: String,
    next_turn_index: u64,
)
    ensures
        final(state).session_path == path,
        final(state).turn_index == next_turn_index,
        final(state).local_edit_index == next_turn_index,
        final(state).active_turn == old(state).active_turn,
        final(state).prompt_route == old(state).prompt_route,
{
    state.session_path = path;
    state.turn_index = next_turn_index;
    state.local_edit_index = next_turn_index;
}

/// The local-edit index never lags the turn index.
pub open spec fn indices_ordered(s: NativeRunnerState) -> bool {
    s.local_edit_index >= s.turn_index
}

/// Whatever index `e1` hands out is below whatever index `e2` hands out
/// next.
pub open spec fn issued_in_order(s: NativeRunnerState, e1: NativeClientEvent, e2: NativeClientEvent) -> bool {
    match (issued_index(s, e1), issued_index(state_after(s, e1), e2)) {
        (Some(i1), Some(i2)) => i1 < i2,
        _ => true,
    }
}

/// Every turn and local edit the runner starts gets an index it has not
/// given before: an index handed out by one event is below every index a
/// later event hands out, as long as the indices stay below `u64::MAX`.
/// The order of the two indices is kept by every event.
pub proof fn law_turn_indices_are_fresh(s: NativeRunnerState, e1: NativeClientEvent, e2: NativeClientEvent)
    requires
        indices_ordered(s),
        s.local_edit_index < u64::MAX - 1,
    ensures
        indices_ordered(state_after(s, e1)),
        state_after(s, e1).turn_index >= s.turn_index,
        issued_in_order(s, e1, e2),
{
}

// ---------------------------------------------------------------------------
// Startup
// ---------------------------------------------------------------------------

/// What the runner tells its client when it starts or is initialized.
#[derive(Debug, Clone, PartialEq, Eq)]
pub enum NativeStartupMessage {
    /// The backend is ready, with its name and capabilities.
    Ready { backend: String, capabilities: Vec<Capability> },
    /// The backend's state: the active model, the session and its file,
    /// the thinking level, and the session's message counts.
    StateUpdated {
        model: ModelInfo,
        session_id: String,
        session_file: String,
        thinking_level: String,
        is_streaming: bool,
        is_compacting: bool,
        message_count: Option<u64>,
        pending_message_count: Option<u64>,
    },
    /// A status line.
    Status(String),
    /// The models the client may select.
    Models(Vec<ModelInfo>),
}

/// The capabilities the native runner announces, in order.
pub open spec fn native_capabilities() -> Seq<Capability> {
    seq![
        Capability::PromptStreaming,
        Capability::PromptCancellation,
        Capability::LocalEdit,
        Capability::ExtensionLifecycle,
        Capability::FirstRenderEvents,
        Capability::ToolOutputStreaming,
    ]
}

/// The announcements of a starting runner, in order: ready with its
/// capabilities; its state (the active model, the session, `low`
/// thinking, not streaming or compacting, the log's entry count and no
/// pending messages); the provider status line; the selectable models.
pub fn native_startup_messages(
    session_id: &str,
    session_path: &str,
    provider: Option<&NativeProviderDogfoodConfig>,
    provider_setup_error: Option<&str>,
    log: &NativeSessionLog,
    anthropic_choices: &Vec<(String, String)>,
) -> (msgs: Vec<NativeStartupMessage>)
    ensures
        ({
            let p = match provider {
                Some(p) => Some(*p),
                None => None,
            };
            let e = opt_str_view(provider_setup_error);
            &&& msgs@.len() == 4
            &&& msgs@[0] is Ready
            &&& msgs@[0]->Ready_backend@ == "yach-native-dogfood"@
            &&& msgs@[0]->Ready_capabilities@ == native_capabilities()
            &&& msgs@[1] is StateUpdated
            &&& model_view(msgs@[1]->StateUpdated_model) == active_model(p, e)
            &&& msgs@[1]->StateUpdated_session_id@ == session_id@
            &&& msgs@[1]->StateUpdated_session_file@ == session_path@
            &&& msgs@[1]->StateUpdated_thinking_level@ == "low"@
            &&& !msgs@[1]->StateUpdated_is_streaming
            &&& !msgs@[1]->StateUpdated_is_compacting
            &&& msgs@[1]->StateUpdated_message_count == Some(
                entry_roles(log.events@, log.events@.len() as int).len() as u64,
            )
            &&& msgs@[1]->StateUpdated_pending_message_count == Some(0u64)
            &&& msgs@[2] is Status
            &&& msgs@[2]->Status_0@ == crate::config::status_text(p, e)
            &&& msgs@[3] is Models
            &&& msgs@[3]->Models_0@.map_values(|m: ModelInfo| model_view(m)) == available_models(
                p,
                e,
                choice_views(anthropic_choices@),
            )
        }),
{
    let mut capabilities: Vec<Capability> = Vec::new();
    capabilities.push(Capability::PromptStreaming);
    capabilities.push(Capability::PromptCancellation);
    capabilities.push(Capability::LocalEdit);
    capabilities.push(Capability::ExtensionLifecycle);
    capabilities.push(Capability::FirstRenderEvents);
    capabilities.push(Capability::ToolOutputStreaming);
    assert(capabilities@ =~= native_capabilities());
    let mut msgs: Vec<NativeStartupMessage> = Vec::new();
    msgs.push(
        NativeStartupMessage::Ready { backend: String::from_str("yach-native-dogfood"), capabilities },
    );
    msgs.push(
        NativeStartupMessage::StateUpdated {
            model: native_active_model(provider, provider_setup_error),
            session_id: owned(session_id),
            session_file: owned(session_path),
            thinking_level: String::from_str("low"),
            is_streaming: false,
            is_compacting: false,
            message_count: native_session_message_count(log),
            pending_message_count: Some(0),
        },
    );
    msgs.push(NativeStartupMessage::Status(native_status_message(provider, provider_setup_error)));
    msgs.push(
        NativeStartupMessage::Models(
            native_available_models(provider, provider_setup_error, anthropic_choices),
        ),
    );
    msgs
}

} // verus!
