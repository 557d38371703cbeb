//! A prompt turn of the native runner: the session it belongs to, the ids of
//! its turn and entries, the events it appends to the session log, and the
//! fixture responses served when no provider is configured.
use crate::proto::PromptOutcome;
use crate::provider_loop::{
    error_kind_label, error_reason_text, failure_hint, native_provider_error_reason,
    native_provider_failure_status, native_provider_round_error_to_provider_error,
    round_error_to_provider_error, NativeProviderRoundError, NativeProviderRoundResult,
    ProviderError, ProviderErrorKind, ProviderErrorView,
};
use crate::session::{
    native_log_has_finished_turn, turn_finished, NativeDurationMetric, NativeEntryId, NativeRole,
    NativeSessionEvent, NativeSessionId, NativeSessionLog, NativeTurnId, NativeTurnOutcome,
    ProviderModel,
};
use crate::text::{
    append_str, chars_of, contains_seq, decimal, decimal_string, opt_view, owned, push_char,
    str_contains, str_eq, trim, trimmed, utf8_bytes, utf8_len, utf8_len_of,
};
use vstd::prelude::*;

verus! {

pub open spec fn turn_view(o: Option<NativeTurnId>) -> Option<Seq<char>> {
    match o {
        Some(t) => Some(t.0@),
        None => None,
    }
}

// ---------------------------------------------------------------------------
// Session and turn identity
// ---------------------------------------------------------------------------

/// The session a prompt asks for: the current one when it names none or
/// `default`.
pub open spec fn requested_session(current: Seq<char>, requested: Seq<char>) -> Seq<char> {
    if requested.len() == 0 || requested == "default"@ {
        current
    } else {
        requested
    }
}

/// The session a prompt runs in; a prompt for another session than the
/// current one is refused with `native dogfood: unknown session <id>`.
pub fn native_prompt_session_id(current_session_id: &str, requested_session_id: &str) -> (r:
    Result<String, String>)
    ensures
        requested_session(current_session_id@, requested_session_id@) == current_session_id@
            ==> r is Ok && r.unwrap()@ == current_session_id@,
        requested_session(current_session_id@, requested_session_id@) != current_session_id@
            ==> r is Err && r->Err_0@ == "native dogfood: unknown session "@
            + requested_session_id@,
{
    let use_current = requested_session_id.is_empty() || str_eq(requested_session_id, "default");
    if use_current || str_eq(requested_session_id, current_session_id) {
        Ok(owned(current_session_id))
    } else {
        let mut message = String::from_str("native dogfood: unknown session ");
        append_str(&mut message, requested_session_id);
        Err(message)
    }
}

/// The ids of one prompt turn.
#[derive(Debug, Clone, PartialEq, Eq)]
pub struct NativeTurnRefs {
    pub turn: NativeTurnId,
    pub user_entry: NativeEntryId,
    pub assistant_entry: NativeEntryId,
}

/// `turn-<n>`, `entry-<n>-user` and `entry-<n>-assistant` for turn `n`.
pub open spec fn turn_refs_of(n: nat) -> (Seq<char>, Seq<char>, Seq<char>) {
    (
        "turn-"@ + decimal(n),
        "entry-"@ + decimal(n) + "-user"@,
        "entry-"@ + decimal(n) + "-assistant"@,
    )
}

pub open spec fn refs_view(r: NativeTurnRefs) -> (Seq<char>, Seq<char>, Seq<char>) {
    (r.turn.0@, r.user_entry.0@, r.assistant_entry.0@)
}

pub fn native_turn_refs(turn_index: u64) -> (r: NativeTurnRefs)
    ensures
        refs_view(r) == turn_refs_of(turn_index as nat),
{
    let n = decimal_string(turn_index);
    let mut turn = String::from_str("turn-");
    append_str(&mut turn, n.as_str());
    let mut user = String::from_str("entry-");
    append_str(&mut user, n.as_str());
    append_str(&mut user, "-user");
    let mut assistant = String::from_str("entry-");
    append_str(&mut assistant, n.as_str());
    append_str(&mut assistant, "-assistant");
    NativeTurnRefs {
        turn: NativeTurnId(turn),
        user_entry: NativeEntryId(user),
        assistant_entry: NativeEntryId(assistant),
    }
}

// ---------------------------------------------------------------------------
// The shapes of the events a turn appends
// ---------------------------------------------------------------------------

/// `e` appends an entry of `role` with `text`, without provider metadata.
pub open spec fn is_entry_event(
    e: NativeSessionEvent,
    session: Seq<char>,
    entry: Seq<char>,
    parent: Option<Seq<char>>,
    turn: Seq<char>,
    role: NativeRole,
    text: Seq<char>,
) -> bool {
    match e {
        NativeSessionEvent::EntryAppended {
            session_id,
            entry_id,
            parent_entry_id,
            turn_id,
            role: r,
            text: t,
            provider,
        } => {
            &&& session_id.0@ == session
            &&& entry_id.0@ == entry
            &&& match parent_entry_id {
                Some(p) => parent == Some(p.0@),
                None => parent is None,
            }
            &&& turn_id.0@ == turn
            &&& r == role
            &&& t@ == text
            &&& provider is None
        },
        _ => false,
    }
}

/// `e` finishes `turn` with `outcome` and `reason`.
pub open spec fn is_turn_finished_event(
    e: NativeSessionEvent,
    session: Seq<char>,
    turn: Seq<char>,
    outcome: NativeTurnOutcome,
    reason: Option<Seq<char>>,
) -> bool {
    match e {
        NativeSessionEvent::TurnFinished { session_id, turn_id, outcome: o, reason: r } => {
            &&& session_id.0@ == session
            &&& turn_id.0@ == turn
            &&& o == outcome
            &&& opt_view(r) == reason
        },
        _ => false,
    }
}

/// `e` records the duration metric `name` of `ms` milliseconds, without
/// attributes.
pub open spec fn is_metric_event(
    e: NativeSessionEvent,
    session: Seq<char>,
    turn: Option<Seq<char>>,
    name: Seq<char>,
    ms: u64,
) -> bool {
    match e {
        NativeSessionEvent::MetricRecorded { session_id, turn_id, metric } => {
            &&& session_id.0@ == session
            &&& match turn_id {
                Some(t) => turn == Some(t.0@),
                None => turn is None,
            }
            &&& metric.name@ == name
            &&& metric.duration_ms == ms
            &&& metric.attributes@.len() == 0
        },
        _ => false,
    }
}

/// A duration in milliseconds as a metric stores it: saturated to `u64`.
pub open spec fn saturated_ms(ms: u128) -> u64 {
    if ms <= u64::MAX as u128 {
        ms as u64
    } else {
        u64::MAX
    }
}

/// The user entry that opens a turn.
pub fn native_user_entry_event(
    session_id: &NativeSessionId,
    refs: &NativeTurnRefs,
    prompt: &str,
) -> (e: NativeSessionEvent)
    ensures
        is_entry_event(
            e,
            session_id.0@,
            refs.user_entry.0@,
            None,
            refs.turn.0@,
            NativeRole::User,
            prompt@,
        ),
{
    NativeSessionEvent::EntryAppended {
        session_id: session_id.duplicate(),
        entry_id: refs.user_entry.duplicate(),
        parent_entry_id: None,
        turn_id: refs.turn.duplicate(),
        role: NativeRole::User,
        text: owned(prompt),
        provider: None,
    }
}

/// A duration metric of `millis` milliseconds, saturated to `u64`.
pub fn native_duration_metric_event_ms(
    session_id: NativeSessionId,
    turn_id: Option<NativeTurnId>,
    name: String,
    millis: u128,
) -> (e: NativeSessionEvent)
    ensures
        is_metric_event(
            e,
            session_id.0@,
            turn_view(turn_id),
            name@,
            saturated_ms(millis),
        ),
{
    let duration_ms: u64 = if millis <= 0xffff_ffff_ffff_ffffu128 {
        millis as u64
    } else {
        0xffff_ffff_ffff_ffffu64
    };
    NativeSessionEvent::MetricRecorded {
        session_id,
        turn_id,
        metric: NativeDurationMetric { name, duration_ms, attributes: Vec::new() },
    }
}

/// What `Duration::as_millis` returns for a duration: its whole
/// milliseconds.
pub uninterp spec fn std_duration_millis(duration: std::time::Duration) -> u128;

/// Calls `Duration::as_millis`; the result is named by `std_duration_millis`.
#[verifier::external_body]
fn duration_as_millis(duration: &std::time::Duration) -> (ms: u128)
    ensures
        ms == std_duration_millis(*duration),
{
    duration.as_millis()
}

/// A duration metric of `duration`, in whole milliseconds saturated to `u64`.
pub fn native_duration_metric_event(
    session_id: NativeSessionId,
    turn_id: Option<NativeTurnId>,
    name: String,
    duration: std::time::Duration,
) -> (e: NativeSessionEvent)
    ensures
        is_metric_event(
            e,
            session_id.0@,
            turn_view(turn_id),
            name@,
            saturated_ms(std_duration_millis(duration)),
        ),
{
    let millis = duration_as_millis(&duration);
    native_duration_metric_event_ms(session_id, turn_id, name, millis)
}

// ---------------------------------------------------------------------------
// Fixture prompts
// ---------------------------------------------------------------------------

/// How a fixture prompt ends, chosen by a marker in the prompt.
#[derive(Debug, Clone, Copy, PartialEq, Eq, Structural)]
pub enum NativeFixtureOutcome {
    Completed,
    Failed,
    Malformed,
    Cancelled,
}

impl NativeFixtureOutcome {
    pub open spec fn status_text(self) -> Seq<char> {
        match self {
            NativeFixtureOutcome::Completed => "turn_end native dogfood"@,
            NativeFixtureOutcome::Failed => "turn_end native dogfood failed"@,
            NativeFixtureOutcome::Malformed => "turn_end native dogfood malformed"@,
            NativeFixtureOutcome::Cancelled => "turn_end native dogfood cancelled"@,
        }
    }

    /// The status line reported when the turn ends.
    pub fn status_message(self) -> (s: &'static str)
        ensures
            s@ == self.status_text(),
    {
        match self {
            NativeFixtureOutcome::Completed => "turn_end native dogfood",
            NativeFixtureOutcome::Failed => "turn_end native dogfood failed",
            NativeFixtureOutcome::Malformed => "turn_end native dogfood malformed",
            NativeFixtureOutcome::Cancelled => "turn_end native dogfood cancelled",
        }
    }

    pub open spec fn outcome(self) -> PromptOutcome {
        match self {
            NativeFixtureOutcome::Completed => PromptOutcome::Completed,
            NativeFixtureOutcome::Failed => PromptOutcome::Failed,
            NativeFixtureOutcome::Malformed => PromptOutcome::Failed,
            NativeFixtureOutcome::Cancelled => PromptOutcome::Cancelled,
        }
    }

    /// The prompt outcome the client is told.
    pub fn prompt_outcome(self) -> (o: PromptOutcome)
        ensures
            o == self.outcome(),
    {
        match self {
            NativeFixtureOutcome::Completed => PromptOutcome::Completed,
            NativeFixtureOutcome::Failed | NativeFixtureOutcome::Malformed => PromptOutcome::Failed,
            NativeFixtureOutcome::Cancelled => PromptOutcome::Cancelled,
        }
    }
}

/// The first marker found decides: `/native-fixture-fail`,
/// `/native-fixture-malformed`, `/native-fixture-cancel`; otherwise the
/// prompt completes.
pub open spec fn fixture_outcome_of(prompt: Seq<char>) -> NativeFixtureOutcome {
    if contains_seq(prompt, "/native-fixture-fail"@) {
        NativeFixtureOutcome::Failed
    } else if contains_seq(prompt, "/native-fixture-malformed"@) {
        NativeFixtureOutcome::Malformed
    } else if contains_seq(prompt, "/native-fixture-cancel"@) {
        NativeFixtureOutcome::Cancelled
    } else {
        NativeFixtureOutcome::Completed
    }
}

pub fn native_fixture_outcome(prompt: &str) -> (o: NativeFixtureOutcome)
    ensures
        o == fixture_outcome_of(prompt@),
{
    if str_contains(prompt, "/native-fixture-fail") {
        NativeFixtureOutcome::Failed
    } else if str_contains(prompt, "/native-fixture-malformed") {
        NativeFixtureOutcome::Malformed
    } else if str_contains(prompt, "/native-fixture-cancel") {
        NativeFixtureOutcome::Cancelled
    } else {
        NativeFixtureOutcome::Completed
    }
}

/// The text a completed fixture prompt answers with.
pub fn native_fixture_response(prompt: &str) -> (r: String)
    ensures
        r@ == "native dogfood fixture response: "@ + prompt@,
{
    let mut r = String::from_str("native dogfood fixture response: ");
    append_str(&mut r, prompt);
    r
}

/// The chunks concatenated.
pub open spec fn concat_chunks(cs: Seq<Seq<char>>) -> Seq<char>
    decreases cs.len(),
{
    if cs.len() == 0 {
        seq![]
    } else {
        concat_chunks(cs.drop_last()) + cs.last()
    }
}

/// `cs` splits `s` into streaming chunks: together they are `s`; each is
/// non-empty and became complete only with its last character; every chunk
/// but the last holds at least 16 bytes.
pub open spec fn streaming_chunks(s: Seq<char>, cs: Seq<Seq<char>>) -> bool {
    &&& concat_chunks(cs) == s
    &&& forall|i: int|
        0 <= i < cs.len() ==> #[trigger] cs[i].len() > 0 && utf8_bytes(cs[i].drop_last()) < 16
    &&& forall|i: int| 0 <= i < cs.len() - 1 ==> utf8_bytes(#[trigger] cs[i]) >= 16
}

pub open spec fn string_views(v: Seq<String>) -> Seq<Seq<char>> {
    v.map_values(|s: String| s@)
}

proof fn lemma_utf8_bytes_push(s: Seq<char>, c: char)
    ensures
        utf8_bytes(s.push(c)) == utf8_bytes(s) + utf8_len(c),
{
    assert(s.push(c).drop_last() =~= s);
}

proof fn lemma_concat_push(cs: Seq<Seq<char>>, x: Seq<char>)
    ensures
        concat_chunks(cs.push(x)) == concat_chunks(cs) + x,
{
    assert(cs.push(x).drop_last() =~= cs);
}

/// Splits a response into the chunks streamed to the client: characters
/// are gathered until a chunk holds at least 16 bytes; the rest forms the
/// last chunk. No character is split.
pub fn native_response_chunks(response: &str) -> (chunks: Vec<String>)
    ensures
        streaming_chunks(response@, string_views(chunks@)),
{
    let chars = chars_of(response);
    let mut chunks: Vec<String> = Vec::new();
    let mut current = String::new();
    let mut current_bytes: usize = 0;
    let mut k: usize = 0;
    while k < chars.len()
        invariant
            chars@ == response@,
            k <= chars@.len(),
            concat_chunks(string_views(chunks@)) + current@ == chars@.subrange(0, k as int),
            current_bytes == utf8_bytes(current@),
            current_bytes < 16,
            forall|i: int|
                0 <= i < chunks@.len() ==> #[trigger] chunks@[i]@.len() > 0 && utf8_bytes(
                    chunks@[i]@.drop_last(),
                ) < 16 && utf8_bytes(chunks@[i]@) >= 16,
        decreases chars.len() - k,
    {
        let c = chars[k];
        proof {
            lemma_utf8_bytes_push(current@, c);
        }
        let ghost before = current@;
        push_char(&mut current, c);
        current_bytes = current_bytes + utf8_len_of(c);
        assert(current@.drop_last() =~= before);
        assert(chars@.subrange(0, k + 1) =~= chars@.subrange(0, k as int).push(c));
        if current_bytes >= 16 {
            proof {
                lemma_concat_push(string_views(chunks@), current@);
            }
            let ghost old_chunks = chunks@;
            chunks.push(current);
            assert(string_views(chunks@) =~= string_views(old_chunks).push(
                chunks@[chunks@.len() - 1]@,
            ));
            current = String::new();
            current_bytes = 0;
        }
        k = k + 1;
    }
    if !current.as_str().is_empty() {
        proof {
            lemma_concat_push(string_views(chunks@), current@);
            assert(utf8_bytes(current@) == utf8_bytes(current@.drop_last()) + utf8_len(
                current@.last(),
            ));
        }
        let ghost old_chunks = chunks@;
        chunks.push(current);
        assert(string_views(chunks@) =~= string_views(old_chunks).push(
            chunks@[chunks@.len() - 1]@,
        ));
    }
    assert(chars@.subrange(0, chars@.len() as int) =~= chars@);
    chunks
}

/// The provider error a fixture outcome stands for.
pub open spec fn fixture_error(outcome: NativeFixtureOutcome) -> ProviderErrorView {
    match outcome {
        NativeFixtureOutcome::Malformed => ProviderErrorView {
            kind: ProviderErrorKind::MalformedStream,
            message: "native dogfood fixture malformed stream"@,
            redacted_debug: None,
        },
        NativeFixtureOutcome::Cancelled => ProviderErrorView {
            kind: ProviderErrorKind::Cancelled,
            message: "native dogfood fixture cancellation"@,
            redacted_debug: None,
        },
        _ => ProviderErrorView {
            kind: ProviderErrorKind::ProviderInternal,
            message: "native dogfood fixture failure"@,
            redacted_debug: None,
        },
    }
}

fn native_fixture_error(outcome: NativeFixtureOutcome) -> (e: ProviderError)
    ensures
        e@ == fixture_error(outcome),
{
    match outcome {
        NativeFixtureOutcome::Malformed => ProviderError {
            kind: ProviderErrorKind::MalformedStream,
            message: String::from_str("native dogfood fixture malformed stream"),
            redacted_debug: None,
        },
        NativeFixtureOutcome::Cancelled => ProviderError {
            kind: ProviderErrorKind::Cancelled,
            message: String::from_str("native dogfood fixture cancellation"),
            redacted_debug: None,
        },
        _ => ProviderError {
            kind: ProviderErrorKind::ProviderInternal,
            message: String::from_str("native dogfood fixture failure"),
            redacted_debug: None,
        },
    }
}

/// What ends a fixture turn: the events appended after the user entry,
/// and the failure status shown before the turn finishes, if any.
#[derive(Debug, Clone, PartialEq, Eq)]
pub struct NativeFixtureTurnEnd {
    pub events: Vec<NativeSessionEvent>,
    pub failure_status: Option<String>,
}

/// The events a fixture turn ends with. Every ending records the
/// `native_prompt_total` metric first. A completed turn whose deltas all
/// reached the client appends the assistant's answer and finishes as
/// completed; one whose client went away finishes as cancelled (`ui
/// receiver dropped`). A failing, malformed or cancelled fixture finishes
/// with the provider error's reason and reports its failure status.
pub fn native_fixture_turn_end(
    session_id: &NativeSessionId,
    refs: &NativeTurnRefs,
    prompt: &str,
    outcome: NativeFixtureOutcome,
    ui_dropped: bool,
    elapsed_ms: u128,
) -> (r: NativeFixtureTurnEnd)
    ensures
        r.events@.len() >= 2,
        is_metric_event(
            r.events@[0],
            session_id.0@,
            Some(refs.turn.0@),
            "native_prompt_total"@,
            saturated_ms(elapsed_ms),
        ),
        outcome == NativeFixtureOutcome::Completed && ui_dropped ==> {
            &&& r.events@.len() == 2
            &&& is_turn_finished_event(
                r.events@[1],
                session_id.0@,
                refs.turn.0@,
                NativeTurnOutcome::Cancelled,
                Some("ui receiver dropped"@),
            )
            &&& r.failure_status is None
        },
        outcome == NativeFixtureOutcome::Completed && !ui_dropped ==> {
            &&& r.events@.len() == 3
            &&& is_entry_event(
                r.events@[1],
                session_id.0@,
                refs.assistant_entry.0@,
                Some(refs.user_entry.0@),
                refs.turn.0@,
                NativeRole::Assistant,
                "native dogfood fixture response: "@ + prompt@,
            )
            &&& is_turn_finished_event(
                r.events@[2],
                session_id.0@,
                refs.turn.0@,
                NativeTurnOutcome::Completed,
                None,
            )
            &&& r.failure_status is None
        },
        outcome != NativeFixtureOutcome::Completed ==> {
            &&& r.events@.len() == 2
            &&& is_turn_finished_event(
                r.events@[1],
                session_id.0@,
                refs.turn.0@,
                if outcome == NativeFixtureOutcome::Cancelled {
                    NativeTurnOutcome::Cancelled
                } else {
                    NativeTurnOutcome::Failed
                },
                Some(error_reason_text(fixture_error(outcome))),
            )
            &&& r.failure_status is Some
            &&& r.failure_status.unwrap()@ == "native provider failed ("@
                + crate::provider_loop::error_kind_label(fixture_error(outcome).kind) + "): "@
                + crate::provider_loop::failure_hint(fixture_error(outcome))
        },
{
    let mut events: Vec<NativeSessionEvent> = Vec::new();
    events.push(
        native_duration_metric_event_ms(
            session_id.duplicate(),
            Some(refs.turn.duplicate()),
            String::from_str("native_prompt_total"),
            elapsed_ms,
        ),
    );
    match outcome {
        NativeFixtureOutcome::Completed => {
            if ui_dropped {
                events.push(
                    NativeSessionEvent::TurnFinished {
                        session_id: session_id.duplicate(),
                        turn_id: refs.turn.duplicate(),
                        outcome: NativeTurnOutcome::Cancelled,
                        reason: Some(String::from_str("ui receiver dropped")),
                    },
                );
            } else {
                events.push(
                    NativeSessionEvent::EntryAppended {
                        session_id: session_id.duplicate(),
                        entry_id: refs.assistant_entry.duplicate(),
                        parent_entry_id: Some(refs.user_entry.duplicate()),
                        turn_id: refs.turn.duplicate(),
                        role: NativeRole::Assistant,
                        text: native_fixture_response(prompt),
                        provider: None,
                    },
                );
                events.push(
                    NativeSessionEvent::TurnFinished {
                        session_id: session_id.duplicate(),
                        turn_id: refs.turn.duplicate(),
                        outcome: NativeTurnOutcome::Completed,
                        reason: None,
                    },
                );
            }
            NativeFixtureTurnEnd { events, failure_status: None }
        },
        _ => {
            let error = native_fixture_error(outcome);
            let turn_outcome = match outcome {
                NativeFixtureOutcome::Cancelled => NativeTurnOutcome::Cancelled,
                _ => NativeTurnOutcome::Failed,
            };
            let status = native_provider_failure_status(&error);
            events.push(
                NativeSessionEvent::TurnFinished {
                    session_id: session_id.duplicate(),
                    turn_id: refs.turn.duplicate(),
                    outcome: turn_outcome,
                    reason: Some(native_provider_error_reason(&error)),
                },
            );
            NativeFixtureTurnEnd { events, failure_status: Some(status) }
        },
    }
}

// ---------------------------------------------------------------------------
// Provider turns
// ---------------------------------------------------------------------------

/// The delta streamed when the provider answered with no text.
pub open spec fn empty_response_text() -> Seq<char> {
    "assistant returned no text"@
}

/// The deltas streamed for a provider's answer: the answer in chunks, or
/// `assistant returned no text` when it holds nothing but whitespace.
pub fn native_provider_response_chunks(text: &str) -> (chunks: Vec<String>)
    ensures
        trim(text@).len() == 0 ==> string_views(chunks@) == seq![empty_response_text()],
        trim(text@).len() > 0 ==> streaming_chunks(text@, string_views(chunks@)),
{
    if trimmed(text).as_str().is_empty() {
        let mut chunks: Vec<String> = Vec::new();
        chunks.push(String::from_str("assistant returned no text"));
        assert(string_views(chunks@) =~= seq![empty_response_text()]);
        chunks
    } else {
        native_response_chunks(text)
    }
}

/// `e` appends the assistant's answer `text` for the turn, attributed to
/// the provider, model and response id.
pub open spec fn is_answer_event(
    e: NativeSessionEvent,
    session: Seq<char>,
    refs: (Seq<char>, Seq<char>, Seq<char>),
    text: Seq<char>,
    provider: Seq<char>,
    model: Seq<char>,
    response_id: Option<Seq<char>>,
) -> bool {
    match e {
        NativeSessionEvent::EntryAppended {
            session_id,
            entry_id,
            parent_entry_id,
            turn_id,
            role,
            text: t,
            provider: p,
        } => {
            &&& session_id.0@ == session
            &&& entry_id.0@ == refs.2
            &&& parent_entry_id matches Some(parent) && parent.0@ == refs.1
            &&& turn_id.0@ == refs.0
            &&& role == NativeRole::Assistant
            &&& t@ == text
            &&& p matches Some(m) && m.provider@ == provider && m.model@ == model && opt_view(
                m.response_id,
            ) == response_id
        },
        _ => false,
    }
}

/// How a provider turn ends: the events appended after the tool round,
/// and, unless the client went away, the prompt's outcome, its status
/// line, and the failure status shown before it.
#[derive(Debug, Clone, PartialEq, Eq)]
pub struct NativeProviderTurnEnd {
    pub events: Vec<NativeSessionEvent>,
    pub outcome: Option<PromptOutcome>,
    pub status: Option<&'static str>,
    pub failure_status: Option<String>,
}

/// The end of a provider turn. Every ending records the
/// `native_prompt_total` metric first. An answer whose deltas all reached
/// the client is appended with its provider metadata and the turn
/// completes; if the client went away the turn finishes as cancelled (`ui
/// receiver dropped`) and nothing more is reported. A round error finishes
/// the turn as cancelled (a cancellation) or failed, with the reason of
/// the provider error it maps to.
pub fn native_provider_turn_end(
    session_id: &NativeSessionId,
    refs: &NativeTurnRefs,
    provider: &str,
    model: &str,
    round: Result<NativeProviderRoundResult, NativeProviderRoundError>,
    ui_dropped: bool,
    elapsed_ms: u128,
) -> (r: NativeProviderTurnEnd)
    ensures
        r.events@.len() >= 2,
        is_metric_event(
            r.events@[0],
            session_id.0@,
            Some(refs.turn.0@),
            "native_prompt_total"@,
            saturated_ms(elapsed_ms),
        ),
        match round {
            Ok(answer) => if ui_dropped {
                &&& r.events@.len() == 2
                &&& is_turn_finished_event(
                    r.events@[1],
                    session_id.0@,
                    refs.turn.0@,
                    NativeTurnOutcome::Cancelled,
                    Some("ui receiver dropped"@),
                )
                &&& r.outcome is None
                &&& r.status is None
                &&& r.failure_status is None
            } else {
                &&& r.events@.len() == 3
                &&& is_answer_event(
                    r.events@[1],
                    session_id.0@,
                    refs_view(*refs),
                    answer.text@,
                    provider@,
                    model@,
                    opt_view(answer.provider_response_id),
                )
                &&& is_turn_finished_event(
                    r.events@[2],
                    session_id.0@,
                    refs.turn.0@,
                    NativeTurnOutcome::Completed,
                    None,
                )
                &&& r.outcome == Some(PromptOutcome::Completed)
                &&& r.status matches Some(s) && s@ == "turn_end native provider"@
                &&& r.failure_status is None
            },
            Err(e) => {
                let error = round_error_to_provider_error(e);
                let cancelled = e is Cancelled;
                &&& r.events@.len() == 2
                &&& is_turn_finished_event(
                    r.events@[1],
                    session_id.0@,
                    refs.turn.0@,
                    if cancelled {
                        NativeTurnOutcome::Cancelled
                    } else {
                        NativeTurnOutcome::Failed
                    },
                    Some(error_reason_text(error)),
                )
                &&& r.outcome == Some(
                    if cancelled {
                        PromptOutcome::Cancelled
                    } else {
                        PromptOutcome::Failed
                    },
                )
                &&& r.status matches Some(s) && s@ == if cancelled {
                    "turn_end native provider cancelled"@
                } else {
                    "turn_end native provider failed"@
                }
                &&& r.failure_status matches Some(f) && f@ == "native provider failed ("@
                    + error_kind_label(error.kind) + "): "@ + failure_hint(error)
            },
        },
{
    let mut events: Vec<NativeSessionEvent> = Vec::new();
    events.push(
        native_duration_metric_event_ms(
            session_id.duplicate(),
            Some(refs.turn.duplicate()),
            String::from_str("native_prompt_total"),
            elapsed_ms,
        ),
    );
    match round {
        Ok(answer) => {
            if ui_dropped {
                events.push(
                    NativeSessionEvent::TurnFinished {
                        session_id: session_id.duplicate(),
                        turn_id: refs.turn.duplicate(),
                        outcome: NativeTurnOutcome::Cancelled,
                        reason: Some(String::from_str("ui receiver dropped")),
                    },
                );
                return NativeProviderTurnEnd {
                    events,
                    outcome: None,
                    status: None,
                    failure_status: None,
                };
            }
            events.push(
                NativeSessionEvent::EntryAppended {
                    session_id: session_id.duplicate(),
                    entry_id: refs.assistant_entry.duplicate(),
                    parent_entry_id: Some(refs.user_entry.duplicate()),
                    turn_id: refs.turn.duplicate(),
                    role: NativeRole::Assistant,
                    text: answer.text,
                    provider: Some(
                        ProviderModel {
                            provider: owned(provider),
                            model: owned(model),
                            response_id: answer.provider_response_id,
                        },
                    ),
                },
            );
            events.push(
                NativeSessionEvent::TurnFinished {
                    session_id: session_id.duplicate(),
                    turn_id: refs.turn.duplicate(),
                    outcome: NativeTurnOutcome::Completed,
                    reason: None,
                },
            );
            NativeProviderTurnEnd {
                events,
                outcome: Some(PromptOutcome::Completed),
                status: Some("turn_end native provider"),
                failure_status: None,
            }
        },
        Err(e) => {
            let error = native_provider_round_error_to_provider_error(&e);
            let cancelled = match e {
                NativeProviderRoundError::Cancelled(_) => true,
                _ => false,
            };
            let (turn_outcome, outcome, status) = if cancelled {
                (
                    NativeTurnOutcome::Cancelled,
                    PromptOutcome::Cancelled,
                    "turn_end native provider cancelled",
                )
            } else {
                (NativeTurnOutcome::Failed, PromptOutcome::Failed, "turn_end native provider failed")
            };
            let failure_status = native_provider_failure_status(&error);
            events.push(
                NativeSessionEvent::TurnFinished {
                    session_id: session_id.duplicate(),
                    turn_id: refs.turn.duplicate(),
                    outcome: turn_outcome,
                    reason: Some(native_provider_error_reason(&error)),
                },
            );
            NativeProviderTurnEnd {
                events,
                outcome: Some(outcome),
                status: Some(status),
                failure_status: Some(failure_status),
            }
        },
    }
}

// ---------------------------------------------------------------------------
// Turns that end without a provider round
// ---------------------------------------------------------------------------

/// A prompt submitted while the provider could not be configured: the
/// user entry, the `native_prompt_total` metric, and a failed finish with
/// `provider_unconfigured <setup error>`; the status tells how to recover.
pub fn native_unconfigured_prompt_events(
    session_id: &NativeSessionId,
    refs: &NativeTurnRefs,
    prompt: &str,
    setup_error: &str,
    elapsed_ms: u128,
) -> (r: (Vec<NativeSessionEvent>, String))
    ensures
        r.0@.len() == 3,
        is_entry_event(
            r.0@[0],
            session_id.0@,
            refs.user_entry.0@,
            None,
            refs.turn.0@,
            NativeRole::User,
            prompt@,
        ),
        is_metric_event(
            r.0@[1],
            session_id.0@,
            Some(refs.turn.0@),
            "native_prompt_total"@,
            saturated_ms(elapsed_ms),
        ),
        is_turn_finished_event(
            r.0@[2],
            session_id.0@,
            refs.turn.0@,
            NativeTurnOutcome::Failed,
            Some("provider_unconfigured "@ + setup_error@),
        ),
        r.1@ == setup_error@ + "; set the provider environment and relaunch yach tui"@,
{
    let mut events: Vec<NativeSessionEvent> = Vec::new();
    events.push(native_user_entry_event(session_id, refs, prompt));
    events.push(
        native_duration_metric_event_ms(
            session_id.duplicate(),
            Some(refs.turn.duplicate()),
            String::from_str("native_prompt_total"),
            elapsed_ms,
        ),
    );
    let mut reason = String::from_str("provider_unconfigured ");
    append_str(&mut reason, setup_error);
    events.push(
        NativeSessionEvent::TurnFinished {
            session_id: session_id.duplicate(),
            turn_id: refs.turn.duplicate(),
            outcome: NativeTurnOutcome::Failed,
            reason: Some(reason),
        },
    );
    let mut status = owned(setup_error);
    append_str(&mut status, "; set the provider environment and relaunch yach tui");
    (events, status)
}

/// How a prompt answered without a provider round ends: the events it
/// appends, the deltas streamed to the client, and the prompt's outcome
/// and message.
#[derive(Debug, Clone, PartialEq, Eq)]
pub struct NativePromptAnswer {
    pub events: Vec<NativeSessionEvent>,
    pub deltas: Vec<String>,
    pub outcome: PromptOutcome,
    pub message: String,
}

/// A prompt submitted while the provider could not be configured streams
/// nothing, appends the events of `native_unconfigured_prompt_events`, and
/// fails with `<setup error>; set the provider environment and relaunch
/// yach tui`.
pub fn native_unconfigured_prompt_answer(
    session_id: &NativeSessionId,
    refs: &NativeTurnRefs,
    prompt: &str,
    setup_error: &str,
    elapsed_ms: u128,
) -> (r: NativePromptAnswer)
    ensures
        r.events@.len() == 3,
        is_entry_event(
            r.events@[0],
            session_id.0@,
            refs.user_entry.0@,
            None,
            refs.turn.0@,
            NativeRole::User,
            prompt@,
        ),
        is_metric_event(
            r.events@[1],
            session_id.0@,
            Some(refs.turn.0@),
            "native_prompt_total"@,
            saturated_ms(elapsed_ms),
        ),
        is_turn_finished_event(
            r.events@[2],
            session_id.0@,
            refs.turn.0@,
            NativeTurnOutcome::Failed,
            Some("provider_unconfigured "@ + setup_error@),
        ),
        r.deltas@.len() == 0,
        r.outcome == PromptOutcome::Failed,
        r.message@ == setup_error@ + "; set the provider environment and relaunch yach tui"@,
{
    let (events, message) = native_unconfigured_prompt_events(
        session_id,
        refs,
        prompt,
        setup_error,
        elapsed_ms,
    );
    NativePromptAnswer { events, deltas: Vec::new(), outcome: PromptOutcome::Failed, message }
}

/// A cancelled provider turn: nothing when the log already finished the
/// turn; otherwise the `native_prompt_total` metric and a cancelled finish
/// with `reason`.
pub fn native_cancelled_turn_events(
    log: &NativeSessionLog,
    session_id: &NativeSessionId,
    turn_id: &NativeTurnId,
    reason: &str,
    elapsed_ms: u128,
) -> (events: Vec<NativeSessionEvent>)
    ensures
        turn_finished(log.events@, turn_id.0@) ==> events@.len() == 0,
        !turn_finished(log.events@, turn_id.0@) ==> {
            &&& events@.len() == 2
            &&& is_metric_event(
                events@[0],
                session_id.0@,
                Some(turn_id.0@),
                "native_prompt_total"@,
                saturated_ms(elapsed_ms),
            )
            &&& is_turn_finished_event(
                events@[1],
                session_id.0@,
                turn_id.0@,
                NativeTurnOutcome::Cancelled,
                Some(reason@),
            )
        },
{
    let mut events: Vec<NativeSessionEvent> = Vec::new();
    if native_log_has_finished_turn(log, turn_id) {
        return events;
    }
    events.push(
        native_duration_metric_event_ms(
            session_id.duplicate(),
            Some(turn_id.duplicate()),
            String::from_str("native_prompt_total"),
            elapsed_ms,
        ),
    );
    events.push(
        NativeSessionEvent::TurnFinished {
            session_id: session_id.duplicate(),
            turn_id: turn_id.duplicate(),
            outcome: NativeTurnOutcome::Cancelled,
            reason: Some(owned(reason)),
        },
    );
    events
}

/// The status line of a cancelled provider turn.
pub fn native_cancelled_turn_status() -> (s: &'static str)
    ensures
        s@ == "turn_end native provider cancelled"@,
{
    "turn_end native provider cancelled"
}

/// Recording a cancellation finishes the turn: a log extended by the
/// events `native_cancelled_turn_events` returns for an unfinished turn has
/// that turn finished, so a second cancellation records nothing.
pub proof fn law_cancellation_finishes_the_turn(
    log: Seq<NativeSessionEvent>,
    added: Seq<NativeSessionEvent>,
    session: Seq<char>,
    turn: Seq<char>,
    reason: Seq<char>,
)
    requires
        added.len() == 2,
        is_turn_finished_event(added[1], session, turn, NativeTurnOutcome::Cancelled, Some(reason)),
    ensures
        turn_finished(log + added, turn),
{
    let all = log + added;
    assert(all[log.len() as int + 1] == added[1]);
    assert(crate::session::finishes_turn(all[log.len() as int + 1], turn));
}

} // verus!
