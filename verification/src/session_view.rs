//! What the client is shown of session logs: a log's messages (entries,
//! finished tool calls and compaction checkpoints), its statistics and
//! first message, the list of recent sessions, and the log a runner starts
//! from with warnings about lines that could not be loaded.
use crate::session::{
    NativeRole, NativeSessionEvent, NativeSessionLog, NativeToolOutcome,
    NativeToolPayloadSummary,
};
use crate::text::{
    append_str, bool_string, bool_text, chars_of, decimal, decimal_string,
    lemma_text_before_irreflexive, lemma_text_before_total, lemma_text_before_transitive,
    opt_str_view, opt_view, owned, string_of_range, text_before, text_order, utf8_bytes, utf8_len,
    utf8_len_of, TextOrder,
};
use crate::session_files::{native_session_id_from_log_path, session_id_of_path};
use crate::sorting::{is_stable_sort, stable_sort, StrictWeakOrder};
use crate::tool_display::{native_tool_result_display, tool_result_display};
use vstd::prelude::*;

verus! {

/// A character's UTF-8 encoding is as long as `utf8_len` says.
proof fn lemma_encode_scalar_len(c: char)
    ensures
        vstd::utf8::encode_scalar(c as u32).len() == utf8_len(c),
{
    vstd::utf8::char_is_scalar(c);
}

/// `utf8_bytes` counts from the front as well as from the back.
proof fn lemma_utf8_bytes_front(s: Seq<char>)
    requires
        s.len() > 0,
    ensures
        utf8_bytes(s) == utf8_len(s[0]) + utf8_bytes(s.drop_first()),
    decreases s.len(),
{
    if s.len() > 1 {
        let t = s.drop_last();
        lemma_utf8_bytes_front(t);
        assert(t.drop_first() =~= s.drop_first().drop_last());
        assert(s.drop_first().last() == s.last());
        assert(t[0] == s[0]);
        assert(utf8_bytes(s) == utf8_bytes(t) + utf8_len(s.last()));
        assert(utf8_bytes(s.drop_first()) == utf8_bytes(s.drop_first().drop_last()) + utf8_len(
            s.drop_first().last(),
        ));
    } else {
        assert(s.drop_first().len() == 0);
        assert(s.drop_last().len() == 0);
        assert(s.last() == s[0]);
        assert(utf8_bytes(s) == utf8_bytes(s.drop_last()) + utf8_len(s.last()));
    }
}

/// The UTF-8 encoding of a text is `utf8_bytes` long.
proof fn lemma_encode_utf8_len(s: Seq<char>)
    ensures
        vstd::utf8::encode_utf8(s).len() == utf8_bytes(s),
    decreases s.len(),
{
    if s.len() > 0 {
        lemma_encode_utf8_len(s.drop_first());
        lemma_encode_scalar_len(s[0]);
        lemma_utf8_bytes_front(s);
    }
}

/// The number of UTF-8 bytes of a text, as `str::len` counts them.
pub(crate) fn str_byte_len(s: &str) -> (n: usize)
    ensures
        n == utf8_bytes(s@),
{
    let n = s.as_bytes().len();
    proof {
        lemma_encode_utf8_len(s@);
    }
    n
}

// ---------------------------------------------------------------------------
// Roles
// ---------------------------------------------------------------------------

pub open spec fn role_text(role: NativeRole) -> Seq<char> {
    match role {
        NativeRole::User => "user"@,
        NativeRole::Assistant => "assistant"@,
        NativeRole::Tool => "tool"@,
        NativeRole::System => "system"@,
    }
}

/// The wire name of a role.
pub fn native_role_label(role: NativeRole) -> (s: String)
    ensures
        s@ == role_text(role),
{
    match role {
        NativeRole::User => String::from_str("user"),
        NativeRole::Assistant => String::from_str("assistant"),
        NativeRole::Tool => String::from_str("tool"),
        NativeRole::System => String::from_str("system"),
    }
}

/// How many of `roles[..k]` are `role`.
pub open spec fn role_count(roles: Seq<NativeRole>, role: NativeRole, k: int) -> nat
    decreases k,
{
    if k <= 0 || k > roles.len() {
        0
    } else {
        role_count(roles, role, k - 1) + if roles[k - 1] == role {
            1nat
        } else {
            0nat
        }
    }
}

/// The number of messages with `role`.
pub fn count_native_role(messages: &[NativeRole], role: NativeRole) -> (r: Option<u64>)
    ensures
        r == Some(role_count(messages@, role, messages@.len() as int) as u64),
        role_count(messages@, role, messages@.len() as int) <= messages@.len(),
{
    let mut count: usize = 0;
    let mut i: usize = 0;
    while i < messages.len()
        invariant
            i <= messages@.len(),
            count == role_count(messages@, role, i as int),
            count <= i,
        decreases messages.len() - i,
    {
        if messages[i] == role {
            count = count + 1;
        }
        i = i + 1;
    }
    Some(count as u64)
}

/// The roles of the log's entries, in order.
pub open spec fn entry_roles(events: Seq<NativeSessionEvent>, k: int) -> Seq<NativeRole>
    decreases k,
{
    if k <= 0 || k > events.len() {
        seq![]
    } else {
        match events[k - 1] {
            NativeSessionEvent::EntryAppended { role, .. } => entry_roles(events, k - 1).push(role),
            _ => entry_roles(events, k - 1),
        }
    }
}

pub fn native_entry_roles(log: &NativeSessionLog) -> (roles: Vec<NativeRole>)
    ensures
        roles@ == entry_roles(log.events@, log.events@.len() as int),
{
    let mut roles: Vec<NativeRole> = Vec::new();
    let mut i: usize = 0;
    while i < log.events.len()
        invariant
            i <= log.events@.len(),
            roles@ == entry_roles(log.events@, i as int),
        decreases log.events.len() - i,
    {
        if let NativeSessionEvent::EntryAppended { role, .. } = &log.events[i] {
            roles.push(*role);
        }
        i = i + 1;
    }
    roles
}

/// Message counts of a session: all entries, and user, assistant and tool
/// entries.
#[derive(Debug, Clone, PartialEq, Eq)]
pub struct NativeSessionCounts {
    pub message_count: Option<u64>,
    pub user_message_count: Option<u64>,
    pub assistant_message_count: Option<u64>,
    pub tool_message_count: Option<u64>,
}

pub fn native_session_counts(log: &NativeSessionLog) -> (c: NativeSessionCounts)
    ensures
        ({
            let roles = entry_roles(log.events@, log.events@.len() as int);
            &&& c.message_count == Some(roles.len() as u64)
            &&& c.user_message_count == Some(
                role_count(roles, NativeRole::User, roles.len() as int) as u64,
            )
            &&& c.assistant_message_count == Some(
                role_count(roles, NativeRole::Assistant, roles.len() as int) as u64,
            )
            &&& c.tool_message_count == Some(
                role_count(roles, NativeRole::Tool, roles.len() as int) as u64,
            )
        }),
{
    let roles = native_entry_roles(log);
    NativeSessionCounts {
        message_count: Some(roles.len() as u64),
        user_message_count: count_native_role(roles.as_slice(), NativeRole::User),
        assistant_message_count: count_native_role(roles.as_slice(), NativeRole::Assistant),
        tool_message_count: count_native_role(roles.as_slice(), NativeRole::Tool),
    }
}

/// The number of entries in a session log.
pub fn native_session_message_count(log: &NativeSessionLog) -> (r: Option<u64>)
    ensures
        r == Some(entry_roles(log.events@, log.events@.len() as int).len() as u64),
{
    let roles = native_entry_roles(log);
    Some(roles.len() as u64)
}

/// The text of the first entry among `events[..k]`.
pub open spec fn first_entry_text(events: Seq<NativeSessionEvent>, k: int) -> Option<Seq<char>>
    decreases k,
{
    if k <= 0 || k > events.len() {
        None
    } else {
        match first_entry_text(events, k - 1) {
            Some(t) => Some(t),
            None => match events[k - 1] {
                NativeSessionEvent::EntryAppended { text, .. } => Some(text@),
                _ => None,
            },
        }
    }
}

/// The text of a session's first entry.
pub fn native_session_first_message(log: &NativeSessionLog) -> (r: Option<String>)
    ensures
        opt_view(r) == first_entry_text(log.events@, log.events@.len() as int),
{
    let mut i: usize = 0;
    while i < log.events.len()
        invariant
            i <= log.events@.len(),
            first_entry_text(log.events@, i as int) is None,
        decreases log.events.len() - i,
    {
        if let NativeSessionEvent::EntryAppended { text, .. } = &log.events[i] {
            let r = Some(text.clone());
            proof {
                lemma_first_entry_stays(log.events@, i as int + 1, log.events@.len() as int);
            }
            return r;
        }
        i = i + 1;
    }
    None
}

proof fn lemma_first_entry_stays(events: Seq<NativeSessionEvent>, k: int, m: int)
    requires
        0 < k <= m <= events.len(),
        first_entry_text(events, k) is Some,
    ensures
        first_entry_text(events, m) == first_entry_text(events, k),
    decreases m - k,
{
    if m > k {
        lemma_first_entry_stays(events, k, m - 1);
    }
}

// ---------------------------------------------------------------------------
// Messages
// ---------------------------------------------------------------------------

/// A message of the session as the client is shown it.
#[derive(Debug, Clone, PartialEq, Eq)]
pub struct SessionMessage {
    pub role: String,
    pub text: String,
    pub entry_id: Option<String>,
    pub tool_name: Option<String>,
    pub is_error: Option<bool>,
}

pub struct SessionMessageView {
    pub role: Seq<char>,
    pub text: Seq<char>,
    pub entry_id: Option<Seq<char>>,
    pub tool_name: Option<Seq<char>>,
    pub is_error: Option<bool>,
}

impl View for SessionMessage {
    type V = SessionMessageView;

    open spec fn view(&self) -> SessionMessageView {
        SessionMessageView {
            role: self.role@,
            text: self.text@,
            entry_id: opt_view(self.entry_id),
            tool_name: opt_view(self.tool_name),
            is_error: self.is_error,
        }
    }
}

/// The status of a tool result, with its size when a summary was stored,
/// and its reason when one was given.
pub open spec fn tool_result_text(
    outcome: NativeToolOutcome,
    reason: Option<Seq<char>>,
    summary: Option<NativeToolPayloadSummary>,
) -> Seq<char> {
    let status = crate::provider_context::tool_outcome_label(outcome);
    (match summary {
        Some(s) => status + "; bytes="@ + decimal(s.byte_count as nat)
            + "; content=redacted; truncated="@ + bool_text(s.truncated),
        None => status,
    }) + match reason {
        Some(r) => if r.len() > 0 {
            "; reason="@ + r
        } else {
            seq![]
        },
        None => seq![],
    }
}

pub fn native_session_tool_result_text(
    outcome: NativeToolOutcome,
    reason: Option<&str>,
    result_summary: Option<&NativeToolPayloadSummary>,
) -> (s: String)
    ensures
        s@ == tool_result_text(
            outcome,
            opt_str_view(reason),
            match result_summary {
                Some(x) => Some(*x),
                None => None,
            },
        ),
{
    let mut text = owned(crate::provider_context::native_tool_outcome_label(outcome));
    if let Some(summary) = result_summary {
        append_str(&mut text, "; bytes=");
        append_str(&mut text, decimal_string(summary.byte_count as u64).as_str());
        append_str(&mut text, "; content=redacted; truncated=");
        append_str(&mut text, bool_string(summary.truncated));
    }
    if let Some(reason) = reason {
        if !reason.is_empty() {
            append_str(&mut text, "; reason=");
            append_str(&mut text, reason);
        }
    }
    text
}

/// The name of the tool last requested under `id` among `events[..k]`.
pub open spec fn requested_tool_name(events: Seq<NativeSessionEvent>, k: int, id: Seq<char>) -> Option<
    Seq<char>,
>
    decreases k,
{
    if k <= 0 || k > events.len() {
        None
    } else {
        match events[k - 1] {
            NativeSessionEvent::ToolRequestRecorded { tool_request_id, tool_name, .. } => if tool_request_id.0@
                == id {
                Some(tool_name@)
            } else {
                requested_tool_name(events, k - 1, id)
            },
            _ => requested_tool_name(events, k - 1, id),
        }
    }
}

pub open spec fn compaction_text(tokens_before: u64, tokens_after: u64, summary: Seq<char>) -> Seq<
    char,
> {
    "— compacted: "@ + decimal((tokens_before / 1000) as nat) + "K → ~"@ + decimal(
        (tokens_after / 1000) as nat,
    ) + "K tokens —\n"@ + summary
}

/// The message event `i` shows, if any: entries as themselves, finished
/// tool calls as tool messages named by their request, and compaction
/// checkpoints as system messages with their token counts.
pub open spec fn session_message_at(events: Seq<NativeSessionEvent>, i: int) -> Option<
    SessionMessageView,
> {
    match events[i] {
        NativeSessionEvent::EntryAppended { entry_id, role, text, .. } => Some(
            SessionMessageView {
                role: role_text(role),
                text: text@,
                entry_id: Some(entry_id.0@),
                tool_name: None,
                is_error: None,
            },
        ),
        NativeSessionEvent::ToolExecutionFinished {
            tool_request_id,
            outcome,
            reason,
            result_summary,
            result_content,
            ..
        } => {
            let name = match requested_tool_name(events, i, tool_request_id.0@) {
                Some(n) => n,
                None => "tool"@,
            };
            let text = match result_content {
                Some(c) => tool_result_display(
                    name,
                    outcome,
                    Some(c@),
                    match result_summary {
                        Some(s) => s.byte_count,
                        None => utf8_bytes(c@) as usize,
                    },
                    match result_summary {
                        Some(s) => s.truncated,
                        None => false,
                    },
                    opt_view(reason),
                ),
                None => tool_result_text(outcome, opt_view(reason), result_summary)
                    + "; output not retained (recorded before payload persistence)"@,
            };
            Some(
                SessionMessageView {
                    role: "tool"@,
                    text,
                    entry_id: Some(tool_request_id.0@),
                    tool_name: Some(name),
                    is_error: Some(outcome != NativeToolOutcome::Completed),
                },
            )
        },
        NativeSessionEvent::CompactionCheckpoint {
            checkpoint_id,
            summary,
            tokens_before,
            tokens_after_estimate,
            ..
        } => Some(
            SessionMessageView {
                role: "system"@,
                text: compaction_text(tokens_before, tokens_after_estimate, summary@),
                entry_id: Some(checkpoint_id.0@),
                tool_name: None,
                is_error: None,
            },
        ),
        _ => None,
    }
}

/// The messages of `events[..k]`, in order.
pub open spec fn session_messages(events: Seq<NativeSessionEvent>, k: int) -> Seq<SessionMessageView>
    decreases k,
{
    if k <= 0 || k > events.len() {
        seq![]
    } else {
        match session_message_at(events, k - 1) {
            Some(m) => session_messages(events, k - 1).push(m),
            None => session_messages(events, k - 1),
        }
    }
}

/// The name of the last pair for `id`.
pub open spec fn last_name(pairs: Seq<(Seq<char>, Seq<char>)>, id: Seq<char>) -> Option<Seq<char>>
    decreases pairs.len(),
{
    if pairs.len() == 0 {
        None
    } else if pairs.last().0 == id {
        Some(pairs.last().1)
    } else {
        last_name(pairs.drop_last(), id)
    }
}

pub open spec fn pair_views(pairs: Seq<(String, String)>) -> Seq<(Seq<char>, Seq<char>)> {
    pairs.map_values(|p: (String, String)| (p.0@, p.1@))
}

fn lookup_tool_name(pairs: &Vec<(String, String)>, id: &str) -> (r: Option<String>)
    ensures
        opt_view(r) == last_name(pair_views(pairs@), id@),
{
    let ghost pv = pair_views(pairs@);
    let mut i: usize = pairs.len();
    assert(pv.take(pv.len() as int) =~= pv);
    while i > 0
        invariant
            pv == pair_views(pairs@),
            i <= pairs@.len(),
            last_name(pv, id@) == last_name(pv.take(i as int), id@),
        decreases i,
    {
        let ghost t = pv.take(i as int);
        assert(t.drop_last() =~= pv.take(i - 1));
        if crate::text::str_eq(pairs[i - 1].0.as_str(), id) {
            return Some(pairs[i - 1].1.clone());
        }
        i = i - 1;
    }
    None
}

pub fn native_compaction_message_text(tokens_before: u64, tokens_after: u64, summary: &str) -> (s:
    String)
    ensures
        s@ == compaction_text(tokens_before, tokens_after, summary@),
{
    let mut s = String::from_str("— compacted: ");
    append_str(&mut s, decimal_string(tokens_before / 1000).as_str());
    append_str(&mut s, "K → ~");
    append_str(&mut s, decimal_string(tokens_after / 1000).as_str());
    append_str(&mut s, "K tokens —\n");
    append_str(&mut s, summary);
    s
}

fn opt_str_of(o: &Option<String>) -> (r: Option<&str>)
    ensures
        opt_str_view(r) == opt_view(*o),
{
    match o {
        Some(s) => Some(s.as_str()),
        None => None,
    }
}

pub open spec fn message_views(ms: Seq<SessionMessage>) -> Seq<SessionMessageView> {
    ms.map_values(|m: SessionMessage| m@)
}

/// The messages a session log shows the client, in log order.
pub fn native_session_messages_from_log(log: &NativeSessionLog) -> (messages: Vec<SessionMessage>)
    ensures
        message_views(messages@) == session_messages(log.events@, log.events@.len() as int),
{
    let ghost events = log.events@;
    let mut names: Vec<(String, String)> = Vec::new();
    let mut messages: Vec<SessionMessage> = Vec::new();
    let mut i: usize = 0;
    while i < log.events.len()
        invariant
            events == log.events@,
            i <= events.len(),
            message_views(messages@) == session_messages(events, i as int),
            forall|id: Seq<char>|
                #[trigger] requested_tool_name(events, i as int, id) == last_name(
                    pair_views(names@),
                    id,
                ),
        decreases log.events.len() - i,
    {
        let ghost before_names = names@;
        let ghost before_messages = messages@;
        let message: Option<SessionMessage> = match &log.events[i] {
            NativeSessionEvent::EntryAppended { entry_id, role, text, .. } => Some(
                SessionMessage {
                    role: native_role_label(*role),
                    text: text.clone(),
                    entry_id: Some(entry_id.0.clone()),
                    tool_name: None,
                    is_error: None,
                },
            ),
            NativeSessionEvent::ToolRequestRecorded { tool_request_id, tool_name, .. } => {
                names.push((tool_request_id.0.clone(), tool_name.clone()));
                proof {
                    let pv = pair_views(names@);
                    assert(pv.drop_last() =~= pair_views(before_names));
                    assert(pv.last() == (tool_request_id.0@, tool_name@));
                    assert forall|id: Seq<char>|
                        #[trigger] requested_tool_name(events, i as int + 1, id) == last_name(
                            pair_views(names@),
                            id,
                        ) by {
                        assert(requested_tool_name(events, i as int + 1, id) == if tool_request_id.0@
                            == id {
                            Some(tool_name@)
                        } else {
                            requested_tool_name(events, i as int, id)
                        });
                    }
                }
                None
            },
            NativeSessionEvent::ToolExecutionFinished {
                tool_request_id,
                outcome,
                reason,
                result_summary,
                result_content,
                ..
            } => {
                let tool_name = match lookup_tool_name(&names, tool_request_id.0.as_str()) {
                    Some(name) => name,
                    None => String::from_str("tool"),
                };
                let text = match result_content {
                    Some(content) => {
                        let byte_count = match result_summary {
                            Some(summary) => summary.byte_count,
                            None => str_byte_len(content.as_str()),
                        };
                        let truncated = match result_summary {
                            Some(summary) => summary.truncated,
                            None => false,
                        };
                        native_tool_result_display(
                            tool_name.as_str(),
                            *outcome,
                            Some(content.as_str()),
                            byte_count,
                            truncated,
                            opt_str_of(reason),
                        )
                    },
                    None => {
                        let summary = match result_summary {
                            Some(summary) => Some(summary),
                            None => None,
                        };
                        let mut text = native_session_tool_result_text(
                            *outcome,
                            opt_str_of(reason),
                            summary,
                        );
                        append_str(
                            &mut text,
                            "; output not retained (recorded before payload persistence)",
                        );
                        text
                    },
                };
                Some(
                    SessionMessage {
                        role: String::from_str("tool"),
                        text,
                        entry_id: Some(tool_request_id.0.clone()),
                        tool_name: Some(tool_name),
                        is_error: Some(*outcome != NativeToolOutcome::Completed),
                    },
                )
            },
            NativeSessionEvent::CompactionCheckpoint {
                checkpoint_id,
                summary,
                tokens_before,
                tokens_after_estimate,
                ..
            } => Some(
                SessionMessage {
                    role: String::from_str("system"),
                    text: native_compaction_message_text(
                        *tokens_before,
                        *tokens_after_estimate,
                        summary.as_str(),
                    ),
                    entry_id: Some(checkpoint_id.0.clone()),
                    tool_name: None,
                    is_error: None,
                },
            ),
            _ => None,
        };
        proof {
            if !(events[i as int] is ToolRequestRecorded) {
                assert forall|id: Seq<char>|
                    #[trigger] requested_tool_name(events, i as int + 1, id) == last_name(
                        pair_views(names@),
                        id,
                    ) by {
                    assert(requested_tool_name(events, i as int + 1, id) == requested_tool_name(
                        events,
                        i as int,
                        id,
                    ));
                }
            }
        }
        match message {
            Some(m) => {
                messages.push(m);
                assert(message_views(messages@) =~= message_views(before_messages).push(
                    messages@.last()@,
                ));
            },
            None => {},
        }
        i = i + 1;
    }
    messages
}

// ---------------------------------------------------------------------------
// Load warnings
// ---------------------------------------------------------------------------

/// Why a line of a session log was skipped while loading.
#[derive(Debug, Clone, PartialEq, Eq)]
pub enum NativeSessionLoadWarning {
    InvalidJson { line_number: usize, reason: String },
}

/// Bytes of a load warning's reason that are shown.
pub const MAX_REASON_BYTES: usize = 160;

/// A reason of at most 160 bytes as it is; a longer one cut to the longest
/// prefix of whole characters within 160 bytes, followed by `...`.
pub open spec fn bounded_reason(reason: Seq<char>, r: Seq<char>) -> bool {
    if utf8_bytes(reason) <= 160 {
        r == reason
    } else {
        exists|k: int|
            0 <= k < reason.len() && utf8_bytes(#[trigger] reason.take(k)) <= 160 && utf8_bytes(
                reason.take(k + 1),
            ) > 160 && r == reason.take(k) + "..."@
    }
}

proof fn lemma_take_bytes(s: Seq<char>, k: int)
    requires
        0 <= k < s.len(),
    ensures
        utf8_bytes(s.take(k + 1)) == utf8_bytes(s.take(k)) + utf8_len(s[k]),
{
    assert(s.take(k + 1).drop_last() =~= s.take(k));
}

pub fn bounded_session_load_warning_reason(reason: &str) -> (r: String)
    ensures
        bounded_reason(reason@, r@),
{
    let total = str_byte_len(reason);
    if total <= MAX_REASON_BYTES {
        return owned(reason);
    }
    let chars = chars_of(reason);
    let mut k: usize = 0;
    let mut bytes: usize = 0;
    assert(chars@.take(0) =~= Seq::<char>::empty());
    while k < chars.len()
        invariant
            chars@ == reason@,
            k <= chars@.len(),
            bytes == utf8_bytes(chars@.take(k as int)),
            bytes <= MAX_REASON_BYTES,
            total == utf8_bytes(reason@),
            total > MAX_REASON_BYTES,
        decreases chars.len() - k,
    {
        proof {
            lemma_take_bytes(chars@, k as int);
        }
        let next = bytes + utf8_len_of(chars[k]);
        if next > MAX_REASON_BYTES {
            let mut r = string_of_range(&chars, 0, k);
            append_str(&mut r, "...");
            assert(chars@.subrange(0, k as int) =~= chars@.take(k as int));
            assert(utf8_bytes(reason@.take(k as int)) <= 160 && utf8_bytes(reason@.take(k + 1))
                > 160 && r@ == reason@.take(k as int) + "..."@);
            return r;
        }
        bytes = next;
        k = k + 1;
    }
    assert(chars@.take(chars@.len() as int) =~= chars@);
    owned(reason)
}

pub open spec fn load_warning_text(warning: NativeSessionLoadWarning, bounded: Seq<char>) -> Seq<char> {
    match warning {
        NativeSessionLoadWarning::InvalidJson { line_number, .. } => "native dogfood: skipped corrupt session log line "@
            + decimal(line_number as nat) + ": "@ + bounded,
    }
}

/// `m` is the status line for a skipped log line: its line number and
/// its reason, bounded.
pub open spec fn is_load_warning_message(warning: NativeSessionLoadWarning, m: Seq<char>) -> bool {
    exists|b: Seq<char>|
        bounded_reason(warning->InvalidJson_reason@, b) && m == load_warning_text(warning, b)
}

/// The status line for a skipped log line, with its reason bounded.
pub fn native_session_load_warning_message(warning: &NativeSessionLoadWarning) -> (s: String)
    ensures
        is_load_warning_message(*warning, s@),
{
    match warning {
        NativeSessionLoadWarning::InvalidJson { line_number, reason } => {
            let bounded = bounded_session_load_warning_reason(reason.as_str());
            let mut s = String::from_str("native dogfood: skipped corrupt session log line ");
            append_str(&mut s, decimal_string(*line_number as u64).as_str());
            append_str(&mut s, ": ");
            append_str(&mut s, bounded.as_str());
            assert(bounded_reason(warning->InvalidJson_reason@, bounded@) && s@ == load_warning_text(
                *warning,
                bounded@,
            ));
            s
        },
    }
}

/// A resumed transcript shows a finished tool call exactly as live
/// progress showed it: for a stored result whose content, outcome, size,
/// truncation and reason are those of the live result, the session message
/// is the live row of the requested tool.
pub proof fn law_resumed_rows_match_live_progress(
    events: Seq<NativeSessionEvent>,
    i: int,
    result: crate::tool_display::NativeProviderToolResult,
)
    requires
        0 <= i < events.len(),
        events[i] matches NativeSessionEvent::ToolExecutionFinished {
            outcome,
            reason,
            result_summary: Some(summary),
            result_content: Some(content),
            ..
        } && content == result.content && outcome == result.status && summary.byte_count
            == result.byte_count && summary.truncated == result.truncated && reason == result.reason,
    ensures
        session_message_at(events, i) is Some,
        session_message_at(events, i).unwrap().text == tool_result_display(
            match requested_tool_name(events, i, events[i]->ToolExecutionFinished_tool_request_id.0@) {
                Some(n) => n,
                None => "tool"@,
            },
            result.status,
            Some(result.content@),
            result.byte_count,
            result.truncated,
            opt_view(result.reason),
        ),
{
}

// ---------------------------------------------------------------------------
// Recent sessions
// ---------------------------------------------------------------------------

/// A session the client can reopen.
#[derive(Debug, Clone, PartialEq, Eq)]
pub struct RecentSession {
    pub path: String,
    pub id: Option<String>,
    pub name: Option<String>,
    pub cwd: Option<String>,
    pub modified_unix_ms: Option<u64>,
    pub message_count: Option<u64>,
    pub first_message: Option<String>,
}

/// The record of a session file: none unless the path names a session log;
/// otherwise its id, the name `native <id>`, the launch directory, the
/// file's modification time, and the entry count and first entry of its
/// log (an unreadable log counts as empty).
pub fn native_recent_session_from_path(
    path: &str,
    cwd: Option<String>,
    modified_unix_ms: Option<u64>,
    log: &NativeSessionLog,
) -> (r: Option<RecentSession>)
    ensures
        match session_id_of_path(path@) {
            None => r is None,
            Some(id) => {
                &&& r is Some
                &&& r.unwrap().path@ == path@
                &&& opt_view(r.unwrap().id) == Some(id)
                &&& opt_view(r.unwrap().name) == Some("native "@ + id)
                &&& r.unwrap().cwd == cwd
                &&& r.unwrap().modified_unix_ms == modified_unix_ms
                &&& r.unwrap().message_count == Some(
                    entry_roles(log.events@, log.events@.len() as int).len() as u64,
                )
                &&& opt_view(r.unwrap().first_message) == first_entry_text(
                    log.events@,
                    log.events@.len() as int,
                )
            },
        },
{
    let id = match native_session_id_from_log_path(path) {
        Some(id) => id,
        None => {
            return None;
        },
    };
    let mut name = String::from_str("native ");
    append_str(&mut name, id.as_str());
    Some(
        RecentSession {
            path: owned(path),
            id: Some(id),
            name: Some(name),
            cwd,
            modified_unix_ms,
            message_count: native_session_message_count(log),
            first_message: native_session_first_message(log),
        },
    )
}

/// `a` was modified after `b`; a known time is newer than an unknown one.
pub open spec fn newer(a: Option<u64>, b: Option<u64>) -> bool {
    match (a, b) {
        (Some(x), Some(y)) => x > y,
        (Some(_), None) => true,
        (None, _) => false,
    }
}

/// Recent sessions list newest first, then by path.
pub open spec fn recent_before(a: (Option<u64>, Seq<char>), b: (Option<u64>, Seq<char>)) -> bool {
    newer(a.0, b.0) || (a.0 == b.0 && text_before(a.1, b.1))
}

proof fn lemma_recent_before_order(
    a: (Option<u64>, Seq<char>),
    b: (Option<u64>, Seq<char>),
    c: (Option<u64>, Seq<char>),
)
    ensures
        !recent_before(a, a),
        recent_before(a, b) && recent_before(b, c) ==> recent_before(a, c),
        a != b ==> recent_before(a, b) || recent_before(b, a),
{
    lemma_text_before_irreflexive(a.1);
    if text_before(a.1, b.1) && text_before(b.1, c.1) {
        lemma_text_before_transitive(a.1, b.1, c.1);
    }
    if a != b && a.0 == b.0 {
        lemma_text_before_total(a.1, b.1);
    }
}

impl StrictWeakOrder for RecentSession {
    open spec fn precedes(&self, other: &Self) -> bool {
        recent_before((self.modified_unix_ms, self.path@), (other.modified_unix_ms, other.path@))
    }

    fn comes_before(&self, other: &Self) -> (b: bool) {
        match (self.modified_unix_ms, other.modified_unix_ms) {
            (Some(x), Some(y)) => if x != y {
                x > y
            } else {
                text_order(self.path.as_str(), other.path.as_str()) == TextOrder::Before
            },
            (Some(_), None) => true,
            (None, Some(_)) => false,
            (None, None) => text_order(self.path.as_str(), other.path.as_str())
                == TextOrder::Before,
        }
    }

    proof fn lemma_strict_weak_order(a: &Self, b: &Self, c: &Self) {
        let ka = (a.modified_unix_ms, a.path@);
        let kb = (b.modified_unix_ms, b.path@);
        let kc = (c.modified_unix_ms, c.path@);
        lemma_recent_before_order(ka, kb, ka);
        lemma_recent_before_order(kb, ka, kc);
        lemma_recent_before_order(ka, kb, kc);
        lemma_recent_before_order(kb, kb, kc);
        lemma_recent_before_order(ka, ka, kc);
    }
}

/// The recent sessions as the client lists them: newest first, sessions
/// of unknown age last, ties by path, otherwise in the given order.
pub fn native_recent_sessions(sessions: Vec<RecentSession>) -> (r: Vec<RecentSession>)
    ensures
        exists|p: Seq<int>| is_stable_sort(sessions@, r@, p),
{
    stable_sort(sessions)
}

// ---------------------------------------------------------------------------
// Loading
// ---------------------------------------------------------------------------

/// Why a session log could not be loaded.
#[derive(Debug, Clone, PartialEq, Eq)]
pub enum NativeSessionLoadError {
    NotFound,
    Failed(String),
}

/// A loaded session log and the lines skipped while loading it.
#[derive(Debug, Clone, PartialEq, Eq)]
pub struct NativeSessionLoadResult {
    pub log: NativeSessionLog,
    pub warnings: Vec<NativeSessionLoadWarning>,
}

/// The log a runner starts from and the status lines it reports: a loaded
/// log with a line per skipped log line; a missing log starts empty and
/// quietly; any other failure starts empty with
/// `native dogfood: failed to load session log: <error>`.
pub fn native_session_state_from_load_result(
    load: Result<NativeSessionLoadResult, NativeSessionLoadError>,
) -> (r: (NativeSessionLog, Vec<String>))
    ensures
        match load {
            Ok(loaded) => {
                &&& r.0 == loaded.log
                &&& r.1@.len() == loaded.warnings@.len()
                &&& forall|i: int|
                    0 <= i < r.1@.len() ==> is_load_warning_message(
                        loaded.warnings@[i],
                        (#[trigger] r.1@[i])@,
                    )
            },
            Err(NativeSessionLoadError::NotFound) => r.0.events@.len() == 0 && r.1@.len() == 0,
            Err(NativeSessionLoadError::Failed(error)) => {
                &&& r.0.events@.len() == 0
                &&& r.1@.len() == 1
                &&& r.1@[0]@ == "native dogfood: failed to load session log: "@ + error@
            },
        },
{
    match load {
        Ok(loaded) => {
            let mut messages: Vec<String> = Vec::new();
            let mut i: usize = 0;
            while i < loaded.warnings.len()
                invariant
                    i <= loaded.warnings@.len(),
                    messages@.len() == i,
                    forall|k: int|
                        0 <= k < i ==> is_load_warning_message(
                            loaded.warnings@[k],
                            (#[trigger] messages@[k])@,
                        ),
                decreases loaded.warnings.len() - i,
            {
                messages.push(native_session_load_warning_message(&loaded.warnings[i]));
                i = i + 1;
            }
            (loaded.log, messages)
        },
        Err(NativeSessionLoadError::NotFound) => (NativeSessionLog::default(), Vec::new()),
        Err(NativeSessionLoadError::Failed(error)) => {
            let mut message = String::from_str("native dogfood: failed to load session log: ");
            append_str(&mut message, error.as_str());
            let mut messages: Vec<String> = Vec::new();
            messages.push(message);
            (NativeSessionLog::default(), messages)
        },
    }
}

/// On resume, every finished tool call is shown as a tool message that is
/// an error exactly when the call did not complete: a failed, denied,
/// cancelled or invalid call is an error, a completed one is not. The
/// message comes last among the messages of the events up to and
/// including its own, under the call's request id.
pub proof fn law_resumed_tool_errors_follow_outcome(events: Seq<NativeSessionEvent>, i: int)
    requires
        0 <= i < events.len(),
        events[i] is ToolExecutionFinished,
    ensures
        session_messages(events, i + 1).len() == session_messages(events, i).len() + 1,
        session_messages(events, i + 1).last().role == "tool"@,
        session_messages(events, i + 1).last().entry_id == Some(
            events[i]->ToolExecutionFinished_tool_request_id.0@,
        ),
        session_messages(events, i + 1).last().is_error == Some(
            events[i]->ToolExecutionFinished_outcome != NativeToolOutcome::Completed,
        ),
        events[i]->ToolExecutionFinished_outcome == NativeToolOutcome::Completed
            ==> session_messages(events, i + 1).last().is_error == Some(false),
        events[i]->ToolExecutionFinished_outcome != NativeToolOutcome::Completed
            ==> session_messages(events, i + 1).last().is_error == Some(true),
{
}

} // verus!
