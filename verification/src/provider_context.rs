//! Provider context assembly: the messages a provider request carries,
//! rebuilt from the session log (the newest compaction checkpoint, then
//! entries and tool activity of completed turns and the current turn),
//! preceded by the baseline guidance and the project's static context.
use crate::session::{
    NativeRole, NativeSessionEvent, NativeSessionLog, NativeToolOutcome,
    NativeToolPayloadSummary, NativeTurnId, native_log_has_completed_turn, turn_completed,
};
use crate::text::{
    append_str, chars_of, opt_index, opt_str_view, opt_view, owned, string_of_range, trim_end,
    trimmed_end,
};
use crate::json::{
    field_views, json_object_text, json_parses, json_valid, render_json_object, JsonValue,
    JsonValueView,
};
use vstd::prelude::*;

verus! {

/// One message of provider context.
#[derive(Debug, Clone, PartialEq, Eq)]
pub struct ProviderMessage {
    pub role: NativeRole,
    pub content: String,
}

pub struct MessageView {
    pub role: NativeRole,
    pub content: Seq<char>,
}

impl View for ProviderMessage {
    type V = MessageView;

    open spec fn view(&self) -> MessageView {
        MessageView { role: self.role, content: self.content@ }
    }
}

pub open spec fn messages_view(ms: Seq<ProviderMessage>) -> Seq<MessageView> {
    ms.map_values(|m: ProviderMessage| m@)
}

/// The wire label of a tool outcome.
pub open spec fn tool_outcome_label(outcome: NativeToolOutcome) -> Seq<char> {
    match outcome {
        NativeToolOutcome::Completed => "completed"@,
        NativeToolOutcome::Failed => "failed"@,
        NativeToolOutcome::Denied => "denied"@,
        NativeToolOutcome::Cancelled => "cancelled"@,
        NativeToolOutcome::ValidationFailed => "validation_failed"@,
    }
}

/// The wire label of a tool outcome.
pub fn native_tool_outcome_label(outcome: NativeToolOutcome) -> (s: &'static str)
    ensures
        s@ == tool_outcome_label(outcome),
{
    match outcome {
        NativeToolOutcome::Completed => "completed",
        NativeToolOutcome::Failed => "failed",
        NativeToolOutcome::Denied => "denied",
        NativeToolOutcome::Cancelled => "cancelled",
        NativeToolOutcome::ValidationFailed => "validation_failed",
    }
}

// ---------------------------------------------------------------------------
// Tool activity rendering (serde_json)
// ---------------------------------------------------------------------------

/// A payload text as a JSON value: the JSON it parses to, or the text as a
/// string where it does not parse.
pub open spec fn payload_value(text: Seq<char>) -> JsonValueView {
    if json_valid(text) {
        JsonValueView::Parsed(text)
    } else {
        JsonValueView::Text(text)
    }
}

/// The object `{tool_name, arguments, status, reason, content}` as
/// `serde_json` renders it: `arguments` is the payload value of the
/// arguments or `null`, `reason` a string or `null`.
pub open spec fn tool_activity_json(
    tool_name: Seq<char>,
    arguments: Option<Seq<char>>,
    status: Seq<char>,
    reason: Option<Seq<char>>,
    content: JsonValueView,
) -> Seq<char> {
    json_object_text(
        seq![
            ("tool_name"@, JsonValueView::Text(tool_name)),
            ("arguments"@, optional_payload(arguments)),
            ("status"@, JsonValueView::Text(status)),
            ("reason"@, optional_text(reason)),
            ("content"@, content),
        ],
    )
}

/// An optional payload: its payload value, or `null`.
pub open spec fn optional_payload(text: Option<Seq<char>>) -> JsonValueView {
    match text {
        Some(t) => payload_value(t),
        None => JsonValueView::Null,
    }
}

/// An optional text: the string, or `null`.
pub open spec fn optional_text(text: Option<Seq<char>>) -> JsonValueView {
    match text {
        Some(t) => JsonValueView::Text(t),
        None => JsonValueView::Null,
    }
}

/// Tool activity whose `content` is the payload value of the recorded
/// output.
pub open spec fn tool_activity_json_with_payload(
    tool_name: Seq<char>,
    arguments: Option<Seq<char>>,
    status: Seq<char>,
    reason: Option<Seq<char>>,
    content: Seq<char>,
) -> Seq<char> {
    tool_activity_json(tool_name, arguments, status, reason, payload_value(content))
}

/// Tool activity whose `content` is the string of a note.
pub open spec fn tool_activity_json_with_note(
    tool_name: Seq<char>,
    arguments: Option<Seq<char>>,
    status: Seq<char>,
    reason: Option<Seq<char>>,
    note: Seq<char>,
) -> Seq<char> {
    tool_activity_json(tool_name, arguments, status, reason, JsonValueView::Text(note))
}

fn payload_value_of(text: &str) -> (v: JsonValue)
    ensures
        v@ == payload_value(text@),
{
    if json_parses(text) {
        JsonValue::Parsed(owned(text))
    } else {
        JsonValue::Text(owned(text))
    }
}

fn render_tool_activity(
    tool_name: &str,
    arguments: Option<&str>,
    status: &str,
    reason: Option<&str>,
    content: JsonValue,
) -> (r: String)
    requires
        content@ is Parsed ==> json_valid(content@->Parsed_0),
    ensures
        r@ == tool_activity_json(
            tool_name@,
            opt_str_view(arguments),
            status@,
            opt_str_view(reason),
            content@,
        ),
{
    let args = match arguments {
        Some(a) => payload_value_of(a),
        None => JsonValue::Null,
    };
    let why = match reason {
        Some(r) => JsonValue::Text(owned(r)),
        None => JsonValue::Null,
    };
    let ghost expected = seq![
        ("tool_name"@, JsonValueView::Text(tool_name@)),
        ("arguments"@, optional_payload(opt_str_view(arguments))),
        ("status"@, JsonValueView::Text(status@)),
        ("reason"@, optional_text(opt_str_view(reason))),
        ("content"@, content@),
    ];
    let mut fields: Vec<(String, JsonValue)> = Vec::new();
    fields.push((String::from_str("tool_name"), JsonValue::Text(owned(tool_name))));
    fields.push((String::from_str("arguments"), args));
    fields.push((String::from_str("status"), JsonValue::Text(owned(status))));
    fields.push((String::from_str("reason"), why));
    fields.push((String::from_str("content"), content));
    assert(field_views(fields@) =~= expected);
    render_json_object(&fields)
}

fn render_tool_activity_with_payload(
    tool_name: &str,
    arguments: Option<&str>,
    status: &str,
    reason: Option<&str>,
    content: &str,
) -> (r: String)
    ensures
        r@ == tool_activity_json_with_payload(
            tool_name@,
            opt_str_view(arguments),
            status@,
            opt_str_view(reason),
            content@,
        ),
{
    render_tool_activity(tool_name, arguments, status, reason, payload_value_of(content))
}

fn render_tool_activity_with_note(
    tool_name: &str,
    arguments: Option<&str>,
    status: &str,
    reason: Option<&str>,
    note: &str,
) -> (r: String)
    ensures
        r@ == tool_activity_json_with_note(
            tool_name@,
            opt_str_view(arguments),
            status@,
            opt_str_view(reason),
            note@,
        ),
{
    render_tool_activity(tool_name, arguments, status, reason, JsonValue::Text(owned(note)))
}

/// The note that stands in for output recorded before payloads were kept.
pub open spec fn not_retained_note(summary: Option<NativeToolPayloadSummary>) -> Seq<char> {
    match summary {
        Some(s) => s.summary@ + " (output not retained)"@,
        None => "result unavailable"@ + " (output not retained)"@,
    }
}

/// The tool-role message describing earlier tool activity.
pub open spec fn tool_activity_view(
    tool_name: Seq<char>,
    arguments: Option<Seq<char>>,
    outcome: NativeToolOutcome,
    reason: Option<Seq<char>>,
    summary: Option<NativeToolPayloadSummary>,
    content: Option<Seq<char>>,
) -> MessageView {
    MessageView {
        role: NativeRole::Tool,
        content: match content {
            Some(c) => tool_activity_json_with_payload(
                tool_name,
                arguments,
                tool_outcome_label(outcome),
                reason,
                c,
            ),
            None => tool_activity_json_with_note(
                tool_name,
                arguments,
                tool_outcome_label(outcome),
                reason,
                not_retained_note(summary),
            ),
        },
    }
}

fn opt_as_str(o: &Option<String>) -> (r: Option<&str>)
    ensures
        opt_str_view(r) == opt_view(*o),
{
    match o {
        Some(s) => Some(s.as_str()),
        None => None,
    }
}

/// Tool-role transcript message describing prior tool activity. Uses the
/// persisted payload when present; logs written before payload persistence
/// fall back to the redacted summary marked as not retained.
pub fn native_provider_tool_activity_message(
    tool_name: &str,
    arguments: Option<&str>,
    outcome: NativeToolOutcome,
    reason: Option<&str>,
    result_summary: Option<&NativeToolPayloadSummary>,
    result_content: Option<&str>,
) -> (m: ProviderMessage)
    ensures
        m@ == tool_activity_view(
            tool_name@,
            opt_str_view(arguments),
            outcome,
            opt_str_view(reason),
            match result_summary {
                Some(s) => Some(*s),
                None => None,
            },
            opt_str_view(result_content),
        ),
{
    let status = native_tool_outcome_label(outcome);
    let content = match result_content {
        Some(content) => render_tool_activity_with_payload(
            tool_name,
            arguments,
            status,
            reason,
            content,
        ),
        None => {
            let mut note = match result_summary {
                Some(summary) => summary.summary.clone(),
                None => String::from_str("result unavailable"),
            };
            append_str(&mut note, " (output not retained)");
            render_tool_activity_with_note(tool_name, arguments, status, reason, note.as_str())
        },
    };
    ProviderMessage { role: NativeRole::Tool, content }
}

// ---------------------------------------------------------------------------
// Messages from the log
// ---------------------------------------------------------------------------

/// A recorded tool request: its id, tool name and arguments.
pub struct ToolContext {
    pub id: Seq<char>,
    pub name: Seq<char>,
    pub arguments: Option<Seq<char>>,
}

/// The most recent context recorded for a request id.
pub open spec fn lookup_tool_context(ctx: Seq<ToolContext>, id: Seq<char>) -> Option<ToolContext>
    decreases ctx.len(),
{
    if ctx.len() == 0 {
        None
    } else if ctx.last().id == id {
        Some(ctx.last())
    } else {
        lookup_tool_context(ctx.drop_last(), id)
    }
}

/// Events of the current turn and of completed turns contribute context.
pub open spec fn included_turn(
    all: Seq<NativeSessionEvent>,
    current: Seq<char>,
    turn: Seq<char>,
) -> bool {
    turn == current || turn_completed(all, turn)
}

/// Tool contexts recorded by the first `k` kept events.
pub open spec fn context_after(
    kept: Seq<NativeSessionEvent>,
    all: Seq<NativeSessionEvent>,
    current: Seq<char>,
    k: nat,
) -> Seq<ToolContext>
    decreases k,
{
    if k == 0 || k > kept.len() {
        seq![]
    } else {
        let prev = context_after(kept, all, current, (k - 1) as nat);
        match kept[k - 1] {
            NativeSessionEvent::ToolRequestRecorded {
                turn_id,
                tool_request_id,
                tool_name,
                argument_content,
                ..
            } => if included_turn(all, current, turn_id.0@) {
                prev.push(
                    ToolContext {
                        id: tool_request_id.0@,
                        name: tool_name@,
                        arguments: opt_view(argument_content),
                    },
                )
            } else {
                prev
            },
            _ => prev,
        }
    }
}

/// Messages contributed by the first `k` kept events.
pub open spec fn messages_after(
    kept: Seq<NativeSessionEvent>,
    all: Seq<NativeSessionEvent>,
    current: Seq<char>,
    k: nat,
) -> Seq<MessageView>
    decreases k,
{
    if k == 0 || k > kept.len() {
        seq![]
    } else {
        let prev = messages_after(kept, all, current, (k - 1) as nat);
        match kept[k - 1] {
            NativeSessionEvent::EntryAppended { turn_id, role, text, .. } => if included_turn(
                all,
                current,
                turn_id.0@,
            ) {
                prev.push(MessageView { role, content: text@ })
            } else {
                prev
            },
            NativeSessionEvent::ToolExecutionFinished {
                turn_id,
                tool_request_id,
                outcome,
                reason,
                result_summary,
                result_content,
                ..
            } => if included_turn(all, current, turn_id.0@) {
                let found = lookup_tool_context(
                    context_after(kept, all, current, (k - 1) as nat),
                    tool_request_id.0@,
                );
                let (name, arguments) = match found {
                    Some(c) => (c.name, c.arguments),
                    None => ("tool"@, None),
                };
                prev.push(
                    tool_activity_view(
                        name,
                        arguments,
                        outcome,
                        opt_view(reason),
                        result_summary,
                        opt_view(result_content),
                    ),
                )
            } else {
                prev
            },
            _ => prev,
        }
    }
}

/// The index of the newest compaction checkpoint.
pub open spec fn newest_checkpoint(events: Seq<NativeSessionEvent>) -> Option<int>
    decreases events.len(),
{
    if events.len() == 0 {
        None
    } else if events.last() is CompactionCheckpoint {
        Some(events.len() - 1)
    } else {
        newest_checkpoint(events.drop_last())
    }
}

/// The continuation frame that carries a compaction summary.
pub open spec fn compaction_summary_view(summary: Seq<char>) -> MessageView {
    MessageView {
        role: NativeRole::System,
        content: "Earlier work in this session was compacted. The summary below is authoritative for everything before the messages that follow it.\n\n"@
            + summary,
    }
}

/// Where the kept events begin: the newest checkpoint's kept index, bounded
/// by the log's length, or the start of the log.
pub open spec fn kept_start(events: Seq<NativeSessionEvent>) -> int {
    match newest_checkpoint(events) {
        Some(i) => match events[i] {
            NativeSessionEvent::CompactionCheckpoint { kept_start_index, .. } => if kept_start_index
                <= events.len() {
                kept_start_index as int
            } else {
                events.len() as int
            },
            _ => 0,
        },
        None => 0,
    }
}

/// The provider messages a log yields for the current turn: the newest
/// checkpoint's summary, then, from the kept events, the entries and tool
/// results of the current turn and of completed turns.
pub open spec fn provider_messages_view(
    events: Seq<NativeSessionEvent>,
    current: Seq<char>,
) -> Seq<MessageView> {
    let kept = events.subrange(kept_start(events), events.len() as int);
    let head = match newest_checkpoint(events) {
        Some(i) => match events[i] {
            NativeSessionEvent::CompactionCheckpoint { summary, .. } => seq![
                compaction_summary_view(summary@),
            ],
            _ => seq![],
        },
        None => seq![],
    };
    head + messages_after(kept, events, current, kept.len())
}

fn newest_checkpoint_of(events: &Vec<NativeSessionEvent>) -> (r: Option<usize>)
    ensures
        opt_index(r) == newest_checkpoint(events@),
        r matches Some(i) ==> i < events@.len(),
{
    let mut i: usize = events.len();
    assert(events@.subrange(0, i as int) =~= events@);
    while i > 0
        invariant
            i <= events@.len(),
            newest_checkpoint(events@) == newest_checkpoint(events@.subrange(0, i as int)),
        decreases i,
    {
        let ghost prefix = events@.subrange(0, i as int);
        assert(prefix.last() == events@[i - 1]);
        assert(prefix.drop_last() =~= events@.subrange(0, i - 1));
        if let NativeSessionEvent::CompactionCheckpoint { .. } = &events[i - 1] {
            return Some(i - 1);
        }
        i = i - 1;
    }
    assert(events@.subrange(0, 0).len() == 0);
    None
}

/// The continuation frame that carries a compaction summary.
pub fn native_compaction_summary_message(summary: &str) -> (m: ProviderMessage)
    ensures
        m@ == compaction_summary_view(summary@),
{
    let mut content = String::from_str(
        "Earlier work in this session was compacted. The summary below is authoritative for everything before the messages that follow it.\n\n",
    );
    append_str(&mut content, summary);
    ProviderMessage { role: NativeRole::System, content }
}

struct ToolContextEntry {
    id: String,
    name: String,
    arguments: Option<String>,
}

spec fn entries_view(v: Seq<ToolContextEntry>) -> Seq<ToolContext> {
    v.map_values(
        |e: ToolContextEntry| ToolContext { id: e.id@, name: e.name@, arguments: opt_view(e.arguments) },
    )
}

fn clone_opt_string(o: &Option<String>) -> (r: Option<String>)
    ensures
        opt_view(r) == opt_view(*o),
{
    match o {
        Some(s) => Some(s.clone()),
        None => None,
    }
}

fn lookup_tool_context_of(ctx: &Vec<ToolContextEntry>, id: &String) -> (r: Option<usize>)
    ensures
        match r {
            Some(i) => i < ctx@.len() && lookup_tool_context(entries_view(ctx@), id@) == Some(
                entries_view(ctx@)[i as int],
            ),
            None => lookup_tool_context(entries_view(ctx@), id@) is None,
        },
{
    let mut i: usize = ctx.len();
    assert(ctx@.subrange(0, i as int) =~= ctx@);
    while i > 0
        invariant
            i <= ctx@.len(),
            lookup_tool_context(entries_view(ctx@), id@) == lookup_tool_context(
                entries_view(ctx@.subrange(0, i as int)),
                id@,
            ),
        decreases i,
    {
        let ghost prefix = entries_view(ctx@.subrange(0, i as int));
        assert(prefix.last() == entries_view(ctx@)[i - 1]);
        assert(prefix.drop_last() =~= entries_view(ctx@.subrange(0, i - 1)));
        if ctx[i - 1].id == *id {
            return Some(i - 1);
        }
        i = i - 1;
    }
    assert(entries_view(ctx@.subrange(0, 0)).len() == 0);
    None
}

/// Rebuilds provider context from the log for the current turn.
pub fn native_provider_messages_from_log(log: &NativeSessionLog, current_turn_id: &NativeTurnId) -> (ms:
    Vec<ProviderMessage>)
    ensures
        messages_view(ms@) == provider_messages_view(log.events@, current_turn_id.0@),
{
    let events = &log.events;
    let n = events.len();
    let checkpoint = newest_checkpoint_of(events);
    let mut messages: Vec<ProviderMessage> = Vec::new();
    let mut start: usize = 0;
    match checkpoint {
        Some(i) => match &events[i] {
            NativeSessionEvent::CompactionCheckpoint { summary, kept_start_index, .. } => {
                messages.push(native_compaction_summary_message(summary.as_str()));
                start = if *kept_start_index <= n {
                    *kept_start_index
                } else {
                    n
                };
            },
            _ => {},
        },
        None => {},
    }
    let ghost all = events@;
    let ghost current = current_turn_id.0@;
    let ghost kept = all.subrange(start as int, n as int);
    let ghost head = messages_view(messages@);
    assert(start as int == kept_start(all));
    assert(head =~= provider_messages_view(all, current).subrange(0, head.len() as int)) by {
        assert(provider_messages_view(all, current) =~= head + messages_after(
            kept,
            all,
            current,
            kept.len(),
        ));
    }
    let mut ctx: Vec<ToolContextEntry> = Vec::new();
    let mut k: usize = start;
    while k < n
        invariant
            n == events@.len(),
            all == events@,
            current == current_turn_id.0@,
            start <= k <= n,
            kept == all.subrange(start as int, n as int),
            entries_view(ctx@) == context_after(kept, all, current, (k - start) as nat),
            messages_view(messages@) == head + messages_after(
                kept,
                all,
                current,
                (k - start) as nat,
            ),
        decreases n - k,
    {
        let ghost j: nat = (k - start) as nat;
        assert(kept[j as int] == all[k as int]);
        let ghost before_msgs = messages@;
        let ghost before_ctx = ctx@;
        match &events[k] {
            NativeSessionEvent::EntryAppended { turn_id, role, text, .. } => {
                if turn_id.0 == current_turn_id.0 || native_log_has_completed_turn(events, turn_id) {
                    messages.push(ProviderMessage { role: *role, content: text.clone() });
                    assert(messages_view(messages@) =~= messages_view(before_msgs).push(
                        messages@.last()@,
                    ));
                }

            },
            NativeSessionEvent::ToolRequestRecorded {
                turn_id,
                tool_request_id,
                tool_name,
                argument_content,
                ..
            } => {
                if turn_id.0 == current_turn_id.0 || native_log_has_completed_turn(events, turn_id) {
                    ctx.push(
                        ToolContextEntry {
                            id: tool_request_id.0.clone(),
                            name: tool_name.clone(),
                            arguments: clone_opt_string(argument_content),
                        },
                    );
                    assert(entries_view(ctx@) =~= entries_view(before_ctx).push(
                        entries_view(ctx@).last(),
                    ));
                }
            },
            NativeSessionEvent::ToolExecutionFinished {
                turn_id,
                tool_request_id,
                outcome,
                reason,
                result_summary,
                result_content,
                ..
            } => {
                if turn_id.0 == current_turn_id.0 || native_log_has_completed_turn(events, turn_id) {
                    let found = lookup_tool_context_of(&ctx, &tool_request_id.0);
                    let (name, arguments): (&str, Option<&str>) = match found {
                        Some(i) => (ctx[i].name.as_str(), opt_as_str(&ctx[i].arguments)),
                        None => ("tool", None),
                    };
                    let summary = match result_summary {
                        Some(s) => Some(s),
                        None => None,
                    };
                    let message = native_provider_tool_activity_message(
                        name,
                        arguments,
                        *outcome,
                        opt_as_str(reason),
                        summary,
                        opt_as_str(result_content),
                    );
                    messages.push(message);
                    assert(messages_view(messages@) =~= messages_view(before_msgs).push(
                        messages@.last()@,
                    ));
                }
            },
            _ => {},
        }
        k = k + 1;
    }
    messages
}

// ---------------------------------------------------------------------------
// Static context and baseline guidance
// ---------------------------------------------------------------------------

#[derive(Debug, Clone, PartialEq, Eq)]
pub enum NativeStaticContextSource {
    AgentsMd,
    AppendSystem,
    ExtensionFile { extension_id: String, item_id: String },
}

#[derive(Debug, Clone, Copy, PartialEq, Eq, Structural)]
pub enum NativeStaticContextPlacement {
    ProjectInstructions,
    AppendSystem,
    BackgroundContext,
}

#[derive(Debug, Clone, Copy, PartialEq, Eq, Structural)]
pub enum NativeStaticContextPriority {
    ProjectInstructions,
    AppendSystem,
    ExtensionBackground,
}

/// One file of static project or extension context.
#[derive(Debug, Clone, PartialEq, Eq)]
pub struct NativeStaticContextItem {
    pub source: NativeStaticContextSource,
    pub relative_path: String,
    pub placement: NativeStaticContextPlacement,
    pub title: String,
    pub content: String,
    pub byte_count: usize,
    pub priority: NativeStaticContextPriority,
}

#[derive(Debug, Clone, PartialEq, Eq)]
pub struct NativeStaticContextBundle {
    pub items: Vec<NativeStaticContextItem>,
    pub total_bytes: usize,
}

/// Project instructions and appended system text go to the system message;
/// background context goes to a user message.
pub open spec fn in_system_message(placement: NativeStaticContextPlacement) -> bool {
    placement == NativeStaticContextPlacement::ProjectInstructions || placement
        == NativeStaticContextPlacement::AppendSystem
}

pub open spec fn placement_selected(placement: NativeStaticContextPlacement, system: bool) -> bool {
    if system {
        in_system_message(placement)
    } else {
        placement == NativeStaticContextPlacement::BackgroundContext
    }
}

/// `# {title}\n\n{content}`.
pub open spec fn rendered_item(item: NativeStaticContextItem) -> Seq<char> {
    "# "@ + item.title@ + "\n\n"@ + item.content@
}

/// The rendered selected items, joined by blank lines.
pub open spec fn rendered_items(items: Seq<NativeStaticContextItem>, system: bool) -> Seq<char>
    decreases items.len(),
{
    if items.len() == 0 {
        seq![]
    } else {
        let prev = rendered_items(items.drop_last(), system);
        if placement_selected(items.last().placement, system) {
            if prev.len() == 0 {
                rendered_item(items.last())
            } else {
                prev + "\n\n"@ + rendered_item(items.last())
            }
        } else {
            prev
        }
    }
}

/// The messages static context contributes: a system message for project
/// instructions and appended system text, then a user message for
/// background context, each only when it has content.
pub open spec fn static_context_view(items: Seq<NativeStaticContextItem>) -> Seq<MessageView> {
    let system = rendered_items(items, true);
    let background = rendered_items(items, false);
    let first = if system.len() > 0 {
        seq![MessageView { role: NativeRole::System, content: system }]
    } else {
        seq![]
    };
    let second = if background.len() > 0 {
        seq![MessageView { role: NativeRole::User, content: background }]
    } else {
        seq![]
    };
    first + second
}

fn placement_selected_of(placement: NativeStaticContextPlacement, system: bool) -> (b: bool)
    ensures
        b == placement_selected(placement, system),
{
    if system {
        placement == NativeStaticContextPlacement::ProjectInstructions || placement
            == NativeStaticContextPlacement::AppendSystem
    } else {
        placement == NativeStaticContextPlacement::BackgroundContext
    }
}

fn render_static_context_items(items: &Vec<NativeStaticContextItem>, system: bool) -> (r: Option<
    String,
>)
    ensures
        match r {
            Some(s) => s@ == rendered_items(items@, system) && s@.len() > 0,
            None => rendered_items(items@, system).len() == 0,
        },
{
    let mut content = String::new();
    let mut i: usize = 0;
    while i < items.len()
        invariant
            i <= items@.len(),
            content@ == rendered_items(items@.subrange(0, i as int), system),
        decreases items.len() - i,
    {
        let ghost prefix = items@.subrange(0, i + 1);
        assert(prefix.drop_last() =~= items@.subrange(0, i as int));
        assert(prefix.last() == items@[i as int]);
        let item = &items[i];
        if placement_selected_of(item.placement, system) {
            if !content.as_str().is_empty() {
                append_str(&mut content, "\n\n");
            }
            append_str(&mut content, "# ");
            append_str(&mut content, item.title.as_str());
            append_str(&mut content, "\n\n");
            append_str(&mut content, item.content.as_str());
        }
        i = i + 1;
    }
    assert(items@.subrange(0, items@.len() as int) =~= items@);
    if content.as_str().is_empty() {
        None
    } else {
        Some(content)
    }
}

/// The system and background messages of a static context bundle.
pub fn provider_messages_from_static_context(context: &NativeStaticContextBundle) -> (ms: Vec<
    ProviderMessage,
>)
    ensures
        messages_view(ms@) == static_context_view(context.items@),
{
    let mut messages: Vec<ProviderMessage> = Vec::new();
    if context.items.len() == 0 {
        assert(rendered_items(context.items@, true).len() == 0);
        assert(rendered_items(context.items@, false).len() == 0);
        assert(messages_view(messages@) =~= static_context_view(context.items@));
        return messages;
    }
    let system_content = render_static_context_items(&context.items, true);
    let background_content = render_static_context_items(&context.items, false);
    if let Some(content) = system_content {
        messages.push(ProviderMessage { role: NativeRole::System, content });
    }
    if let Some(content) = background_content {
        messages.push(ProviderMessage { role: NativeRole::User, content });
    }
    assert(messages_view(messages@) =~= static_context_view(context.items@));
    messages
}

/// Baseline guardrails for every native-provider request.
pub open spec fn baseline_guidance() -> Seq<char> {
    "You are a coding agent running in the yach harness. Files can change outside this conversation at any time: verify current state with a tool call before asserting or acting on remembered file contents. If a tool call fails because the target changed, already exists, or is missing, re-check the current state and adapt instead of repeating the call. Match effort to the request: answer greetings, small talk, and questions you can already answer directly, without tool calls. Project instructions in context describe how to carry out real work, not a checklist to run before every response."@
}

/// The baseline guidance as a system message.
pub fn native_provider_baseline_guidance_message() -> (m: ProviderMessage)
    ensures
        m@ == (MessageView { role: NativeRole::System, content: baseline_guidance() }),
{
    ProviderMessage {
        role: NativeRole::System,
        content: String::from_str(
            "You are a coding agent running in the yach harness. Files can change outside this conversation at any time: verify current state with a tool call before asserting or acting on remembered file contents. If a tool call fails because the target changed, already exists, or is missing, re-check the current state and adapt instead of repeating the call. Match effort to the request: answer greetings, small talk, and questions you can already answer directly, without tool calls. Project instructions in context describe how to carry out real work, not a checklist to run before every response.",
        ),
    }
}

/// Baseline guidance, then static context, then the log's transcript.
pub fn native_provider_messages_from_log_with_static_context(
    log: &NativeSessionLog,
    current_turn_id: &NativeTurnId,
    context: &NativeStaticContextBundle,
) -> (ms: Vec<ProviderMessage>)
    ensures
        messages_view(ms@) == seq![
            MessageView { role: NativeRole::System, content: baseline_guidance() },
        ] + static_context_view(context.items@) + provider_messages_view(
            log.events@,
            current_turn_id.0@,
        ),
{
    let mut messages = vec![native_provider_baseline_guidance_message()];
    let mut static_messages = provider_messages_from_static_context(context);
    let mut transcript = native_provider_messages_from_log(log, current_turn_id);
    let ghost a = messages@;
    let ghost b = static_messages@;
    let ghost c = transcript@;
    messages.append(&mut static_messages);
    messages.append(&mut transcript);
    assert(messages@ =~= a + b + c);
    assert(messages_view(messages@) =~= messages_view(a) + messages_view(b) + messages_view(c));
    messages
}

// ---------------------------------------------------------------------------
// Message shapes
// ---------------------------------------------------------------------------

/// The characters before the first `\n`, and whether a `\n` was found.
pub open spec fn line_prefix(s: Seq<char>) -> (Seq<char>, bool)
    decreases s.len(),
{
    if s.len() == 0 {
        (seq![], false)
    } else if s[0] == '\n' {
        (seq![], true)
    } else {
        let (rest, found) = line_prefix(s.drop_first());
        (seq![s[0]] + rest, found)
    }
}

/// The first line of `s` as `str::lines` yields it (a `\r` before the
/// `\n` is dropped), or nothing for an empty `s`.
pub open spec fn first_line(s: Seq<char>) -> Seq<char> {
    let (prefix, found) = line_prefix(s);
    if found && prefix.len() > 0 && prefix.last() == '\r' {
        prefix.drop_last()
    } else {
        prefix
    }
}

pub open spec fn role_label(role: NativeRole) -> Seq<char> {
    match role {
        NativeRole::User => "user"@,
        NativeRole::Assistant => "assistant"@,
        NativeRole::Tool => "tool"@,
        NativeRole::System => "system"@,
    }
}

/// `role:prefix` with the prefix the first 48 characters of the first line,
/// trailing whitespace removed.
pub open spec fn message_shape(m: MessageView) -> Seq<char> {
    let line = first_line(m.content);
    let cut = if line.len() <= 48 {
        line
    } else {
        line.subrange(0, 48)
    };
    role_label(m.role) + ":"@ + trim_end(cut)
}

proof fn lemma_line_prefix_split(s: Seq<char>, k: int)
    requires
        0 <= k <= s.len(),
        forall|i: int| 0 <= i < k ==> s[i] != '\n',
    ensures
        line_prefix(s) == (s.subrange(0, k) + line_prefix(s.subrange(k, s.len() as int)).0,
        line_prefix(s.subrange(k, s.len() as int)).1),
    decreases k,
{
    if k == 0 {
        assert(s.subrange(0, 0) + line_prefix(s).0 =~= line_prefix(s).0);
        assert(s.subrange(0, s.len() as int) =~= s);
    } else {
        let t = s.drop_first();
        lemma_line_prefix_split(t, k - 1);
        assert(t.subrange(k - 1, t.len() as int) =~= s.subrange(k, s.len() as int));
        assert(seq![s[0]] + t.subrange(0, k - 1) =~= s.subrange(0, k));
        assert(seq![s[0]] + (t.subrange(0, k - 1) + line_prefix(s.subrange(k, s.len() as int)).0)
            =~= s.subrange(0, k) + line_prefix(s.subrange(k, s.len() as int)).0);
    }
}

fn role_label_of(role: NativeRole) -> (s: &'static str)
    ensures
        s@ == role_label(role),
{
    match role {
        NativeRole::User => "user",
        NativeRole::Assistant => "assistant",
        NativeRole::Tool => "tool",
        NativeRole::System => "system",
    }
}

fn message_shape_of(message: &ProviderMessage) -> (s: String)
    ensures
        s@ == message_shape(message@),
{
    let v = chars_of(message.content.as_str());
    let n = v.len();
    let mut k: usize = 0;
    while k < n && v[k] != '\n'
        invariant
            n == v.len(),
            k <= n,
            forall|i: int| 0 <= i < k ==> v@[i] != '\n',
        decreases n - k,
    {
        k = k + 1;
    }
    proof {
        lemma_line_prefix_split(v@, k as int);
        let rest = v@.subrange(k as int, n as int);
        if k < n {
            assert(rest[0] == '\n');
        } else {
            assert(rest.len() == 0);
        }
        assert(v@.subrange(0, k as int) + seq![] =~= v@.subrange(0, k as int));
    }
    let mut end = k;
    if k < n && k > 0 && v[k - 1] == '\r' {
        end = k - 1;
    }
    let cut_end = if end <= 48 {
        end
    } else {
        48
    };
    let cut = string_of_range(&v, 0, cut_end);
    assert(cut@ =~= if first_line(message.content@).len() <= 48 {
        first_line(message.content@)
    } else {
        first_line(message.content@).subrange(0, 48)
    });
    let trimmed = trimmed_end(cut.as_str());
    let mut s = owned(role_label_of(message.role));
    append_str(&mut s, ":");
    append_str(&mut s, trimmed.as_str());
    s
}

/// Compact one-line-per-message rendering of provider context for shape
/// assertions and diagnostics: `role:prefix`.
pub fn native_provider_message_shapes(messages: &[ProviderMessage]) -> (shapes: Vec<String>)
    ensures
        shapes@.len() == messages@.len(),
        forall|i: int| 0 <= i < messages@.len() ==> #[trigger] shapes@[i]@ == message_shape(
            messages@[i]@,
        ),
{
    let mut shapes: Vec<String> = Vec::new();
    let mut i: usize = 0;
    while i < messages.len()
        invariant
            i <= messages@.len(),
            shapes@.len() == i,
            forall|k: int| 0 <= k < i ==> #[trigger] shapes@[k]@ == message_shape(messages@[k]@),
        decreases messages.len() - i,
    {
        shapes.push(message_shape_of(&messages[i]));
        i = i + 1;
    }
    shapes
}

} // verus!
