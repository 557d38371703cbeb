//! The native session log: its events, and what the runner derives from a
//! log (finished turns, message counts, role labels, tool result text).
use crate::permission::PermissionDecisionSummary;
use vstd::prelude::*;

verus! {

/// `Result::clone` (std), which the derived `Clone` of session events calls
/// for a tool request's validation result; nothing is stated of the copy.
pub assume_specification<T: Clone, E: Clone>[ <Result<T, E> as Clone>::clone ](
    r: &Result<T, E>,
) -> Result<T, E>;

#[derive(Debug, Clone, PartialEq, Eq)]
pub struct NativeSessionId(pub String);

#[derive(Debug, Clone, PartialEq, Eq)]
pub struct NativeTurnId(pub String);

#[derive(Debug, Clone, PartialEq, Eq)]
pub struct NativeEntryId(pub String);

#[derive(Debug, Clone, PartialEq, Eq)]
pub struct NativeToolRequestId(pub String);

#[derive(Debug, Clone, PartialEq, Eq)]
pub struct NativeEditTransactionId(pub String);

#[derive(Debug, Clone, PartialEq, Eq)]
pub struct NativeCompactionCheckpointId(pub String);

impl NativeSessionId {
    /// A copy of the id.
    pub fn duplicate(&self) -> (r: Self)
        ensures
            r == *self,
    {
        NativeSessionId(self.0.clone())
    }
}

impl NativeTurnId {
    /// A copy of the id.
    pub fn duplicate(&self) -> (r: Self)
        ensures
            r == *self,
    {
        NativeTurnId(self.0.clone())
    }
}

impl NativeEntryId {
    /// A copy of the id.
    pub fn duplicate(&self) -> (r: Self)
        ensures
            r == *self,
    {
        NativeEntryId(self.0.clone())
    }
}

#[derive(Debug, Clone, Copy, PartialEq, Eq, Structural)]
pub enum NativeRole {
    User,
    Assistant,
    Tool,
    System,
}

/// Why a compaction ran.
#[derive(Debug, Clone, Copy, PartialEq, Eq, Structural)]
pub enum NativeCompactionReason {
    Threshold,
    Overflow,
    Manual,
}

#[derive(Debug, Clone, Copy, PartialEq, Eq, Structural)]
pub enum NativeTurnOutcome {
    Completed,
    Failed,
    Cancelled,
}

#[derive(Debug, Clone, Copy, PartialEq, Eq, Structural)]
pub enum NativeToolOutcome {
    Completed,
    Failed,
    Denied,
    Cancelled,
    ValidationFailed,
}

#[derive(Debug, Clone, Copy, PartialEq, Eq, Structural)]
pub enum NativeToolPermissionState {
    Allowed,
    Denied,
    NeedsReview,
}

#[derive(Debug, Clone, Copy, PartialEq, Eq, Structural)]
pub enum NativeEditEvidenceOutcome {
    Completed,
    Failed,
    Rejected,
    Cancelled,
}

/// A bounded, possibly redacted description of a tool payload.
#[derive(Debug, Clone, PartialEq, Eq)]
pub struct NativeToolPayloadSummary {
    pub summary: String,
    pub byte_count: usize,
    pub redacted: bool,
    pub truncated: bool,
}

/// The provider and model that produced an entry, with the provider's
/// response id.
#[derive(Debug, Clone, PartialEq, Eq)]
pub struct ProviderModel {
    pub provider: String,
    pub model: String,
    pub response_id: Option<String>,
}

#[derive(Debug, Clone, PartialEq, Eq)]
pub struct NativeMetricAttribute {
    pub key: String,
    pub value: String,
}

#[derive(Debug, Clone, PartialEq, Eq)]
pub struct NativeDurationMetric {
    pub name: String,
    pub duration_ms: u64,
    pub attributes: Vec<NativeMetricAttribute>,
}

#[derive(Debug, Clone, PartialEq, Eq)]
pub enum NativeEditOperationEvidence {
    CreateTextFile {
        relative_path: String,
        after_sha256: String,
        after_bytes: usize,
        bytes_written: Option<usize>,
    },
    ModifyTextFile {
        relative_path: String,
        before_sha256: String,
        after_sha256: String,
        before_bytes: usize,
        after_bytes: usize,
        hunk_count: usize,
        bytes_written: Option<usize>,
    },
}

#[derive(Debug, Clone, PartialEq, Eq)]
pub struct NativeEditEvidenceSummary {
    pub operation_count: usize,
    pub operations: Vec<NativeEditOperationEvidence>,
    pub diff_summary: NativeToolPayloadSummary,
}

/// One record of a session log.
#[derive(Debug, Clone, PartialEq, Eq)]
pub enum NativeSessionEvent {
    EntryAppended {
        session_id: NativeSessionId,
        entry_id: NativeEntryId,
        parent_entry_id: Option<NativeEntryId>,
        turn_id: NativeTurnId,
        role: NativeRole,
        text: String,
        provider: Option<ProviderModel>,
    },
    ToolRequestRecorded {
        session_id: NativeSessionId,
        turn_id: NativeTurnId,
        tool_request_id: NativeToolRequestId,
        tool_name: String,
        provider_call_id: Option<String>,
        validation: Result<(), String>,
        permission: NativeToolPermissionState,
        argument_summary: NativeToolPayloadSummary,
        argument_content: Option<String>,
    },
    ToolExecutionFinished {
        session_id: NativeSessionId,
        turn_id: NativeTurnId,
        tool_request_id: NativeToolRequestId,
        outcome: NativeToolOutcome,
        reason: Option<String>,
        result_summary: Option<NativeToolPayloadSummary>,
        result_content: Option<String>,
    },
    TurnFinished {
        session_id: NativeSessionId,
        turn_id: NativeTurnId,
        outcome: NativeTurnOutcome,
        reason: Option<String>,
    },
    MetricRecorded {
        session_id: NativeSessionId,
        turn_id: Option<NativeTurnId>,
        metric: NativeDurationMetric,
    },
    StaticContextIncluded {
        session_id: NativeSessionId,
        turn_id: NativeTurnId,
        relative_paths: Vec<String>,
        total_bytes: usize,
    },
    PermissionDecisionRecorded {
        session_id: NativeSessionId,
        turn_id: NativeTurnId,
        summary: PermissionDecisionSummary,
    },
    EditTraceRecorded {
        session_id: NativeSessionId,
        turn_id: NativeTurnId,
        trace_id: String,
        reason_label: Option<String>,
    },
    EditTransactionPrepared {
        session_id: NativeSessionId,
        turn_id: NativeTurnId,
        tool_request_id: Option<NativeToolRequestId>,
        transaction_id: NativeEditTransactionId,
        summary: NativeEditEvidenceSummary,
    },
    EditTransactionFinished {
        session_id: NativeSessionId,
        turn_id: NativeTurnId,
        tool_request_id: Option<NativeToolRequestId>,
        transaction_id: Option<NativeEditTransactionId>,
        outcome: NativeEditEvidenceOutcome,
        reason: Option<String>,
        summary: Option<NativeEditEvidenceSummary>,
    },
    /// Everything before the kept tail, which starts at entry
    /// `first_kept_entry_id` (event `kept_start_index`), is folded into
    /// `summary`; `details` is the merged file details as JSON text.
    CompactionCheckpoint {
        session_id: NativeSessionId,
        turn_id: NativeTurnId,
        checkpoint_id: NativeCompactionCheckpointId,
        summary: String,
        first_kept_entry_id: NativeEntryId,
        kept_start_index: usize,
        tokens_before: u64,
        tokens_after_estimate: u64,
        reason: NativeCompactionReason,
        compactor: String,
        details: String,
    },
}

/// The events of one session, in append order.
#[derive(Debug, Clone, PartialEq, Eq)]
pub struct NativeSessionLog {
    pub events: Vec<NativeSessionEvent>,
}

impl Default for NativeSessionLog {
    fn default() -> (log: Self)
        ensures
            log.events@.len() == 0,
    {
        NativeSessionLog { events: Vec::new() }
    }
}

impl NativeSessionLog {
    /// Appends one event.
    pub fn push(&mut self, event: NativeSessionEvent)
        ensures
            final(self).events@ == old(self).events@.push(event),
    {
        self.events.push(event);
    }
}

/// `e` finishes the turn `t`.
pub open spec fn finishes_turn(e: NativeSessionEvent, t: Seq<char>) -> bool {
    match e {
        NativeSessionEvent::TurnFinished { turn_id, .. } => turn_id.0@ == t,
        _ => false,
    }
}

/// `e` finishes the turn `t` with outcome `Completed`.
pub open spec fn completes_turn(e: NativeSessionEvent, t: Seq<char>) -> bool {
    match e {
        NativeSessionEvent::TurnFinished { turn_id, outcome, .. } => turn_id.0@ == t && outcome
            == NativeTurnOutcome::Completed,
        _ => false,
    }
}

/// The turn `t` finished with outcome `Completed` somewhere in `events`.
pub open spec fn turn_completed(events: Seq<NativeSessionEvent>, t: Seq<char>) -> bool {
    exists|i: int| 0 <= i < events.len() && completes_turn(#[trigger] events[i], t)
}

/// The turn `t` finished, with any outcome, somewhere in `events`.
pub open spec fn turn_finished(events: Seq<NativeSessionEvent>, t: Seq<char>) -> bool {
    exists|i: int| 0 <= i < events.len() && finishes_turn(#[trigger] events[i], t)
}

/// Whether the log already holds a terminal event for the turn.
pub fn native_log_has_finished_turn(log: &NativeSessionLog, turn_id: &NativeTurnId) -> (b: bool)
    ensures
        b == turn_finished(log.events@, turn_id.0@),
{
    let mut i: usize = 0;
    while i < log.events.len()
        invariant
            i <= log.events@.len(),
            forall|k: int| 0 <= k < i ==> !finishes_turn(#[trigger] log.events@[k], turn_id.0@),
        decreases log.events.len() - i,
    {
        match &log.events[i] {
            NativeSessionEvent::TurnFinished { turn_id: finished, .. } => {
                if finished.0 == turn_id.0 {
                    return true;
                }
            },
            _ => {},
        }
        i = i + 1;
    }
    false
}

/// Whether the log holds a `Completed` terminal event for the turn.
pub fn native_log_has_completed_turn(events: &Vec<NativeSessionEvent>, turn_id: &NativeTurnId) -> (b:
    bool)
    ensures
        b == turn_completed(events@, turn_id.0@),
{
    let mut i: usize = 0;
    while i < events.len()
        invariant
            i <= events@.len(),
            forall|k: int| 0 <= k < i ==> !completes_turn(#[trigger] events@[k], turn_id.0@),
        decreases events.len() - i,
    {
        match &events[i] {
            NativeSessionEvent::TurnFinished { turn_id: finished, outcome, .. } => {
                if *outcome == NativeTurnOutcome::Completed && finished.0 == turn_id.0 {
                    return true;
                }
            },
            _ => {},
        }
        i = i + 1;
    }
    false
}

} // verus!
