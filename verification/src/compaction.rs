//! Context compaction decisions: the token budget a turn may fill before
//! compaction triggers, whether a compaction runs, whether its summary is
//! usable, the checkpoint it appends, and the ids and status lines it
//! produces.
use crate::config::NativeProviderDogfoodConfig;
use crate::provider_loop::{
    continuation_error, NativeProviderFirstRound, NativeProviderRoundError, ProviderError,
};
use crate::session::{
    NativeCompactionCheckpointId, NativeCompactionReason, NativeEntryId, NativeSessionEvent,
    NativeSessionId, NativeSessionLog, NativeTurnId,
};
use crate::text::{append_str, decimal, decimal_string, str_eq, trim, trimmed};
use vstd::prelude::*;

verus! {

/// Compaction settings of a project.
#[derive(Debug, Clone, PartialEq, Eq)]
pub struct NativeCompactionConfig {
    pub compactor: String,
    pub keep_recent_tokens: u64,
    pub reserve_tokens: u64,
    pub auto_threshold_percent: u8,
}

/// The context window split: what the provider may output and what is
/// held in reserve are not usable for context.
#[derive(Debug, Clone, Copy, PartialEq, Eq)]
pub struct NativeContextBudget {
    pub context_window: u64,
    pub max_output_tokens: u64,
    pub reserve_tokens: u64,
}

pub open spec fn sat_sub(a: int, b: int) -> int {
    if a >= b {
        a - b
    } else {
        0
    }
}

impl NativeContextBudget {
    pub open spec fn usable(self) -> int {
        sat_sub(sat_sub(self.context_window as int, self.max_output_tokens as int), self.reserve_tokens as int)
    }

    /// `context_window − max_output_tokens − reserve`, stopping at zero.
    pub fn usable_tokens(&self) -> (n: u64)
        ensures
            n == self.usable(),
    {
        self.context_window.saturating_sub(self.max_output_tokens).saturating_sub(
            self.reserve_tokens,
        )
    }
}

/// The budget of the configured provider with the project's reserve;
/// none without a provider.
pub fn native_context_budget(
    provider: Option<&NativeProviderDogfoodConfig>,
    config: &NativeCompactionConfig,
) -> (b: Option<NativeContextBudget>)
    ensures
        match provider {
            Some(p) => b == Some(
                NativeContextBudget {
                    context_window: p.adapter.context_window,
                    max_output_tokens: p.adapter.max_tokens,
                    reserve_tokens: config.reserve_tokens,
                },
            ),
            None => b is None,
        },
{
    match provider {
        Some(p) => Some(
            NativeContextBudget {
                context_window: p.adapter.context_window,
                max_output_tokens: p.adapter.max_tokens,
                reserve_tokens: config.reserve_tokens,
            },
        ),
        None => None,
    }
}

/// The threshold percent, at most 100.
pub open spec fn clamped_percent(p: u8) -> int {
    if p > 100 {
        100
    } else {
        p as int
    }
}

/// Compaction accounting for one provider and project.
pub struct NativeCompactionBudget {
    pub context_window: u64,
    pub max_output_tokens: u64,
    pub config: NativeCompactionConfig,
}

impl NativeCompactionBudget {
    pub open spec fn threshold(self) -> int {
        let usable = NativeContextBudget {
            context_window: self.context_window,
            max_output_tokens: self.max_output_tokens,
            reserve_tokens: self.config.reserve_tokens,
        }.usable();
        let scaled = usable * clamped_percent(self.config.auto_threshold_percent);
        (if scaled > u64::MAX {
            u64::MAX as int
        } else {
            scaled
        }) / 100
    }

    /// The configured percent of the usable tokens (the product saturating
    /// at `u64::MAX`).
    pub fn threshold_tokens(&self) -> (n: u64)
        ensures
            n == self.threshold(),
    {
        let usable = NativeContextBudget {
            context_window: self.context_window,
            max_output_tokens: self.max_output_tokens,
            reserve_tokens: self.config.reserve_tokens,
        }.usable_tokens();
        let percent: u64 = if self.config.auto_threshold_percent > 100 {
            100
        } else {
            self.config.auto_threshold_percent as u64
        };
        let scaled: u64 = match usable.checked_mul(percent) {
            Some(v) => v,
            None => u64::MAX,
        };
        scaled / 100
    }

    /// Compaction triggers above the threshold.
    pub fn over_threshold(&self, estimated_tokens: u64) -> (b: bool)
        ensures
            b == (estimated_tokens > self.threshold()),
    {
        estimated_tokens > self.threshold_tokens()
    }
}

/// What `format!("{:?}", s)` writes for a string: the string quoted, with
/// quotes, backslashes and control characters escaped.
pub uninterp spec fn std_debug_str(s: Seq<char>) -> Seq<char>;

/// Formats a string with `Debug`; the text is named by `std_debug_str`.
#[verifier::external_body]
fn debug_str(s: &str) -> (r: String)
    ensures
        r@ == std_debug_str(s@),
{
    format!("{:?}", s)
}

/// Only the `summary` compactor exists: any other configured compactor
/// skips compaction with a status saying so.
pub fn native_compaction_skip_message(compactor: &str) -> (r: Option<String>)
    ensures
        compactor@ == "summary"@ ==> r is None,
        compactor@ != "summary"@ ==> r is Some && r.unwrap()@
            == "compaction skipped: unknown compaction.compactor "@ + std_debug_str(compactor@)
            + "; only \"summary\" exists today"@,
{
    if str_eq(compactor, "summary") {
        return None;
    }
    let mut s = String::from_str("compaction skipped: unknown compaction.compactor ");
    append_str(&mut s, debug_str(compactor).as_str());
    append_str(&mut s, "; only \"summary\" exists today");
    Some(s)
}

/// How a compaction run begins.
#[derive(Debug, Clone, PartialEq, Eq)]
pub enum NativeCompactionStep {
    /// The run ends uncompacted without asking the summarizer, showing the
    /// status, if any.
    Skip { status: Option<String> },
    /// The summarizer is asked, once, for a summary of the folded events.
    RequestSummary,
}

/// A compaction run asks the summarizer only when the `summary`
/// compactor is configured and the log has a cut to fold; an unknown
/// compactor is skipped with its status, and a log without a cut quietly.
pub fn native_compaction_start(compactor: &str, has_cut: bool) -> (s: NativeCompactionStep)
    ensures
        compactor@ != "summary"@ ==> s is Skip && s->Skip_status is Some
            && s->Skip_status.unwrap()@ == "compaction skipped: unknown compaction.compactor "@
            + std_debug_str(compactor@) + "; only \"summary\" exists today"@,
        compactor@ == "summary"@ && !has_cut ==> s == (NativeCompactionStep::Skip { status: None }),
        compactor@ == "summary"@ && has_cut ==> s == NativeCompactionStep::RequestSummary,
{
    match native_compaction_skip_message(compactor) {
        Some(status) => NativeCompactionStep::Skip { status: Some(status) },
        None => if has_cut {
            NativeCompactionStep::RequestSummary
        } else {
            NativeCompactionStep::Skip { status: None }
        },
    }
}

pub open spec fn no_summary_text() -> Seq<char> {
    "compaction failed: summarizer returned no usable summary; continuing uncompacted"@
}

/// The summary a summarizer round produced, when its text is not blank;
/// otherwise the status that compaction failed.
pub fn native_compaction_summary(round: Result<NativeProviderFirstRound, NativeProviderRoundError>) -> (r:
    Result<String, String>)
    ensures
        match round {
            Ok(first) => if trim(first.text@).len() > 0 {
                r is Ok && r->Ok_0 == first.text
            } else {
                r is Err && r->Err_0@ == no_summary_text()
            },
            Err(_) => r is Err && r->Err_0@ == no_summary_text(),
        },
{
    match round {
        Ok(first) => {
            let t = trimmed(first.text.as_str());
            if t.as_str().is_empty() {
                Err(
                    String::from_str(
                        "compaction failed: summarizer returned no usable summary; continuing uncompacted",
                    ),
                )
            } else {
                Ok(first.text)
            }
        },
        Err(_) => Err(
            String::from_str(
                "compaction failed: summarizer returned no usable summary; continuing uncompacted",
            ),
        ),
    }
}

/// The status when the summarizer request itself failed.
pub fn native_compaction_request_failed_message(error: &ProviderError) -> (s: String)
    ensures
        s@ == "compaction failed: "@ + error.message@ + "; continuing uncompacted"@,
{
    let mut s = String::from_str("compaction failed: ");
    append_str(&mut s, error.message.as_str());
    append_str(&mut s, "; continuing uncompacted");
    s
}

/// How many of `events[..k]` are compaction checkpoints.
pub open spec fn checkpoint_count(events: Seq<NativeSessionEvent>, k: int) -> nat
    decreases k,
{
    if k <= 0 || k > events.len() {
        0
    } else {
        checkpoint_count(events, k - 1) + if events[k - 1] is CompactionCheckpoint {
            1nat
        } else {
            0nat
        }
    }
}

/// What the summarizer answered: the summary when its round produced
/// non-blank text; otherwise the status that compaction failed (the
/// request's own error when the request failed).
pub fn native_compaction_summary_response(
    response: Result<Result<NativeProviderFirstRound, NativeProviderRoundError>, ProviderError>,
) -> (r: Result<String, String>)
    ensures
        match response {
            Ok(Ok(first)) => if trim(first.text@).len() > 0 {
                r == Ok::<String, String>(first.text)
            } else {
                r is Err && r->Err_0@ == no_summary_text()
            },
            Ok(Err(_)) => r is Err && r->Err_0@ == no_summary_text(),
            Err(error) => r is Err && r->Err_0@ == "compaction failed: "@ + error.message@
                + "; continuing uncompacted"@,
        },
{
    match response {
        Ok(round) => native_compaction_summary(round),
        Err(error) => Err(native_compaction_request_failed_message(&error)),
    }
}

/// Checkpoints are numbered from one in log order: `compaction-<n>`.
pub fn native_compaction_checkpoint_id(log: &NativeSessionLog) -> (id: String)
    requires
        log.events@.len() < usize::MAX,
    ensures
        id@ == "compaction-"@ + decimal(checkpoint_count(log.events@, log.events@.len() as int) + 1),
{
    let mut count: usize = 0;
    let mut i: usize = 0;
    while i < log.events.len()
        invariant
            i <= log.events@.len(),
            count == checkpoint_count(log.events@, i as int),
            count <= i,
        decreases log.events.len() - i,
    {
        if let NativeSessionEvent::CompactionCheckpoint { .. } = &log.events[i] {
            count = count + 1;
        }
        i = i + 1;
    }
    let mut id = String::from_str("compaction-");
    let next: usize = count + 1;
    append_str(&mut id, decimal_string(next as u64).as_str());
    id
}

/// The summary's estimate plus the kept tail's, saturating.
pub fn native_compaction_tokens_after(summary_tokens: u64, kept_tail_tokens: u64) -> (n: u64)
    ensures
        n == if summary_tokens + kept_tail_tokens > u64::MAX {
            u64::MAX as int
        } else {
            summary_tokens + kept_tail_tokens
        },
{
    summary_tokens.saturating_add(kept_tail_tokens)
}

/// The status after a compaction, in thousands of tokens.
pub fn native_compaction_finished_message(tokens_before: u64, tokens_after: u64) -> (s: String)
    ensures
        s@ == "compacted context: ~"@ + decimal((tokens_before / 1000) as nat) + "K -> ~"@
            + decimal((tokens_after / 1000) as nat) + "K tokens"@,
{
    let mut s = String::from_str("compacted context: ~");
    append_str(&mut s, decimal_string(tokens_before / 1000).as_str());
    append_str(&mut s, "K -> ~");
    append_str(&mut s, decimal_string(tokens_after / 1000).as_str());
    append_str(&mut s, "K tokens");
    s
}

/// What a compaction records besides its summary: where the kept tail
/// starts, by entry id and by event index, why the compaction ran, which
/// compactor ran, the merged file details as JSON text, and the token
/// counts before and after.
#[derive(Debug, Clone, PartialEq, Eq)]
pub struct NativeCompactionRecord {
    pub first_kept_entry_id: NativeEntryId,
    pub kept_start_index: usize,
    pub reason: NativeCompactionReason,
    pub compactor: String,
    pub details: String,
    pub tokens_before: u64,
    pub tokens_after: u64,
}

/// `e` is the checkpoint of a compaction: its id and summary, and the
/// record's kept tail, reason, compactor, details and token counts, for
/// the turn.
pub open spec fn is_checkpoint_event(
    e: NativeSessionEvent,
    session: NativeSessionId,
    turn: NativeTurnId,
    id: Seq<char>,
    summary: Seq<char>,
    record: NativeCompactionRecord,
) -> bool {
    match e {
        NativeSessionEvent::CompactionCheckpoint {
            session_id,
            turn_id,
            checkpoint_id,
            summary: s,
            first_kept_entry_id,
            kept_start_index,
            tokens_before,
            tokens_after_estimate,
            reason,
            compactor,
            details,
        } => {
            &&& session_id == session
            &&& turn_id == turn
            &&& checkpoint_id.0@ == id
            &&& s@ == summary
            &&& first_kept_entry_id == record.first_kept_entry_id
            &&& kept_start_index == record.kept_start_index
            &&& tokens_before == record.tokens_before
            &&& tokens_after_estimate == record.tokens_after
            &&& reason == record.reason
            &&& compactor == record.compactor
            &&& details == record.details
        },
        _ => false,
    }
}

/// How a compaction run ended: whether the log was compacted, and the
/// status shown.
#[derive(Debug, Clone, PartialEq, Eq)]
pub struct NativeCompactionEnd {
    pub compacted: bool,
    pub status: String,
}

/// Ends a compaction with what its summarizer gave: a failure leaves the
/// log as it was, reports its status and leaves the session uncompacted; a
/// summary is appended as the next checkpoint, with the record, and the
/// compaction reports the tokens before and after. The run compacted
/// exactly when the summary is there.
pub fn native_compaction_finish(
    log: &mut NativeSessionLog,
    session_id: &NativeSessionId,
    turn_id: &NativeTurnId,
    summary: Result<String, String>,
    record: NativeCompactionRecord,
) -> (r: NativeCompactionEnd)
    requires
        old(log).events@.len() < usize::MAX,
    ensures
        r.compacted == summary is Ok,
        match summary {
            Err(status) => *final(log) == *old(log) && r.status == status,
            Ok(text) => {
                &&& final(log).events@.len() == old(log).events@.len() + 1
                &&& final(log).events@.drop_last() == old(log).events@
                &&& is_checkpoint_event(
                    final(log).events@.last(),
                    *session_id,
                    *turn_id,
                    "compaction-"@ + decimal(
                        checkpoint_count(old(log).events@, old(log).events@.len() as int) + 1,
                    ),
                    text@,
                    record,
                )
                &&& r.status@ == "compacted context: ~"@ + decimal(
                    (record.tokens_before / 1000) as nat,
                ) + "K -> ~"@ + decimal((record.tokens_after / 1000) as nat) + "K tokens"@
            },
        },
{
    match summary {
        Err(status) => NativeCompactionEnd { compacted: false, status },
        Ok(text) => {
            let id = native_compaction_checkpoint_id(log);
            let tokens_before = record.tokens_before;
            let tokens_after = record.tokens_after;
            log.push(
                NativeSessionEvent::CompactionCheckpoint {
                    session_id: session_id.duplicate(),
                    turn_id: turn_id.duplicate(),
                    checkpoint_id: NativeCompactionCheckpointId(id),
                    summary: text,
                    first_kept_entry_id: record.first_kept_entry_id,
                    kept_start_index: record.kept_start_index,
                    tokens_before,
                    tokens_after_estimate: tokens_after,
                    reason: record.reason,
                    compactor: record.compactor,
                    details: record.details,
                },
            );
            proof {
                assert(log.events@.drop_last() =~= old(log).events@);
            }
            NativeCompactionEnd {
                compacted: true,
                status: native_compaction_finished_message(tokens_before, tokens_after),
            }
        },
    }
}

/// A compaction whose checkpoint could not be stored fails the round with
/// `compaction_persist_failed`; otherwise its end stands.
pub fn native_compaction_persisted(end: NativeCompactionEnd, persist_failed: bool) -> (r: Result<
    NativeCompactionEnd,
    NativeProviderRoundError,
>)
    ensures
        persist_failed ==> (r matches Err(e) && continuation_error(e, "compaction_persist_failed"@)),
        !persist_failed ==> r == Ok::<NativeCompactionEnd, NativeProviderRoundError>(end),
{
    if persist_failed {
        Err(NativeProviderRoundError::ToolContinuation(String::from_str("compaction_persist_failed")))
    } else {
        Ok(end)
    }
}

} // verus!
