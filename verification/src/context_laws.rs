//! What provider context is made of: an earlier turn that did not complete
//! (it failed, was cancelled, or never finished) contributes nothing, so
//! a log without its events yields the same messages; nor do evidence
//! events (metrics, static context, permission decisions, edit traces and
//! transactions).
use crate::json::{json_object_text, JsonValueView};
use crate::provider_context::{
    compaction_summary_view, context_after, included_turn, kept_start, messages_after,
    newest_checkpoint, optional_text, provider_messages_view, tool_outcome_label, MessageView,
    ToolContext,
};
use crate::session::{
    completes_turn, turn_completed, NativeRole, NativeSessionEvent, NativeToolOutcome,
};
use crate::text::opt_view;
use vstd::prelude::*;

verus! {

/// The turn an event belongs to, when it names one.
pub open spec fn event_turn(e: NativeSessionEvent) -> Option<Seq<char>> {
    match e {
        NativeSessionEvent::EntryAppended { turn_id, .. } => Some(turn_id.0@),
        NativeSessionEvent::ToolRequestRecorded { turn_id, .. } => Some(turn_id.0@),
        NativeSessionEvent::ToolExecutionFinished { turn_id, .. } => Some(turn_id.0@),
        NativeSessionEvent::TurnFinished { turn_id, .. } => Some(turn_id.0@),
        NativeSessionEvent::MetricRecorded { turn_id, .. } => match turn_id {
            Some(t) => Some(t.0@),
            None => None,
        },
        NativeSessionEvent::StaticContextIncluded { turn_id, .. } => Some(turn_id.0@),
        NativeSessionEvent::PermissionDecisionRecorded { turn_id, .. } => Some(turn_id.0@),
        NativeSessionEvent::EditTraceRecorded { turn_id, .. } => Some(turn_id.0@),
        NativeSessionEvent::EditTransactionPrepared { turn_id, .. } => Some(turn_id.0@),
        NativeSessionEvent::EditTransactionFinished { turn_id, .. } => Some(turn_id.0@),
        NativeSessionEvent::CompactionCheckpoint { turn_id, .. } => Some(turn_id.0@),
    }
}

/// The events without those of turn `t`, in order.
pub open spec fn without_turn(events: Seq<NativeSessionEvent>, t: Seq<char>) -> Seq<NativeSessionEvent>
    decreases events.len(),
{
    if events.len() == 0 {
        seq![]
    } else {
        let rest = without_turn(events.drop_last(), t);
        if event_turn(events.last()) == Some(t) {
            rest
        } else {
            rest.push(events.last())
        }
    }
}

proof fn lemma_without_turn_members(events: Seq<NativeSessionEvent>, t: Seq<char>)
    ensures
        forall|e: NativeSessionEvent|
            #[trigger] without_turn(events, t).contains(e) <==> (events.contains(e) && event_turn(e)
                != Some(t)),
    decreases events.len(),
{
    if events.len() > 0 {
        let prefix = events.drop_last();
        lemma_without_turn_members(prefix, t);
        assert forall|e: NativeSessionEvent|
            #[trigger] without_turn(events, t).contains(e) <==> (events.contains(e) && event_turn(e)
                != Some(t)) by {
            if events.contains(e) {
                let i = choose|i: int| 0 <= i < events.len() && events[i] == e;
                if i < events.len() - 1 {
                    assert(prefix[i] == e);
                    assert(prefix.contains(e));
                }
            }
            if prefix.contains(e) {
                let i = choose|i: int| 0 <= i < prefix.len() && prefix[i] == e;
                assert(events[i] == e);
            }
            let w = without_turn(prefix, t);
            if event_turn(events.last()) != Some(t) {
                let wp = w.push(events.last());
                if w.contains(e) {
                    let i = choose|i: int| 0 <= i < w.len() && w[i] == e;
                    assert(wp[i] == e);
                }
                if wp.contains(e) {
                    let i = choose|i: int| 0 <= i < wp.len() && wp[i] == e;
                    if i < w.len() {
                        assert(w[i] == e);
                    }
                }
                assert(wp[wp.len() - 1] == events.last());
            }
            assert(events[events.len() - 1] == events.last());
        }
    }
}

proof fn lemma_completed_iff_contains(events: Seq<NativeSessionEvent>, u: Seq<char>)
    ensures
        turn_completed(events, u) <==> exists|e: NativeSessionEvent|
            #[trigger] events.contains(e) && completes_turn(e, u),
{
    if turn_completed(events, u) {
        let i = choose|i: int| 0 <= i < events.len() && completes_turn(#[trigger] events[i], u);
        assert(events.contains(events[i]));
    }
    if exists|e: NativeSessionEvent| #[trigger] events.contains(e) && completes_turn(e, u) {
        let e = choose|e: NativeSessionEvent| #[trigger] events.contains(e) && completes_turn(e, u);
        let i = choose|i: int| 0 <= i < events.len() && events[i] == e;
        assert(completes_turn(events[i], u));
    }
}

/// Removing the events of an incomplete turn leaves every turn's
/// completion, and so every turn's inclusion, as it was.
proof fn lemma_inclusion_kept(events: Seq<NativeSessionEvent>, t: Seq<char>, current: Seq<char>)
    requires
        !turn_completed(events, t),
    ensures
        forall|u: Seq<char>|
            #[trigger] included_turn(without_turn(events, t), current, u) == included_turn(
                events,
                current,
                u,
            ),
{
    let w = without_turn(events, t);
    lemma_without_turn_members(events, t);
    assert forall|u: Seq<char>|
        #[trigger] included_turn(w, current, u) == included_turn(events, current, u) by {
        lemma_completed_iff_contains(events, u);
        lemma_completed_iff_contains(w, u);
        if turn_completed(events, u) {
            let e = choose|e: NativeSessionEvent| #[trigger] events.contains(e) && completes_turn(e, u);
            if u != t {
                assert(event_turn(e) == Some(u));
                assert(w.contains(e));
            }
        }
        if turn_completed(w, u) {
            let e = choose|e: NativeSessionEvent| #[trigger] w.contains(e) && completes_turn(e, u);
            assert(events.contains(e));
        }
    }
}

/// Messages and tool contexts of the first `j` kept events depend only on
/// those events.
proof fn lemma_prefix_only(
    a: Seq<NativeSessionEvent>,
    b: Seq<NativeSessionEvent>,
    all: Seq<NativeSessionEvent>,
    current: Seq<char>,
    j: nat,
)
    requires
        j <= a.len(),
        j <= b.len(),
        a.take(j as int) == b.take(j as int),
    ensures
        messages_after(a, all, current, j) == messages_after(b, all, current, j),
        context_after(a, all, current, j) == context_after(b, all, current, j),
    decreases j,
{
    if j > 0 {
        assert(a.take(j - 1) =~= a.take(j as int).take(j - 1));
        assert(b.take(j - 1) =~= b.take(j as int).take(j - 1));
        assert(a[j - 1] == a.take(j as int)[j - 1]);
        assert(b[j - 1] == b.take(j as int)[j - 1]);
        lemma_prefix_only(a, b, all, current, (j - 1) as nat);
    }
}

proof fn lemma_without_turn_len(events: Seq<NativeSessionEvent>, t: Seq<char>)
    ensures
        without_turn(events, t).len() <= events.len(),
    decreases events.len(),
{
    if events.len() > 0 {
        lemma_without_turn_len(events.drop_last(), t);
    }
}

/// Step by step over the kept events, the messages and tool contexts so
/// far equal those of the kept events without turn `t` so far, judged
/// against the log without turn `t`.
proof fn lemma_without_turn_messages(
    kept: Seq<NativeSessionEvent>,
    events: Seq<NativeSessionEvent>,
    t: Seq<char>,
    current: Seq<char>,
    k: nat,
)
    requires
        k <= kept.len(),
        t != current,
        !turn_completed(events, t),
    ensures
        ({
            let w = without_turn(events, t);
            let wk = without_turn(kept.take(k as int), t);
            &&& messages_after(kept, events, current, k) == messages_after(
                wk,
                w,
                current,
                wk.len(),
            )
            &&& context_after(kept, events, current, k) == context_after(wk, w, current, wk.len())
        }),
    decreases k,
{
    let w = without_turn(events, t);
    let wk = without_turn(kept.take(k as int), t);
    lemma_inclusion_kept(events, t, current);
    if k > 0 {
        lemma_without_turn_messages(kept, events, t, current, (k - 1) as nat);
        let prev = kept.take(k - 1);
        let wp = without_turn(prev, t);
        let e = kept[k - 1];
        assert(kept.take(k as int).drop_last() =~= prev);
        assert(kept.take(k as int).last() == e);
        lemma_without_turn_len(prev, t);
        if event_turn(e) == Some(t) {
            assert(wk == wp);
            assert(!included_turn(events, current, t));
        } else {
            assert(wk == wp.push(e));
            assert(wk.take(wp.len() as int) =~= wp.take(wp.len() as int));
            lemma_prefix_only(wk, wp, w, current, wp.len());
            assert(wp.take(wp.len() as int) =~= wp);
            assert(wk[wk.len() - 1] == e);
        }
    }
}

/// A log with no event of turn `t` is its own log without `t`.
proof fn lemma_without_absent_turn(events: Seq<NativeSessionEvent>, t: Seq<char>)
    requires
        forall|i: int| 0 <= i < events.len() ==> event_turn(#[trigger] events[i]) != Some(t),
    ensures
        without_turn(events, t) == events,
    decreases events.len(),
{
    if events.len() > 0 {
        let p = events.drop_last();
        assert forall|i: int| 0 <= i < p.len() implies event_turn(#[trigger] p[i]) != Some(t) by {
            assert(p[i] == events[i]);
        }
        lemma_without_absent_turn(p, t);
        assert(event_turn(events[events.len() - 1]) != Some(t));
        assert(p.push(events.last()) =~= events);
    }
}

/// When turn `t` has no event before position `s`, removing it keeps the
/// first `s` events and removes it from the rest.
proof fn lemma_without_turn_split(events: Seq<NativeSessionEvent>, t: Seq<char>, s: int)
    requires
        0 <= s <= events.len(),
        forall|i: int| 0 <= i < s ==> event_turn(#[trigger] events[i]) != Some(t),
    ensures
        without_turn(events, t) == events.take(s) + without_turn(events.skip(s), t),
    decreases events.len(),
{
    if events.len() == s {
        assert forall|i: int| 0 <= i < events.len() implies event_turn(#[trigger] events[i])
            != Some(t) by {}
        lemma_without_absent_turn(events, t);
        assert(events.take(s) =~= events);
        assert(events.skip(s) =~= Seq::<NativeSessionEvent>::empty());
        assert(events.take(s) + seq![] =~= events.take(s));
    } else {
        let p = events.drop_last();
        assert forall|i: int| 0 <= i < s implies event_turn(#[trigger] p[i]) != Some(t) by {
            assert(p[i] == events[i]);
        }
        lemma_without_turn_split(p, t, s);
        assert(p.take(s) =~= events.take(s));
        assert(events.skip(s).drop_last() =~= p.skip(s));
        assert(events.skip(s).last() == events.last());
        let rest = without_turn(p.skip(s), t);
        if event_turn(events.last()) != Some(t) {
            assert(events.take(s) + rest.push(events.last()) =~= (events.take(s) + rest).push(
                events.last(),
            ));
        }
    }
}

/// The newest checkpoint is at `cp` exactly when `cp` holds one and no
/// later event does.
proof fn lemma_newest_checkpoint_at(events: Seq<NativeSessionEvent>, cp: int)
    ensures
        newest_checkpoint(events) == Some(cp) <==> (0 <= cp < events.len()
            && events[cp] is CompactionCheckpoint && forall|i: int|
            cp < i < events.len() ==> !(#[trigger] events[i] is CompactionCheckpoint)),
    decreases events.len(),
{
    if events.len() > 0 {
        let p = events.drop_last();
        lemma_newest_checkpoint_at(p, cp);
        if 0 <= cp < events.len() - 1 {
            assert forall|i: int| cp < i < p.len() implies (#[trigger] p[i] is CompactionCheckpoint)
                == (events[i] is CompactionCheckpoint) by {
                assert(p[i] == events[i]);
            }
            assert(p[cp] == events[cp]);
            if !(events.last() is CompactionCheckpoint) && (forall|i: int|
                cp < i < p.len() ==> !(#[trigger] p[i] is CompactionCheckpoint)) {
                assert forall|i: int| cp < i < events.len() implies !(
                #[trigger] events[i] is CompactionCheckpoint) by {
                    if i < p.len() {
                        assert(p[i] == events[i]);
                    }
                }
            }
            if events.last() is CompactionCheckpoint {
                assert(events[events.len() - 1] is CompactionCheckpoint);
            }
        }
    }
}

/// Turn `t`'s events all come after the newest checkpoint and within the
/// events it keeps.
pub open spec fn after_compaction(events: Seq<NativeSessionEvent>, t: Seq<char>) -> bool {
    forall|i: int|
        0 <= i < events.len() && event_turn(#[trigger] events[i]) == Some(t) ==> match newest_checkpoint(
            events,
        ) {
            Some(cp) => cp < i && kept_start(events) <= i,
            None => true,
        }
}

/// An earlier turn that did not complete (it failed, was cancelled, or
/// never finished) contributes nothing to provider context: when its events
/// come after the newest compaction checkpoint and within the events it
/// keeps, removing all of them leaves the provider messages for the
/// current turn as they were.
pub proof fn law_incomplete_prior_turns_add_no_context(
    events: Seq<NativeSessionEvent>,
    current: Seq<char>,
    turn: Seq<char>,
)
    requires
        turn != current,
        !turn_completed(events, turn),
        after_compaction(events, turn),
    ensures
        provider_messages_view(events, current) == provider_messages_view(
            without_turn(events, turn),
            current,
        ),
{
    let w = without_turn(events, turn);
    if forall|i: int| 0 <= i < events.len() ==> event_turn(#[trigger] events[i]) != Some(turn) {
        lemma_without_absent_turn(events, turn);
        return;
    }
    let p = choose|p: int| 0 <= p < events.len() && event_turn(#[trigger] events[p]) == Some(turn);
    let ks = kept_start(events);
    let s = match newest_checkpoint(events) {
        Some(cp) => if cp + 1 >= ks {
            cp + 1
        } else {
            ks
        },
        None => 0,
    };
    assert(0 <= s <= p) by {
        lemma_newest_checkpoint_at(events, newest_checkpoint(events).unwrap_or(0));
        if newest_checkpoint(events) is Some {
            assert(after_compaction(events, turn));
        }
    }
    assert forall|i: int| 0 <= i < s implies event_turn(#[trigger] events[i]) != Some(turn) by {
        if event_turn(events[i]) == Some(turn) {
            assert(after_compaction(events, turn));
        }
    }
    lemma_without_turn_split(events, turn, s);
    let rest = without_turn(events.skip(s), turn);
    assert(w == events.take(s) + rest);
    lemma_without_turn_len(events.skip(s), turn);
    lemma_without_turn_members(events.skip(s), turn);
    match newest_checkpoint(events) {
        Some(cp) => {
            lemma_newest_checkpoint_at(events, cp);
            lemma_newest_checkpoint_at(w, cp);
            assert(w[cp] == events[cp]);
            assert forall|i: int| cp < i < w.len() implies !(
            #[trigger] w[i] is CompactionCheckpoint) by {
                if i < s {
                    assert(w[i] == events[i]);
                } else {
                    assert(w[i] == rest[i - s]);
                    assert(rest.contains(rest[i - s]));
                    assert(events.skip(s).contains(w[i]));
                    let j = choose|j: int| 0 <= j < events.skip(s).len() && events.skip(s)[j]
                        == w[i];
                    assert(events[s + j] == w[i]);
                }
            }
            assert(newest_checkpoint(w) == Some(cp));
            assert(kept_start(w) == ks);
            let kept = events.subrange(ks, events.len() as int);
            lemma_without_turn_split(kept, turn, s - ks);
            assert(kept.take(s - ks) =~= events.subrange(ks, s));
            assert(kept.skip(s - ks) =~= events.skip(s));
            assert(w.subrange(ks, w.len() as int) =~= without_turn(kept, turn));
            lemma_without_turn_messages(kept, events, turn, current, kept.len());
            assert(kept.take(kept.len() as int) =~= kept);
        },
        None => {
            assert(s == 0);
            lemma_no_checkpoint_of(events);
            assert(events.skip(0) =~= events);
            lemma_without_turn_members(events, turn);
            assert forall|i: int| 0 <= i < w.len() implies !(
            #[trigger] w[i] is CompactionCheckpoint) by {
                assert(w.contains(w[i]));
                let j = choose|j: int| 0 <= j < events.len() && events[j] == w[i];
            }
            lemma_no_checkpoint(w);
            lemma_without_turn_messages(events, events, turn, current, events.len());
            assert(events.take(events.len() as int) =~= events);
            assert(events.subrange(0, events.len() as int) =~= events);
            assert(w.subrange(0, w.len() as int) =~= w);
        },
    }
}

/// A log whose newest checkpoint is none has no checkpoint at all.
proof fn lemma_no_checkpoint_of(events: Seq<NativeSessionEvent>)
    requires
        newest_checkpoint(events) is None,
    ensures
        forall|i: int| 0 <= i < events.len() ==> !(#[trigger] events[i] is CompactionCheckpoint),
    decreases events.len(),
{
    if events.len() > 0 {
        lemma_no_checkpoint_of(events.drop_last());
        assert forall|i: int| 0 <= i < events.len() implies !(
        #[trigger] events[i] is CompactionCheckpoint) by {
            if i < events.len() - 1 {
                assert(events.drop_last()[i] == events[i]);
            }
        }
    }
}

proof fn lemma_no_checkpoint(events: Seq<NativeSessionEvent>)
    requires
        forall|i: int| 0 <= i < events.len() ==> !(#[trigger] events[i] is CompactionCheckpoint),
    ensures
        newest_checkpoint(events) is None,
    decreases events.len(),
{
    if events.len() > 0 {
        let p = events.drop_last();
        assert forall|i: int| 0 <= i < p.len() implies !(#[trigger] p[i] is CompactionCheckpoint) by {
            assert(p[i] == events[i]);
        }
        lemma_no_checkpoint(p);
        assert(!(events[events.len() - 1] is CompactionCheckpoint));
    }
}

// ---------------------------------------------------------------------------
// Evidence events
// ---------------------------------------------------------------------------

/// Events that record evidence about a turn rather than its conversation:
/// metrics, static context, permission decisions and edit traces and
/// transactions.
pub open spec fn is_evidence(e: NativeSessionEvent) -> bool {
    ||| e is MetricRecorded
    ||| e is StaticContextIncluded
    ||| e is PermissionDecisionRecorded
    ||| e is EditTraceRecorded
    ||| e is EditTransactionPrepared
    ||| e is EditTransactionFinished
}

/// The events without evidence events, in order.
pub open spec fn without_evidence(events: Seq<NativeSessionEvent>) -> Seq<NativeSessionEvent>
    decreases events.len(),
{
    if events.len() == 0 {
        seq![]
    } else {
        let rest = without_evidence(events.drop_last());
        if is_evidence(events.last()) {
            rest
        } else {
            rest.push(events.last())
        }
    }
}

proof fn lemma_without_evidence_members(events: Seq<NativeSessionEvent>)
    ensures
        forall|e: NativeSessionEvent|
            #[trigger] without_evidence(events).contains(e) <==> (events.contains(e)
                && !is_evidence(e)),
        without_evidence(events).len() <= events.len(),
    decreases events.len(),
{
    if events.len() > 0 {
        let prefix = events.drop_last();
        lemma_without_evidence_members(prefix);
        assert forall|e: NativeSessionEvent|
            #[trigger] without_evidence(events).contains(e) <==> (events.contains(e)
                && !is_evidence(e)) by {
            if events.contains(e) {
                let i = choose|i: int| 0 <= i < events.len() && events[i] == e;
                if i < events.len() - 1 {
                    assert(prefix[i] == e);
                    assert(prefix.contains(e));
                }
            }
            if prefix.contains(e) {
                let i = choose|i: int| 0 <= i < prefix.len() && prefix[i] == e;
                assert(events[i] == e);
            }
            let w = without_evidence(prefix);
            if !is_evidence(events.last()) {
                let wp = w.push(events.last());
                if w.contains(e) {
                    let i = choose|i: int| 0 <= i < w.len() && w[i] == e;
                    assert(wp[i] == e);
                }
                if wp.contains(e) {
                    let i = choose|i: int| 0 <= i < wp.len() && wp[i] == e;
                    if i < w.len() {
                        assert(w[i] == e);
                    }
                }
                assert(wp[wp.len() - 1] == events.last());
            }
            assert(events[events.len() - 1] == events.last());
        }
    }
}

/// Dropping evidence events leaves every turn's inclusion as it was.
proof fn lemma_evidence_inclusion_kept(events: Seq<NativeSessionEvent>, current: Seq<char>)
    ensures
        forall|u: Seq<char>|
            #[trigger] included_turn(without_evidence(events), current, u) == included_turn(
                events,
                current,
                u,
            ),
{
    let w = without_evidence(events);
    lemma_without_evidence_members(events);
    assert forall|u: Seq<char>|
        #[trigger] included_turn(w, current, u) == included_turn(events, current, u) by {
        lemma_completed_iff_contains(events, u);
        lemma_completed_iff_contains(w, u);
        if turn_completed(events, u) {
            let e = choose|e: NativeSessionEvent| #[trigger] events.contains(e) && completes_turn(e, u);
            assert(w.contains(e));
        }
        if turn_completed(w, u) {
            let e = choose|e: NativeSessionEvent| #[trigger] w.contains(e) && completes_turn(e, u);
            assert(events.contains(e));
        }
    }
}

/// Step by step over the log, the messages and tool contexts so far equal
/// those of the log without evidence so far.
proof fn lemma_without_evidence_messages(events: Seq<NativeSessionEvent>, current: Seq<char>, k: nat)
    requires
        k <= events.len(),
    ensures
        ({
            let w = without_evidence(events);
            let wk = without_evidence(events.take(k as int));
            &&& messages_after(events, events, current, k) == messages_after(
                wk,
                w,
                current,
                wk.len(),
            )
            &&& context_after(events, events, current, k) == context_after(wk, w, current, wk.len())
        }),
    decreases k,
{
    let w = without_evidence(events);
    let wk = without_evidence(events.take(k as int));
    lemma_evidence_inclusion_kept(events, current);
    if k > 0 {
        lemma_without_evidence_messages(events, current, (k - 1) as nat);
        let prev = events.take(k - 1);
        let wp = without_evidence(prev);
        let e = events[k - 1];
        assert(events.take(k as int).drop_last() =~= prev);
        assert(events.take(k as int).last() == e);
        lemma_without_evidence_members(prev);
        if is_evidence(e) {
            assert(wk == wp);
        } else {
            assert(wk == wp.push(e));
            assert(wk.take(wp.len() as int) =~= wp.take(wp.len() as int));
            lemma_prefix_only(wk, wp, w, current, wp.len());
            assert(wp.take(wp.len() as int) =~= wp);
            assert(wk[wk.len() - 1] == e);
        }
    }
}

/// A checkpoint-free log yields the messages of its events without
/// evidence.
proof fn lemma_evidence_free_messages(events: Seq<NativeSessionEvent>, current: Seq<char>)
    requires
        forall|i: int| 0 <= i < events.len() ==> !(#[trigger] events[i] is CompactionCheckpoint),
    ensures
        provider_messages_view(events, current) == provider_messages_view(
            without_evidence(events),
            current,
        ),
{
    let w = without_evidence(events);
    lemma_no_checkpoint(events);
    lemma_without_evidence_members(events);
    assert forall|i: int| 0 <= i < w.len() implies !(#[trigger] w[i] is CompactionCheckpoint) by {
        assert(w.contains(w[i]));
        let j = choose|j: int| 0 <= j < events.len() && events[j] == w[i];
    }
    lemma_no_checkpoint(w);
    lemma_without_evidence_messages(events, current, events.len());
    assert(events.take(events.len() as int) =~= events);
    assert(events.subrange(0, events.len() as int) =~= events);
    assert(w.subrange(0, w.len() as int) =~= w);
}

/// Evidence never reaches provider context: two logs without compaction
/// checkpoints that differ only in metric, static-context, permission or
/// edit events (inserted or removed anywhere) yield the same provider
/// messages for every turn.
pub proof fn law_evidence_adds_no_context(
    log: Seq<NativeSessionEvent>,
    other: Seq<NativeSessionEvent>,
    current: Seq<char>,
)
    requires
        forall|i: int| 0 <= i < log.len() ==> !(#[trigger] log[i] is CompactionCheckpoint),
        forall|i: int| 0 <= i < other.len() ==> !(#[trigger] other[i] is CompactionCheckpoint),
        without_evidence(log) == without_evidence(other),
    ensures
        provider_messages_view(log, current) == provider_messages_view(other, current),
{
    lemma_evidence_free_messages(log, current);
    lemma_evidence_free_messages(other, current);
}

/// After a compaction, provider context for every turn opens with the
/// compaction's summary: as long as no later compaction happened, the first
/// provider message is the summary frame of that checkpoint, whatever was
/// logged after it.
pub proof fn law_compaction_summary_opens_context(
    events: Seq<NativeSessionEvent>,
    cp: int,
    current: Seq<char>,
)
    requires
        0 <= cp < events.len(),
        events[cp] is CompactionCheckpoint,
        forall|i: int| cp < i < events.len() ==> !(#[trigger] events[i] is CompactionCheckpoint),
    ensures
        provider_messages_view(events, current).len() >= 1,
        provider_messages_view(events, current)[0] == compaction_summary_view(
            events[cp]->CompactionCheckpoint_summary@,
        ),
{
    lemma_newest_checkpoint_at(events, cp);
}

/// The messages of the first `k` kept events begin the messages of the
/// first `n`, for `k <= n`.
proof fn lemma_messages_after_prefix(
    kept: Seq<NativeSessionEvent>,
    all: Seq<NativeSessionEvent>,
    current: Seq<char>,
    k: nat,
    n: nat,
)
    requires
        k <= n <= kept.len(),
    ensures
        messages_after(kept, all, current, k).len() <= messages_after(kept, all, current, n).len(),
        messages_after(kept, all, current, k) =~= messages_after(kept, all, current, n).subrange(
            0,
            messages_after(kept, all, current, k).len() as int,
        ),
    decreases n - k,
{
    if k < n {
        lemma_messages_after_prefix(kept, all, current, k, (n - 1) as nat);
    }
}

/// `m` is a tool message whose JSON object reports `outcome` as its status
/// and `reason` as its reason.
pub open spec fn reports_tool_outcome(
    m: MessageView,
    outcome: NativeToolOutcome,
    reason: Option<Seq<char>>,
) -> bool {
    &&& m.role == NativeRole::Tool
    &&& exists|fields: Seq<(Seq<char>, JsonValueView)>|
        #![trigger json_object_text(fields)]
        m.content == json_object_text(fields) && fields.len() == 5 && fields[2] == (
            "status"@,
            JsonValueView::Text(tool_outcome_label(outcome)),
        ) && fields[3] == ("reason"@, optional_text(reason))
}

/// Every finished tool call that provider context keeps is reported with
/// its own outcome: a kept `ToolExecutionFinished` of the current turn or
/// of a completed turn yields a tool message in the rebuilt context whose
/// `status` is that call's outcome (`completed`, `failed`, `denied`,
/// `cancelled` or `validation_failed`) and whose `reason` is its reason.
pub proof fn law_tool_messages_report_their_own_outcome(
    events: Seq<NativeSessionEvent>,
    current: Seq<char>,
    j: int,
)
    requires
        kept_start(events) <= j < events.len(),
        events[j] is ToolExecutionFinished,
        included_turn(events, current, events[j]->ToolExecutionFinished_turn_id.0@),
    ensures
        exists|idx: int|
            0 <= idx < provider_messages_view(events, current).len() && reports_tool_outcome(
                #[trigger] provider_messages_view(events, current)[idx],
                events[j]->ToolExecutionFinished_outcome,
                opt_view(events[j]->ToolExecutionFinished_reason),
            ),
{
    let s = kept_start(events);
    let kept = events.subrange(s, events.len() as int);
    let k = (j - s + 1) as nat;
    assert(kept[k - 1] == events[j]);
    let before = messages_after(kept, events, current, (k - 1) as nat);
    let upto = messages_after(kept, events, current, k);
    let m = upto.last();
    assert(upto.len() == before.len() + 1);
    let o = events[j]->ToolExecutionFinished_outcome;
    let r = opt_view(events[j]->ToolExecutionFinished_reason);
    assert(reports_tool_outcome(m, o, r)) by {
        let found = lookup_tool_context_of(kept, events, current, k);
        let content = events[j]->ToolExecutionFinished_result_content;
        match content {
            Some(c) => {
                let fields = seq![
                    ("tool_name"@, JsonValueView::Text(found.0)),
                    ("arguments"@, crate::provider_context::optional_payload(found.1)),
                    ("status"@, JsonValueView::Text(tool_outcome_label(o))),
                    ("reason"@, optional_text(r)),
                    ("content"@, crate::provider_context::payload_value(c@)),
                ];
                assert(m.content == json_object_text(fields));
            },
            None => {
                let fields = seq![
                    ("tool_name"@, JsonValueView::Text(found.0)),
                    ("arguments"@, crate::provider_context::optional_payload(found.1)),
                    ("status"@, JsonValueView::Text(tool_outcome_label(o))),
                    ("reason"@, optional_text(r)),
                    (
                        "content"@,
                        JsonValueView::Text(
                            crate::provider_context::not_retained_note(
                                events[j]->ToolExecutionFinished_result_summary,
                            ),
                        ),
                    ),
                ];
                assert(m.content == json_object_text(fields));
            },
        }
    }
    lemma_messages_after_prefix(kept, events, current, k, kept.len());
    let all_msgs = messages_after(kept, events, current, kept.len());
    let pm = provider_messages_view(events, current);
    let head_len = pm.len() - all_msgs.len();
    let idx = head_len + upto.len() - 1;
    assert(all_msgs[upto.len() - 1] == m);
    assert(pm[idx] == m);
}

/// The tool name and arguments the rebuilt context shows for the finished
/// call at kept position `k - 1`.
spec fn lookup_tool_context_of(
    kept: Seq<NativeSessionEvent>,
    all: Seq<NativeSessionEvent>,
    current: Seq<char>,
    k: nat,
) -> (Seq<char>, Option<Seq<char>>) {
    match crate::provider_context::lookup_tool_context(
        context_after(kept, all, current, (k - 1) as nat),
        kept[k - 1]->ToolExecutionFinished_tool_request_id.0@,
    ) {
        Some(c) => (c.name, c.arguments),
        None => ("tool"@, None),
    }
}

} // verus!
