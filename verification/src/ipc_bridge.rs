//! The bridge between the connection and the terminal panes.
//!
//! Inbound, server output waits in a queue that is bounded in events and in
//! bytes, and is drained in batches in which each pane's runs of output are
//! joined. A queue that reaches a bound joins its own runs first, and only then
//! drops its oldest events; the panes that lost some are repaired by a fresh
//! screen from the server. Prompt marks, viewport snaps and scrollback trims
//! keep their place in their pane's stream.
//!
//! Outbound, [`IpcSink`] is an ordered queue of its own: a keystroke never waits
//! behind output, and a resize always goes ahead of the keys typed after it.

use std::collections::VecDeque;

use vstd::prelude::*;

use crate::protocol::{
    AutomationAction, ClientMessage, Opaque, PromptMarkKind, SessionId, TerminalSize, WindowId,
    WorkspaceId,
};

verus! {

/// The most events that one batch holds.
pub const MAX_BATCH_EVENTS: usize = 100;

/// How long a batch goes on collecting, in microseconds.
pub const BATCH_WINDOW_MICROS: u64 = 4_000;

/// The most events that the inbound queue holds.
pub const INBOUND_QUEUE_EVENTS: usize = 256;

/// The most bytes of output that the inbound queue holds. A single event that is
/// larger than this is still admitted, onto an emptied queue.
pub const INBOUND_QUEUE_BYTES: usize = 4_194_304;

/// How long a pane that lost events may wait for the queue to run empty before
/// its fresh screen is asked for anyway, in microseconds.
pub const RESYNC_MAX_DELAY_MICROS: u64 = 2_000_000;

/// Something that happens to one pane.
#[derive(Debug, PartialEq, Eq)]
pub enum InboundEvent {
    /// Bytes of output.
    PaneOutput { session_id: SessionId, bytes: Vec<u8> },
    /// A shell prompt mark at the place that the output has reached.
    PromptMark { session_id: SessionId, kind: PromptMarkKind, exit_code: Option<i32> },
    /// The viewport snaps to the live bottom.
    ScrollBottom { session_id: SessionId },
    /// The scrollback is cut down to the newest rows.
    TrimScrollback { session_id: SessionId, kept_rows: usize },
}

/// One operation that a batch applies to a pane.
#[derive(Debug, PartialEq, Eq)]
pub enum PaneOp {
    /// Bytes of output.
    Output(Vec<u8>),
    /// A shell prompt mark, at the place that the output before it has reached.
    PromptMark { kind: PromptMarkKind, exit_code: Option<i32> },
    /// Snap the viewport to the live bottom.
    ScrollBottom,
    /// Cut the scrollback down to the newest rows.
    TrimScrollback { kept_rows: usize },
}

/// What a [`PaneOp`] amounts to.
#[verifier::ext_equal]
pub enum OpModel {
    Output(Seq<u8>),
    PromptMark { kind: PromptMarkKind, exit_code: Option<i32> },
    ScrollBottom,
    TrimScrollback { kept_rows: usize },
}

/// An operation and the pane that it is for: what an event amounts to, and an
/// entry of a batch.
#[verifier::ext_equal]
pub struct Entry {
    pub session: SessionId,
    pub op: OpModel,
}

impl View for PaneOp {
    type V = OpModel;

    open spec fn view(&self) -> OpModel {
        match *self {
            PaneOp::Output(bytes) => OpModel::Output(bytes@),
            PaneOp::PromptMark { kind, exit_code } => OpModel::PromptMark { kind, exit_code },
            PaneOp::ScrollBottom => OpModel::ScrollBottom,
            PaneOp::TrimScrollback { kept_rows } => OpModel::TrimScrollback { kept_rows },
        }
    }
}

impl View for InboundEvent {
    type V = Entry;

    open spec fn view(&self) -> Entry {
        match *self {
            InboundEvent::PaneOutput { session_id, bytes } => Entry {
                session: session_id,
                op: OpModel::Output(bytes@),
            },
            InboundEvent::PromptMark { session_id, kind, exit_code } => Entry {
                session: session_id,
                op: OpModel::PromptMark { kind, exit_code },
            },
            InboundEvent::ScrollBottom { session_id } => Entry {
                session: session_id,
                op: OpModel::ScrollBottom,
            },
            InboundEvent::TrimScrollback { session_id, kept_rows } => Entry {
                session: session_id,
                op: OpModel::TrimScrollback { kept_rows },
            },
        }
    }
}

/// What a run of events amounts to.
pub open spec fn models(events: Seq<InboundEvent>) -> Seq<Entry> {
    Seq::new(events.len(), |i: int| events[i]@)
}

/// What the entries of a batch amount to.
pub open spec fn entry_models(entries: Seq<(SessionId, PaneOp)>) -> Seq<Entry> {
    Seq::new(entries.len(), |i: int| Entry { session: entries[i].0, op: entries[i].1@ })
}

/// The place of a pane's newest entry; -1 where it has none.
pub open spec fn last_of(entries: Seq<Entry>, pane: SessionId) -> int
    decreases entries.len(),
{
    if entries.len() == 0 {
        -1
    } else if entries.last().session == pane {
        entries.len() - 1
    } else {
        last_of(entries.drop_last(), pane)
    }
}

/// Entries with one more: output joins the pane's newest entry where that is
/// output too, and anything else becomes an entry of its own.
pub open spec fn absorb(entries: Seq<Entry>, next: Entry) -> Seq<Entry> {
    let k = last_of(entries, next.session);
    if next.op is Output && k >= 0 && entries[k].op is Output {
        entries.update(
            k,
            Entry {
                session: next.session,
                op: OpModel::Output(entries[k].op->Output_0 + next.op->Output_0),
            },
        )
    } else {
        entries.push(next)
    }
}

/// Events with each pane's unbroken runs of output joined, each run standing
/// where it began.
pub open spec fn coalesced(events: Seq<Entry>) -> Seq<Entry>
    decreases events.len(),
{
    if events.len() == 0 {
        Seq::empty()
    } else {
        absorb(coalesced(events.drop_last()), events.last())
    }
}

/// The entries of one pane.
pub open spec fn of_pane(entries: Seq<Entry>, pane: SessionId) -> Seq<Entry>
    decreases entries.len(),
{
    if entries.len() == 0 {
        Seq::empty()
    } else if entries.last().session == pane {
        of_pane(entries.drop_last(), pane).push(entries.last())
    } else {
        of_pane(entries.drop_last(), pane)
    }
}

/// The entries that are not output.
pub open spec fn positional(entries: Seq<Entry>) -> Seq<Entry>
    decreases entries.len(),
{
    if entries.len() == 0 {
        Seq::empty()
    } else if entries.last().op is Output {
        positional(entries.drop_last())
    } else {
        positional(entries.drop_last()).push(entries.last())
    }
}

/// Every byte that a pane is sent, in order.
pub open spec fn pane_bytes(entries: Seq<Entry>, pane: SessionId) -> Seq<u8>
    decreases entries.len(),
{
    if entries.len() == 0 {
        Seq::empty()
    } else if entries.last().session == pane && entries.last().op is Output {
        pane_bytes(entries.drop_last(), pane) + entries.last().op->Output_0
    } else {
        pane_bytes(entries.drop_last(), pane)
    }
}

/// The bytes of output in one entry.
pub open spec fn payload(entry: Entry) -> nat {
    match entry.op {
        OpModel::Output(bytes) => bytes.len(),
        _ => 0,
    }
}

/// The bytes of output in a run of entries.
pub open spec fn total_payload(entries: Seq<Entry>) -> nat
    decreases entries.len(),
{
    if entries.len() == 0 {
        0
    } else {
        total_payload(entries.drop_last()) + payload(entries.last())
    }
}

proof fn last_of_bounds(entries: Seq<Entry>, pane: SessionId)
    ensures
        -1 <= last_of(entries, pane) < entries.len(),
        last_of(entries, pane) >= 0 ==> entries[last_of(entries, pane)].session == pane,
        forall|i: int|
            last_of(entries, pane) < i < entries.len() ==> (#[trigger] entries[i]).session != pane,
    decreases entries.len(),
{
    if entries.len() > 0 && entries.last().session != pane {
        last_of_bounds(entries.drop_last(), pane);
        assert forall|i: int| last_of(entries, pane) < i < entries.len() implies (
        #[trigger] entries[i]).session != pane by {
            if i < entries.len() - 1 {
                assert(entries[i] == entries.drop_last()[i]);
            }
        }
    }
}

proof fn last_of_unique(entries: Seq<Entry>, pane: SessionId, k: int)
    requires
        -1 <= k < entries.len(),
        k >= 0 ==> entries[k].session == pane,
        forall|i: int| k < i < entries.len() ==> (#[trigger] entries[i]).session != pane,
    ensures
        last_of(entries, pane) == k,
{
    last_of_bounds(entries, pane);
    let l = last_of(entries, pane);
    if l > k {
        assert(entries[l].session != pane);
    }
    if l < k {
        assert(entries[k].session != pane);
    }
}

/// A batch in which each pane's runs of output are joined.
#[derive(Debug, PartialEq, Eq)]
pub struct CoalescedBatch {
    entries: Vec<(SessionId, PaneOp)>,
}

impl View for CoalescedBatch {
    type V = Seq<Entry>;

    closed spec fn view(&self) -> Seq<Entry> {
        entry_models(self.entries@)
    }
}

impl CoalescedBatch {
    /// Whether the batch touches no pane.
    pub fn is_empty(&self) -> (r: bool)
        ensures
            r == (self@.len() == 0),
    {
        self.entries.len() == 0
    }

    /// The operations in the order in which they apply.
    pub fn iter(&self) -> (r: &[(SessionId, PaneOp)])
        ensures
            entry_models(r@) == self@,
    {
        self.entries.as_slice()
    }

    /// The operations in the order in which they apply.
    pub fn into_entries(self) -> (r: Vec<(SessionId, PaneOp)>)
        ensures
            entry_models(r@) == self@,
    {
        self.entries
    }
}

/// The place of a pane's newest entry, where it has one.
fn newest_entry(entries: &Vec<(SessionId, PaneOp)>, pane: SessionId) -> (r: Option<usize>)
    ensures
        r == if last_of(entry_models(entries@), pane) < 0 {
            None
        } else {
            Some(last_of(entry_models(entries@), pane) as usize)
        },
        r matches Some(k) ==> k < entries@.len() && k == last_of(entry_models(entries@), pane),
{
    let mut i: usize = entries.len();
    while i > 0
        invariant
            i <= entries@.len(),
            forall|j: int| i <= j < entries@.len() ==> (#[trigger] entries@[j]).0 != pane,
        decreases i,
    {
        i -= 1;
        if entries[i].0 == pane {
            proof {
                let m = entry_models(entries@);
                assert forall|j: int| i < j < m.len() implies (#[trigger] m[j]).session != pane by {
                    assert(entries@[j].0 != pane);
                }
                last_of_unique(m, pane, i as int);
            }
            return Some(i);
        }
    }
    proof {
        let m = entry_models(entries@);
        assert forall|j: int| -1 < j < m.len() implies (#[trigger] m[j]).session != pane by {
            assert(entries@[j].0 != pane);
        }
        last_of_unique(m, pane, -1);
    }
    None
}

/// Joins `bytes` to the pane's newest entry where that is output, or makes them
/// an entry of their own.
fn append_pane_output(
    entries: &mut Vec<(SessionId, PaneOp)>,
    session_id: SessionId,
    bytes: Vec<u8>,
)
    ensures
        entry_models(final(entries)@) == absorb(
            entry_models(old(entries)@),
            Entry { session: session_id, op: OpModel::Output(bytes@) },
        ),
{
    let ghost before = entry_models(entries@);
    let ghost next = Entry { session: session_id, op: OpModel::Output(bytes@) };
    proof {
        last_of_bounds(before, session_id);
    }
    if let Some(k) = newest_entry(entries, session_id) {
        if let PaneOp::Output(buffered) = &mut entries[k].1 {
            let mut tail = bytes;
            buffered.append(&mut tail);
            proof {
                assert(entry_models(entries@) =~= absorb(before, next));
            }
            return;
        }
    }
    entries.push((session_id, PaneOp::Output(bytes)));
    proof {
        assert(entry_models(entries@) =~= before.push(next));
    }
}

/// Joins each pane's unbroken runs of output; anything else keeps its place.
pub fn coalesce(events: Vec<InboundEvent>) -> (r: CoalescedBatch)
    ensures
        r@ == coalesced(models(events@)),
{
    let ghost all = models(events@);
    let ghost given = events@;
    let mut entries: Vec<(SessionId, PaneOp)> = Vec::new();
    proof {
        assert(all.take(0) =~= Seq::<Entry>::empty());
        assert(entry_models(entries@) =~= Seq::<Entry>::empty());
    }
    for event in it: events
        invariant
            it.seq() == given,
            all == models(given),
            entry_models(entries@) == coalesced(all.take(it.index() as int)),
    {
        let ghost i = it.index() as int;
        let ghost before = entry_models(entries@);
        proof {
            assert(all.take(i + 1).drop_last() =~= all.take(i));
            assert(all.take(i + 1).last() == event@);
        }
        match event {
            InboundEvent::PaneOutput { session_id, bytes } => {
                append_pane_output(&mut entries, session_id, bytes);
            },
            InboundEvent::PromptMark { session_id, kind, exit_code } => {
                entries.push((session_id, PaneOp::PromptMark { kind, exit_code }));
                proof {
                    assert(entry_models(entries@) =~= before.push(all[i]));
                }
            },
            InboundEvent::ScrollBottom { session_id } => {
                entries.push((session_id, PaneOp::ScrollBottom));
                proof {
                    assert(entry_models(entries@) =~= before.push(all[i]));
                }
            },
            InboundEvent::TrimScrollback { session_id, kept_rows } => {
                entries.push((session_id, PaneOp::TrimScrollback { kept_rows }));
                proof {
                    assert(entry_models(entries@) =~= before.push(all[i]));
                }
            },
        }
    }
    proof {
        assert(all.take(given.len() as int) =~= all);
    }
    CoalescedBatch { entries }
}

// ---- What coalescing keeps ----

proof fn of_pane_members(s: Seq<Entry>, pane: SessionId)
    ensures
        forall|i: int|
            0 <= i < of_pane(s, pane).len() ==> (#[trigger] of_pane(s, pane)[i]).session == pane,
        of_pane(s, pane).len() == 0 <==> last_of(s, pane) == -1,
        last_of(s, pane) >= 0 ==> of_pane(s, pane).last() == s[last_of(s, pane)],
        last_of(of_pane(s, pane), pane) == of_pane(s, pane).len() - 1,
    decreases s.len(),
{
    last_of_bounds(s, pane);
    if s.len() > 0 {
        of_pane_members(s.drop_last(), pane);
        last_of_bounds(s.drop_last(), pane);
    }
}

proof fn of_pane_update(s: Seq<Entry>, k: int, x: Entry, pane: SessionId)
    requires
        0 <= k < s.len(),
        k == last_of(s, x.session),
    ensures
        of_pane(s.update(k, x), pane) == if pane == x.session {
            of_pane(s, pane).update(of_pane(s, pane).len() - 1, x)
        } else {
            of_pane(s, pane)
        },
    decreases s.len(),
{
    last_of_bounds(s, x.session);
    of_pane_members(s, pane);
    let t = s.update(k, x);
    if k == s.len() - 1 {
        assert(t.drop_last() =~= s.drop_last());
        assert(of_pane(t, pane) =~= if pane == x.session {
            of_pane(s, pane).update(of_pane(s, pane).len() - 1, x)
        } else {
            of_pane(s, pane)
        });
    } else {
        last_of_bounds(s.drop_last(), x.session);
        of_pane_members(s.drop_last(), pane);
        of_pane_update(s.drop_last(), k, x, pane);
        assert(t.drop_last() =~= s.drop_last().update(k, x));
    }
}

proof fn of_pane_absorb(s: Seq<Entry>, next: Entry, pane: SessionId)
    ensures
        of_pane(absorb(s, next), pane) == if next.session == pane {
            absorb(of_pane(s, pane), next)
        } else {
            of_pane(s, pane)
        },
{
    last_of_bounds(s, next.session);
    of_pane_members(s, pane);
    let k = last_of(s, next.session);
    if next.op is Output && k >= 0 && s[k].op is Output {
        let x = Entry {
            session: next.session,
            op: OpModel::Output(s[k].op->Output_0 + next.op->Output_0),
        };
        of_pane_update(s, k, x, pane);
    } else {
        assert(s.push(next).drop_last() =~= s);
    }
}

/// Coalescing treats each pane as if it were alone: what a pane receives depends
/// on its own events only, and they keep their order.
pub proof fn coalescing_keeps_panes_apart(events: Seq<Entry>, pane: SessionId)
    ensures
        of_pane(coalesced(events), pane) == coalesced(of_pane(events, pane)),
    decreases events.len(),
{
    if events.len() > 0 {
        let s = coalesced(events.drop_last());
        coalescing_keeps_panes_apart(events.drop_last(), pane);
        of_pane_absorb(s, events.last(), pane);
        if events.last().session == pane {
            assert(of_pane(events, pane).drop_last() =~= of_pane(events.drop_last(), pane));
        }
    }
}

proof fn update_keeps(s: Seq<Entry>, k: int, x: Entry, tail: Seq<u8>, pane: SessionId)
    requires
        0 <= k < s.len(),
        k == last_of(s, x.session),
        s[k].op is Output,
        x.op == OpModel::Output(s[k].op->Output_0 + tail),
    ensures
        total_payload(s.update(k, x)) == total_payload(s) + tail.len(),
        positional(s.update(k, x)) == positional(s),
        pane_bytes(s.update(k, x), pane) == if pane == x.session {
            pane_bytes(s, pane) + tail
        } else {
            pane_bytes(s, pane)
        },
    decreases s.len(),
{
    last_of_bounds(s, x.session);
    let t = s.update(k, x);
    if k == s.len() - 1 {
        assert(t.drop_last() =~= s.drop_last());
        assert(pane_bytes(t, pane) =~= if pane == x.session {
            pane_bytes(s, pane) + tail
        } else {
            pane_bytes(s, pane)
        });
    } else {
        last_of_bounds(s.drop_last(), x.session);
        update_keeps(s.drop_last(), k, x, tail, pane);
        assert(t.drop_last() =~= s.drop_last().update(k, x));
    }
}

proof fn absorb_keeps(s: Seq<Entry>, next: Entry, pane: SessionId)
    ensures
        s.len() <= absorb(s, next).len() <= s.len() + 1,
        total_payload(absorb(s, next)) == total_payload(s) + payload(next),
        positional(absorb(s, next)) == if next.op is Output {
            positional(s)
        } else {
            positional(s).push(next)
        },
        pane_bytes(absorb(s, next), pane) == if next.op is Output && pane == next.session {
            pane_bytes(s, pane) + next.op->Output_0
        } else {
            pane_bytes(s, pane)
        },
{
    last_of_bounds(s, next.session);
    let k = last_of(s, next.session);
    if next.op is Output && k >= 0 && s[k].op is Output {
        let x = Entry {
            session: next.session,
            op: OpModel::Output(s[k].op->Output_0 + next.op->Output_0),
        };
        update_keeps(s, k, x, next.op->Output_0, pane);
    } else {
        assert(s.push(next).drop_last() =~= s);
    }
}

/// Coalescing loses nothing: every pane is sent the same bytes in the same
/// order, everything that is not output survives in order, and there are never
/// more entries than events.
pub proof fn coalescing_loses_nothing(events: Seq<Entry>, pane: SessionId)
    ensures
        pane_bytes(coalesced(events), pane) == pane_bytes(events, pane),
        positional(coalesced(events)) == positional(events),
        total_payload(coalesced(events)) == total_payload(events),
        coalesced(events).len() <= events.len(),
        events.len() > 0 ==> coalesced(events).len() > 0,
    decreases events.len(),
{
    if events.len() > 0 {
        coalescing_loses_nothing(events.drop_last(), pane);
        absorb_keeps(coalesced(events.drop_last()), events.last(), pane);
        last_of_bounds(coalesced(events.drop_last()), events.last().session);
    }
}

/// No entry of output follows an entry of output of the same pane.
spec fn runs_joined(s: Seq<Entry>) -> bool {
    forall|i: int|
        0 <= i < s.len() && (#[trigger] s[i]).op is Output ==> {
            let l = last_of(s.take(i), s[i].session);
            l < 0 || !(s[l].op is Output)
        }
}

proof fn last_of_same_sessions(a: Seq<Entry>, b: Seq<Entry>, pane: SessionId)
    requires
        a.len() == b.len(),
        forall|i: int| 0 <= i < a.len() ==> (#[trigger] a[i]).session == b[i].session,
    ensures
        last_of(a, pane) == last_of(b, pane),
{
    last_of_bounds(a, pane);
    let k = last_of(a, pane);
    assert forall|i: int| k < i < b.len() implies (#[trigger] b[i]).session != pane by {
        assert(a[i].session != pane);
    }
    if k >= 0 {
        assert(a[k].session == b[k].session);
    }
    last_of_unique(b, pane, k);
}

proof fn absorb_joins_runs(s: Seq<Entry>, next: Entry)
    requires
        runs_joined(s),
    ensures
        runs_joined(absorb(s, next)),
{
    last_of_bounds(s, next.session);
    let t = absorb(s, next);
    let k = last_of(s, next.session);
    assert forall|i: int| 0 <= i < t.len() && (#[trigger] t[i]).op is Output implies ({
        let l = last_of(t.take(i), t[i].session);
        l < 0 || !(t[l].op is Output)
    }) by {
        if t.len() == s.len() {
            assert(s[i].op is Output);
            last_of_same_sessions(s.take(i), t.take(i), t[i].session);
            last_of_bounds(s.take(i), s[i].session);
        } else if i < s.len() {
            assert(t.take(i) =~= s.take(i));
            assert(s[i].op is Output);
            last_of_bounds(s.take(i), s[i].session);
        } else {
            assert(t.take(i) =~= s);
        }
    }
}

proof fn coalesced_runs_joined(events: Seq<Entry>)
    ensures
        runs_joined(coalesced(events)),
    decreases events.len(),
{
    if events.len() > 0 {
        coalesced_runs_joined(events.drop_last());
        absorb_joins_runs(coalesced(events.drop_last()), events.last());
    }
}

proof fn joined_is_coalesced(s: Seq<Entry>)
    requires
        runs_joined(s),
    ensures
        coalesced(s) == s,
    decreases s.len(),
{
    if s.len() > 0 {
        let d = s.drop_last();
        assert forall|i: int| 0 <= i < d.len() && (#[trigger] d[i]).op is Output implies ({
            let l = last_of(d.take(i), d[i].session);
            l < 0 || !(d[l].op is Output)
        }) by {
            assert(s[i].op is Output);
            assert(d.take(i) =~= s.take(i));
            last_of_bounds(s.take(i), s[i].session);
        }
        joined_is_coalesced(d);
        assert(s.take(s.len() - 1) =~= d);
        last_of_bounds(d, s.last().session);
        let last = s[s.len() - 1];
        assert(d.push(s.last()) =~= s);
    } else {
        assert(coalesced(s) =~= s);
    }
}

/// Coalescing what is already coalesced changes nothing: the queue and the
/// drain cannot disagree about the order.
pub proof fn coalescing_is_idempotent(events: Seq<Entry>)
    ensures
        coalesced(coalesced(events)) == coalesced(events),
{
    coalesced_runs_joined(events);
    joined_is_coalesced(coalesced(events));
}

/// The panes of a run of events, in the order in which they are first seen.
pub open spec fn first_seen(events: Seq<Entry>) -> Seq<SessionId>
    decreases events.len(),
{
    if events.len() == 0 {
        Seq::empty()
    } else {
        with_pane(first_seen(events.drop_last()), events.last().session)
    }
}

/// A list of panes with one more, where it is not in the list yet.
pub open spec fn with_pane(panes: Seq<SessionId>, pane: SessionId) -> Seq<SessionId> {
    if panes.contains(pane) {
        panes
    } else {
        panes.push(pane)
    }
}

/// A batch of nothing but output collapses to one entry for each pane, in the
/// order in which the panes are first seen.
pub proof fn output_collapses_per_pane(events: Seq<Entry>)
    requires
        forall|i: int| 0 <= i < events.len() ==> (#[trigger] events[i]).op is Output,
    ensures
        first_seen(events).no_duplicates(),
        coalesced(events).len() == first_seen(events).len(),
        forall|i: int|
            0 <= i < coalesced(events).len() ==> (#[trigger] coalesced(events)[i]).op is Output
                && coalesced(events)[i].session == first_seen(events)[i],
    decreases events.len(),
{
    if events.len() > 0 {
        let d = events.drop_last();
        assert forall|i: int| 0 <= i < d.len() implies (#[trigger] d[i]).op is Output by {
            assert(d[i] == events[i]);
        }
        output_collapses_per_pane(d);
        let s = coalesced(d);
        let f = first_seen(d);
        let next = events.last();
        assert(next == events[events.len() - 1]);
        last_of_bounds(s, next.session);
        let k = last_of(s, next.session);
        if k >= 0 {
            assert(f[k] == s[k].session);
            assert(f.contains(next.session));
        } else if f.contains(next.session) {
            let j = choose|j: int| 0 <= j < f.len() && f[j] == next.session;
            assert(s[j].session == f[j]);
            assert(false);
        }
    }
}

// ---- The bounded queue ----

/// The event that a batch entry came from.
fn rehydrate(entry: (SessionId, PaneOp)) -> (r: InboundEvent)
    ensures
        r@ == (Entry { session: entry.0, op: entry.1@ }),
{
    let (session_id, op) = entry;
    match op {
        PaneOp::Output(bytes) => InboundEvent::PaneOutput { session_id, bytes },
        PaneOp::PromptMark { kind, exit_code } => {
            InboundEvent::PromptMark { session_id, kind, exit_code }
        },
        PaneOp::ScrollBottom => InboundEvent::ScrollBottom { session_id },
        PaneOp::TrimScrollback { kept_rows } => {
            InboundEvent::TrimScrollback { session_id, kept_rows }
        },
    }
}

/// The bytes of output in an event.
pub fn payload_bytes(event: &InboundEvent) -> (r: usize)
    ensures
        r == payload(event@),
{
    match event {
        InboundEvent::PaneOutput { bytes, .. } => bytes.len(),
        InboundEvent::PromptMark { .. } => 0,
        InboundEvent::ScrollBottom { .. } => 0,
        InboundEvent::TrimScrollback { .. } => 0,
    }
}

/// The pane that an event belongs to.
pub fn event_session(event: &InboundEvent) -> (r: SessionId)
    ensures
        r == event@.session,
{
    match event {
        InboundEvent::PaneOutput { session_id, .. } => *session_id,
        InboundEvent::PromptMark { session_id, .. } => *session_id,
        InboundEvent::ScrollBottom { session_id } => *session_id,
        InboundEvent::TrimScrollback { session_id, .. } => *session_id,
    }
}

/// Appends a pane to a list that does not hold it yet.
fn note_pane(panes: &mut Vec<SessionId>, pane: SessionId)
    ensures
        final(panes)@ == with_pane(old(panes)@, pane),
{
    let mut i: usize = 0;
    while i < panes.len()
        invariant
            i <= panes@.len(),
            forall|j: int| 0 <= j < i ==> panes@[j] != pane,
        decreases panes@.len() - i,
    {
        if panes[i] == pane {
            proof {
                assert(panes@.contains(pane));
            }
            return;
        }
        i += 1;
    }
    panes.push(pane);
}

/// Whether the queue has room for `incoming` more bytes in one more event.
pub open spec fn has_room(queue: Seq<Entry>, incoming: nat) -> bool {
    queue.len() < INBOUND_QUEUE_EVENTS && total_payload(queue) + incoming <= INBOUND_QUEUE_BYTES
}

/// How many of the oldest events must go before the rest has room for
/// `incoming` more bytes.
pub open spec fn evictions(queue: Seq<Entry>, incoming: nat) -> nat
    decreases queue.len(),
{
    if queue.len() == 0 || has_room(queue, incoming) {
        0
    } else {
        1 + evictions(queue.skip(1), incoming)
    }
}

/// A list of panes with those of the given entries that it does not hold yet.
pub open spec fn with_panes(panes: Seq<SessionId>, entries: Seq<Entry>) -> Seq<SessionId>
    decreases entries.len(),
{
    if entries.len() == 0 {
        panes
    } else {
        with_pane(with_panes(panes, entries.drop_last()), entries.last().session)
    }
}

proof fn total_payload_skip(s: Seq<Entry>)
    requires
        s.len() > 0,
    ensures
        total_payload(s) == payload(s[0]) + total_payload(s.skip(1)),
    decreases s.len(),
{
    if s.len() > 1 {
        total_payload_skip(s.drop_last());
        assert(s.drop_last().skip(1) =~= s.skip(1).drop_last());
    } else {
        assert(s.drop_last() =~= Seq::<Entry>::empty());
        assert(s.skip(1) =~= Seq::<Entry>::empty());
        assert(total_payload(s.drop_last()) == 0);
    }
}

proof fn evictions_bounds(queue: Seq<Entry>, incoming: nat)
    ensures
        evictions(queue, incoming) <= queue.len(),
        evictions(queue, incoming) < queue.len() ==> has_room(
            queue.skip(evictions(queue, incoming) as int),
            incoming,
        ),
    decreases queue.len(),
{
    if queue.len() == 0 || has_room(queue, incoming) {
        assert(queue.skip(0) =~= queue);
    } else {
        evictions_bounds(queue.skip(1), incoming);
        let n = evictions(queue.skip(1), incoming);
        assert(queue.skip(1).skip(n as int) =~= queue.skip((1 + n) as int));
    }
}

proof fn with_panes_distinct(panes: Seq<SessionId>, entries: Seq<Entry>)
    requires
        panes.no_duplicates(),
    ensures
        with_panes(panes, entries).no_duplicates(),
    decreases entries.len(),
{
    if entries.len() > 0 {
        with_panes_distinct(panes, entries.drop_last());
    }
}

/// Every pane that lost an event is in the list, and nothing leaves the list.
proof fn with_panes_contains(panes: Seq<SessionId>, entries: Seq<Entry>)
    ensures
        forall|p: SessionId| panes.contains(p) ==> with_panes(panes, entries).contains(p),
        forall|i: int|
            0 <= i < entries.len() ==> with_panes(panes, entries).contains(
                (#[trigger] entries[i]).session,
            ),
    decreases entries.len(),
{
    if entries.len() > 0 {
        let d = entries.drop_last();
        with_panes_contains(panes, d);
        let before = with_panes(panes, d);
        let last = entries.last().session;
        assert forall|p: SessionId| before.contains(p) implies with_pane(before, last).contains(
            p,
        ) by {
            let j = choose|j: int| 0 <= j < before.len() && before[j] == p;
            assert(with_pane(before, last)[j] == p);
        }
        if !before.contains(last) {
            assert(with_pane(before, last)[before.len() as int] == last);
        }
        assert forall|i: int| 0 <= i < entries.len() implies with_panes(panes, entries).contains(
            (#[trigger] entries[i]).session,
        ) by {
            if i < entries.len() - 1 {
                assert(d[i] == entries[i]);
            }
        }
    }
}

/// What the drain sees when it looks at the queue once.
#[derive(Debug, PartialEq, Eq)]
pub enum InboundPoll {
    Event(InboundEvent),
    Empty,
    Closed,
}

/// The drain is gone, so nothing more can be queued.
#[derive(Debug, Clone, Copy, PartialEq, Eq, Structural)]
pub struct InboundClosed;

impl InboundClosed {
    /// The message for the log.
    pub fn message(&self) -> (r: &'static str)
        ensures
            r@ == "inbound drain closed"@,
    {
        "inbound drain closed"
    }
}

/// The bounded inbound queue: its events, oldest first, the panes whose events
/// it dropped, and who holds its two ends.
#[derive(Debug)]
pub struct InboundState {
    events: VecDeque<InboundEvent>,
    bytes: usize,
    dropped: Vec<SessionId>,
    senders: usize,
    receiver_alive: bool,
    coalesce_stalled: bool,
}

impl InboundState {
    /// The queued events, oldest first.
    pub closed spec fn queue(&self) -> Seq<Entry> {
        models(self.events@)
    }

    /// The panes that lost events since the drain last asked.
    pub closed spec fn dropped_panes(&self) -> Seq<SessionId> {
        self.dropped@
    }

    /// How many producers there are.
    pub closed spec fn sender_count(&self) -> nat {
        self.senders as nat
    }

    /// Whether the drain is still there.
    pub closed spec fn is_open(&self) -> bool {
        self.receiver_alive
    }

    /// Whether the last pass over the backlog could not shrink it.
    pub closed spec fn stalled(&self) -> bool {
        self.coalesce_stalled
    }

    /// The queue holds at most [`INBOUND_QUEUE_EVENTS`] events and
    /// [`INBOUND_QUEUE_BYTES`] bytes of output, or else a single event; the count
    /// of its bytes is exact; and no pane is listed twice as having lost events.
    pub closed spec fn wf(&self) -> bool {
        &&& self.bytes == total_payload(self.queue())
        &&& self.queue().len() <= INBOUND_QUEUE_EVENTS
        &&& total_payload(self.queue()) <= INBOUND_QUEUE_BYTES || self.queue().len() <= 1
        &&& self.dropped@.no_duplicates()
    }

    /// The bounds on memory, whatever was sent.
    pub proof fn bounded(&self)
        requires
            self.wf(),
        ensures
            self.queue().len() <= INBOUND_QUEUE_EVENTS,
            total_payload(self.queue()) <= INBOUND_QUEUE_BYTES || self.queue().len() <= 1,
            self.dropped_panes().no_duplicates(),
    {
    }

    /// An empty queue with one producer.
    pub fn new() -> (r: Self)
        ensures
            r.wf(),
            r.queue() == Seq::<Entry>::empty(),
            r.dropped_panes() == Seq::<SessionId>::empty(),
            r.sender_count() == 1,
            r.is_open(),
            !r.stalled(),
    {
        let r = InboundState {
            events: VecDeque::new(),
            bytes: 0,
            dropped: Vec::new(),
            senders: 1,
            receiver_alive: true,
            coalesce_stalled: false,
        };
        proof {
            assert(models(r.events@) =~= Seq::<Entry>::empty());
        }
        r
    }

    /// The backlog that `accept` starts from: coalesced where the queue is full,
    /// unless the last pass was of no use.
    pub open spec fn backlog(&self) -> Seq<Entry> {
        if self.queue().len() >= INBOUND_QUEUE_EVENTS && !self.stalled() {
            coalesced(self.queue())
        } else {
            self.queue()
        }
    }

    /// Queues an event. A full queue is coalesced; the oldest events go, where
    /// there is no room even so, and their panes are noted.
    pub fn accept(&mut self, event: InboundEvent)
        requires
            old(self).wf(),
        ensures
            final(self).wf(),
            ({
                let backlog = old(self).backlog();
                let n = evictions(backlog, payload(event@)) as int;
                &&& final(self).queue() == backlog.skip(n).push(event@)
                &&& final(self).dropped_panes() == with_panes(
                    old(self).dropped_panes(),
                    backlog.take(n),
                )
            }),
            final(self).stalled() == if old(self).queue().len() >= INBOUND_QUEUE_EVENTS
                && !old(self).stalled() {
                old(self).backlog().len() >= old(self).queue().len()
            } else {
                old(self).stalled()
            },
            final(self).sender_count() == old(self).sender_count(),
            final(self).is_open() == old(self).is_open(),
    {
        let incoming: usize = payload_bytes(&event);
        if self.events.len() >= INBOUND_QUEUE_EVENTS && !self.coalesce_stalled {
            let before: usize = self.events.len();
            self.recoalesce();
            self.coalesce_stalled = self.events.len() >= before;
        }
        let ghost backlog = self.queue();
        let ghost lost = self.dropped@;
        let ghost no_use = self.coalesce_stalled;
        let ghost n: int = 0;
        proof {
            assert(backlog.skip(0) =~= backlog);
            assert(backlog.take(0) =~= Seq::<Entry>::empty());
            with_panes_distinct(lost, backlog.take(0));
        }
        while self.events.len() >= INBOUND_QUEUE_EVENTS || self.bytes.saturating_add(incoming)
            > INBOUND_QUEUE_BYTES
            invariant
                0 <= n <= backlog.len(),
                self.queue() == backlog.skip(n),
                self.bytes == total_payload(self.queue()),
                self.dropped@ == with_panes(lost, backlog.take(n)),
                evictions(backlog, incoming as nat) == n + evictions(
                    self.queue(),
                    incoming as nat,
                ),
                self.senders == old(self).senders,
                self.receiver_alive == old(self).receiver_alive,
                self.coalesce_stalled == no_use,
                backlog.len() <= INBOUND_QUEUE_EVENTS,
            ensures
                self.queue().len() == 0 || has_room(self.queue(), incoming as nat),
            decreases self.queue().len(),
        {
            let ghost queue = self.queue();
            let evicted = match self.events.pop_front() {
                Some(evicted) => evicted,
                None => {
                    break;
                },
            };
            proof {
                total_payload_skip(queue);
                assert(models(self.events@) =~= queue.skip(1));
                assert(!has_room(queue, incoming as nat));
                assert(backlog.skip(n).skip(1) =~= backlog.skip(n + 1));
                assert(backlog.take(n + 1).drop_last() =~= backlog.take(n));
                assert(evicted@ == backlog[n]);
                n = n + 1;
            }
            self.bytes = self.bytes.saturating_sub(payload_bytes(&evicted));
            note_pane(&mut self.dropped, event_session(&evicted));
        }
        proof {
            with_panes_distinct(lost, backlog.take(n));
            evictions_bounds(backlog, incoming as nat);
        }
        self.bytes = self.bytes.saturating_add(incoming);
        let ghost kept = self.queue();
        self.events.push_back(event);
        proof {
            assert(self.queue() =~= kept.push(event@));
            assert(kept.push(event@).drop_last() =~= kept);
        }
    }

    /// Joins the runs of output in the backlog by the same rule as a batch.
    fn recoalesce(&mut self)
        requires
            old(self).wf(),
        ensures
            final(self).wf(),
            final(self).queue() == coalesced(old(self).queue()),
            final(self).dropped == old(self).dropped,
            final(self).senders == old(self).senders,
            final(self).receiver_alive == old(self).receiver_alive,
            final(self).coalesce_stalled == old(self).coalesce_stalled,
    {
        let ghost given = self.events@;
        let mut pending: Vec<InboundEvent> = Vec::new();
        let mut events: VecDeque<InboundEvent> = VecDeque::new();
        core::mem::swap(&mut self.events, &mut events);
        proof {
            assert(pending@ + events@ =~= given);
        }
        while events.len() > 0
            invariant
                pending@ + events@ == given,
            decreases events@.len(),
        {
            let ghost rest = events@;
            let ghost had = pending@;
            if let Some(event) = events.pop_front() {
                pending.push(event);
                proof {
                    assert(had.push(event) + rest.subrange(1, rest.len() as int) =~= had + rest);
                }
            }
        }
        proof {
            assert(pending@ =~= given);
        }
        let batch = coalesce(pending);
        let ghost joined = batch@;
        let entries = batch.into_entries();
        let ghost all = entries@;
        for entry in it: entries
            invariant
                it.seq() == all,
                joined == entry_models(all),
                models(self.events@) == joined.take(it.index() as int),
                self.bytes == old(self).bytes,
                self.dropped == old(self).dropped,
                self.senders == old(self).senders,
                self.receiver_alive == old(self).receiver_alive,
                self.coalesce_stalled == old(self).coalesce_stalled,
        {
            let ghost before = models(self.events@);
            let ghost i = it.index() as int;
            let event = rehydrate(entry);
            self.events.push_back(event);
            proof {
                assert(models(self.events@) =~= before.push(event@));
                assert(joined.take(i + 1) =~= joined.take(i).push(joined[i]));
            }
        }
        proof {
            assert(joined.take(joined.len() as int) =~= joined);
            coalescing_loses_nothing(models(given), SessionId { value: 0 });
        }
    }

    /// Takes the oldest event.
    pub fn take(&mut self) -> (r: Option<InboundEvent>)
        requires
            old(self).wf(),
        ensures
            final(self).wf(),
            match r {
                Some(event) => {
                    &&& old(self).queue().len() > 0
                    &&& event@ == old(self).queue()[0]
                    &&& final(self).queue() == old(self).queue().skip(1)
                    &&& final(self).stalled() == (old(self).stalled() && final(self).queue().len()
                        * 2 > INBOUND_QUEUE_EVENTS)
                },
                None => {
                    &&& old(self).queue().len() == 0
                    &&& final(self).queue() == old(self).queue()
                    &&& final(self).stalled() == old(self).stalled()
                },
            },
            final(self).dropped_panes() == old(self).dropped_panes(),
            final(self).sender_count() == old(self).sender_count(),
            final(self).is_open() == old(self).is_open(),
    {
        let ghost queue = self.queue();
        match self.events.pop_front() {
            None => None,
            Some(event) => {
                proof {
                    total_payload_skip(queue);
                    assert(models(self.events@) =~= queue.skip(1));
                }
                self.bytes = self.bytes.saturating_sub(payload_bytes(&event));
                if self.events.len() * 2 <= INBOUND_QUEUE_EVENTS {
                    self.coalesce_stalled = false;
                }
                Some(event)
            },
        }
    }

    /// Queues an event, unless the drain is gone.
    pub fn send(&mut self, event: InboundEvent) -> (r: Result<(), InboundClosed>)
        requires
            old(self).wf(),
        ensures
            final(self).wf(),
            r is Ok <==> old(self).is_open(),
            !old(self).is_open() ==> *final(self) == *old(self),
            old(self).is_open() ==> ({
                let backlog = old(self).backlog();
                let n = evictions(backlog, payload(event@)) as int;
                &&& final(self).queue() == backlog.skip(n).push(event@)
                &&& final(self).dropped_panes() == with_panes(
                    old(self).dropped_panes(),
                    backlog.take(n),
                )
                &&& final(self).stalled() == if old(self).queue().len() >= INBOUND_QUEUE_EVENTS
                    && !old(self).stalled() {
                    backlog.len() >= old(self).queue().len()
                } else {
                    old(self).stalled()
                }
                &&& final(self).sender_count() == old(self).sender_count()
                &&& final(self).is_open()
            }),
    {
        if !self.receiver_alive {
            return Err(InboundClosed);
        }
        self.accept(event);
        Ok(())
    }

    /// One more producer.
    pub fn add_sender(&mut self)
        requires
            old(self).wf(),
            old(self).sender_count() < usize::MAX,
        ensures
            final(self).wf(),
            final(self).sender_count() == old(self).sender_count() + 1,
            final(self).queue() == old(self).queue(),
            final(self).dropped_panes() == old(self).dropped_panes(),
            final(self).is_open() == old(self).is_open(),
            final(self).stalled() == old(self).stalled(),
    {
        self.senders = self.senders + 1;
    }

    /// One producer less; says whether that was the last.
    pub fn drop_sender(&mut self) -> (last: bool)
        requires
            old(self).wf(),
        ensures
            final(self).wf(),
            final(self).sender_count() == if old(self).sender_count() == 0 {
                0
            } else {
                (old(self).sender_count() - 1) as nat
            },
            last == (final(self).sender_count() == 0),
            final(self).queue() == old(self).queue(),
            final(self).dropped_panes() == old(self).dropped_panes(),
            final(self).is_open() == old(self).is_open(),
            final(self).stalled() == old(self).stalled(),
    {
        self.senders = self.senders.saturating_sub(1);
        self.senders == 0
    }

    /// The drain is gone, and with it what was queued.
    pub fn drop_receiver(&mut self)
        requires
            old(self).wf(),
        ensures
            final(self).wf(),
            !final(self).is_open(),
            final(self).queue() == Seq::<Entry>::empty(),
            final(self).dropped_panes() == old(self).dropped_panes(),
            final(self).sender_count() == old(self).sender_count(),
            final(self).stalled() == old(self).stalled(),
    {
        self.receiver_alive = false;
        self.events.clear();
        self.bytes = 0;
        proof {
            assert(models(self.events@) =~= Seq::<Entry>::empty());
        }
    }

    /// Looks at the queue once: the oldest event, or whether one can still come.
    pub fn poll_once(&mut self) -> (r: InboundPoll)
        requires
            old(self).wf(),
        ensures
            final(self).wf(),
            match r {
                InboundPoll::Event(event) => {
                    &&& old(self).queue().len() > 0
                    &&& event@ == old(self).queue()[0]
                    &&& final(self).queue() == old(self).queue().skip(1)
                    &&& final(self).stalled() == (old(self).stalled() && final(self).queue().len()
                        * 2 > INBOUND_QUEUE_EVENTS)
                },
                InboundPoll::Closed => {
                    &&& old(self).queue().len() == 0
                    &&& old(self).sender_count() == 0
                    &&& final(self).queue() == old(self).queue()
                    &&& final(self).stalled() == old(self).stalled()
                },
                InboundPoll::Empty => {
                    &&& old(self).queue().len() == 0
                    &&& old(self).sender_count() > 0
                    &&& final(self).queue() == old(self).queue()
                    &&& final(self).stalled() == old(self).stalled()
                },
            },
            final(self).dropped_panes() == old(self).dropped_panes(),
            final(self).sender_count() == old(self).sender_count(),
            final(self).is_open() == old(self).is_open(),
    {
        if let Some(event) = self.take() {
            return InboundPoll::Event(event);
        }
        if self.senders == 0 {
            return InboundPoll::Closed;
        }
        InboundPoll::Empty
    }

    /// How many events are queued.
    pub fn len(&self) -> (r: usize)
        ensures
            r == self.queue().len(),
    {
        self.events.len()
    }

    /// Whether the drain has caught up.
    pub fn is_empty(&self) -> (r: bool)
        ensures
            r == (self.queue().len() == 0),
    {
        self.events.len() == 0
    }

    /// How many bytes of output are queued.
    pub fn queued_bytes(&self) -> (r: usize)
        requires
            self.wf(),
        ensures
            r == total_payload(self.queue()),
    {
        self.bytes
    }

    /// Takes the panes that lost events since the last call.
    pub fn take_dropped(&mut self) -> (r: Vec<SessionId>)
        requires
            old(self).wf(),
        ensures
            final(self).wf(),
            r@ == old(self).dropped_panes(),
            final(self).dropped_panes() == Seq::<SessionId>::empty(),
            final(self).queue() == old(self).queue(),
            final(self).sender_count() == old(self).sender_count(),
            final(self).is_open() == old(self).is_open(),
            final(self).stalled() == old(self).stalled(),
    {
        let mut taken: Vec<SessionId> = Vec::new();
        core::mem::swap(&mut self.dropped, &mut taken);
        taken
    }
}

/// Nothing is lost unnoticed: admitting an event drops the oldest of the backlog
/// and no other, keeps the newest, and lists every pane that lost something.
pub proof fn drops_are_noted(backlog: Seq<Entry>, event: Entry, dropped: Seq<SessionId>)
    ensures
        ({
            let n = evictions(backlog, payload(event)) as int;
            let listed = with_panes(dropped, backlog.take(n));
            &&& 0 <= n <= backlog.len()
            &&& backlog.take(n) + backlog.skip(n) == backlog
            &&& forall|i: int| 0 <= i < n ==> listed.contains((#[trigger] backlog[i]).session)
            &&& forall|p: SessionId| dropped.contains(p) ==> listed.contains(p)
        }),
{
    evictions_bounds(backlog, payload(event));
    let n = evictions(backlog, payload(event)) as int;
    assert(backlog.take(n) + backlog.skip(n) =~= backlog);
    with_panes_contains(dropped, backlog.take(n));
    assert forall|i: int| 0 <= i < n implies with_panes(dropped, backlog.take(n)).contains(
        (#[trigger] backlog[i]).session,
    ) by {
        assert(backlog.take(n)[i] == backlog[i]);
    }
}

/// An event is only ever dropped from a queue that has no room for the new one.
pub proof fn nothing_drops_while_there_is_room(backlog: Seq<Entry>, event: Entry)
    requires
        has_room(backlog, payload(event)),
    ensures
        evictions(backlog, payload(event)) == 0,
{
}

// ---- Repairing the panes that lost events ----

/// The panes that are owed a fresh screen, and since when.
#[derive(Debug)]
pub struct PendingResync {
    sessions: Vec<SessionId>,
    since: Option<u64>,
}

/// The list of panes with another list folded in, each pane once.
pub open spec fn merged(panes: Seq<SessionId>, more: Seq<SessionId>) -> Seq<SessionId>
    decreases more.len(),
{
    if more.len() == 0 {
        panes
    } else {
        with_pane(merged(panes, more.drop_last()), more.last())
    }
}

proof fn merged_distinct(panes: Seq<SessionId>, more: Seq<SessionId>)
    requires
        panes.no_duplicates(),
    ensures
        merged(panes, more).no_duplicates(),
    decreases more.len(),
{
    if more.len() > 0 {
        merged_distinct(panes, more.drop_last());
    }
}

impl PendingResync {
    /// The panes that are owed a fresh screen.
    pub closed spec fn owed(&self) -> Seq<SessionId> {
        self.sessions@
    }

    /// When the oldest debt arose.
    pub closed spec fn since(&self) -> Option<u64> {
        self.since
    }

    /// No pane is owed twice.
    pub closed spec fn wf(&self) -> bool {
        self.sessions@.no_duplicates()
    }

    /// Nothing owed.
    pub fn new() -> (r: Self)
        ensures
            r.wf(),
            r.owed() == Seq::<SessionId>::empty(),
            r.since() is None,
    {
        PendingResync { sessions: Vec::new(), since: None }
    }

    /// Whether the debts are to be paid now: the queue has run empty, or the
    /// oldest debt has waited for [`RESYNC_MAX_DELAY_MICROS`].
    pub open spec fn is_due(since: u64, queue_empty: bool, now: u64) -> bool {
        queue_empty || now - since >= RESYNC_MAX_DELAY_MICROS
    }

    /// Notes the panes that the queue dropped events of, and gives the panes to
    /// ask a fresh screen for at the time `now`, in microseconds.
    pub fn settle(&mut self, dropped: Vec<SessionId>, queue_empty: bool, now: u64) -> (r: Vec<
        SessionId,
    >)
        requires
            old(self).wf(),
        ensures
            final(self).wf(),
            r@.no_duplicates(),
            ({
                let owed = merged(old(self).owed(), dropped@);
                let since = if old(self).since() is Some {
                    old(self).since()->0
                } else {
                    now
                };
                if owed.len() == 0 {
                    &&& r@.len() == 0
                    &&& final(self).owed() == owed
                    &&& final(self).since() == old(self).since()
                } else if Self::is_due(since, queue_empty, now) {
                    &&& r@ == owed
                    &&& final(self).owed() == Seq::<SessionId>::empty()
                    &&& final(self).since() is None
                } else {
                    &&& r@.len() == 0
                    &&& final(self).owed() == owed
                    &&& final(self).since() == Some(since)
                }
            }),
    {
        let mut i: usize = 0;
        proof {
            assert(dropped@.take(0) =~= Seq::<SessionId>::empty());
        }
        while i < dropped.len()
            invariant
                i <= dropped@.len(),
                self.sessions@ == merged(old(self).owed(), dropped@.take(i as int)),
                self.since == old(self).since,
            decreases dropped@.len() - i,
        {
            note_pane(&mut self.sessions, dropped[i]);
            i += 1;
            proof {
                assert(dropped@.take(i as int).drop_last() =~= dropped@.take(i - 1));
            }
        }
        proof {
            assert(dropped@.take(dropped@.len() as int) =~= dropped@);
            merged_distinct(old(self).owed(), dropped@);
        }
        let mut due: Vec<SessionId> = Vec::new();
        if self.sessions.len() == 0 {
            return due;
        }
        let since: u64 = match self.since {
            Some(since) => since,
            None => now,
        };
        self.since = Some(since);
        if !queue_empty && now.saturating_sub(since) < RESYNC_MAX_DELAY_MICROS {
            return due;
        }
        core::mem::swap(&mut self.sessions, &mut due);
        self.since = None;
        due
    }
}

// ---- Collecting a batch ----

/// A batch, and whether the queue closed while it was being collected.
#[derive(Debug)]
pub struct BatchWindow {
    pub batch: Vec<InboundEvent>,
    pub channel_closed: bool,
}

/// A batch that is being collected.
#[derive(Debug)]
pub struct OpenBatch {
    batch: Vec<InboundEvent>,
    deadline: u64,
}

/// What became of a wait for the next event.
#[derive(Debug)]
pub enum BatchStep {
    /// An event came.
    Event(InboundEvent),
    /// The queue is drained and every producer is gone.
    Closed,
    /// The time was up first.
    TimedOut,
}

/// Whether a batch goes on.
#[derive(Debug)]
pub enum BatchProgress {
    /// It still collects.
    Open(OpenBatch),
    /// It is complete.
    Done(BatchWindow),
}

impl OpenBatch {
    /// The events so far.
    pub closed spec fn events(&self) -> Seq<InboundEvent> {
        self.batch@
    }

    /// When the window closes.
    pub closed spec fn deadline(&self) -> u64 {
        self.deadline
    }

    /// A batch holds at least its first event and never more than
    /// [`MAX_BATCH_EVENTS`].
    pub closed spec fn wf(&self) -> bool {
        0 < self.batch@.len() <= MAX_BATCH_EVENTS
    }

    /// A batch that starts with `first` at the time `now`, in microseconds.
    pub fn start(first: InboundEvent, now: u64) -> (r: Self)
        ensures
            r.wf(),
            r.events() == seq![first],
            r.deadline() == if now + BATCH_WINDOW_MICROS > u64::MAX {
                u64::MAX as int
            } else {
                now + BATCH_WINDOW_MICROS
            },
    {
        let mut batch: Vec<InboundEvent> = Vec::new();
        batch.push(first);
        OpenBatch { batch, deadline: now.saturating_add(BATCH_WINDOW_MICROS) }
    }

    /// How long to wait for the next event at the time `now`; `None` once the
    /// batch is full or its window is over.
    pub fn remaining(&self, now: u64) -> (r: Option<u64>)
        ensures
            r == if self.events().len() < MAX_BATCH_EVENTS && now < self.deadline() {
                Some((self.deadline() - now) as u64)
            } else {
                None
            },
    {
        if self.batch.len() < MAX_BATCH_EVENTS && now < self.deadline {
            Some(self.deadline - now)
        } else {
            None
        }
    }

    /// Goes on after a wait that was in order.
    pub fn step(self, step: BatchStep) -> (r: BatchProgress)
        requires
            self.wf(),
            self.events().len() < MAX_BATCH_EVENTS,
        ensures
            match step {
                BatchStep::Event(event) => r matches BatchProgress::Open(open) && open.wf()
                    && open.events() == self.events().push(event) && open.deadline()
                    == self.deadline(),
                BatchStep::Closed => r matches BatchProgress::Done(window) && window.batch@
                    == self.events() && window.channel_closed,
                BatchStep::TimedOut => r matches BatchProgress::Done(window) && window.batch@
                    == self.events() && !window.channel_closed,
            },
    {
        let OpenBatch { batch, deadline } = self;
        match step {
            BatchStep::Event(event) => {
                let mut batch = batch;
                batch.push(event);
                BatchProgress::Open(OpenBatch { batch, deadline })
            },
            BatchStep::Closed => BatchProgress::Done(BatchWindow { batch, channel_closed: true }),
            BatchStep::TimedOut => {
                BatchProgress::Done(BatchWindow { batch, channel_closed: false })
            },
        }
    }

    /// Ends a batch whose window is over or that is full.
    pub fn finish(self) -> (r: BatchWindow)
        requires
            self.wf(),
        ensures
            r.batch@ == self.events(),
            0 < r.batch@.len() <= MAX_BATCH_EVENTS,
            !r.channel_closed,
    {
        BatchWindow { batch: self.batch, channel_closed: false }
    }
}

// ---- The outbound queue ----

/// The writer is gone, so nothing more can be sent.
#[derive(Debug, Clone, Copy, PartialEq, Eq, Structural)]
pub struct SinkClosed;

impl SinkClosed {
    /// The message for the log.
    pub fn message(&self) -> (r: &'static str)
        ensures
            r@ == "IPC writer channel closed"@,
    {
        "IPC writer channel closed"
    }
}

/// Why a clipboard answer was not sent.
#[derive(Debug, Clone, Copy, PartialEq, Eq, Structural)]
pub enum ClipboardAnswerError {
    /// The message is not an answer about the clipboard.
    NotAnAnswer,
    /// The writer is gone.
    Closed,
}

/// What a viewer or a holder of a shared window asks for.
#[derive(Debug, Clone, Copy, PartialEq, Eq, Structural)]
pub enum ControlIntent {
    /// Take control.
    Claim { window_id: WindowId },
    /// Answer another participant's request for control.
    Grant { window_id: WindowId, participant_id: u64, accept: bool },
}

impl ControlIntent {
    /// The message that carries the intent.
    pub open spec fn message(self) -> ClientMessage {
        match self {
            ControlIntent::Claim { window_id } => ClientMessage::ControlClaim { window_id },
            ControlIntent::Grant { window_id, participant_id, accept } => {
                ClientMessage::ControlGrant { window_id, participant_id, accept }
            },
        }
    }

    /// The message that carries the intent.
    pub fn into_message(self) -> (r: ClientMessage)
        ensures
            r == self.message(),
    {
        match self {
            ControlIntent::Claim { window_id } => ClientMessage::ControlClaim { window_id },
            ControlIntent::Grant { window_id, participant_id, accept } => {
                ClientMessage::ControlGrant { window_id, participant_id, accept }
            },
        }
    }
}

/// A pane of a saved window, as the session that brings it back.
#[derive(Debug)]
pub struct RestoredSession {
    pub workspace_id: WorkspaceId,
    /// The size at which the pane is about to be shown.
    pub size: TerminalSize,
    pub cwd: Option<String>,
    /// The program to run in place of a login shell.
    pub command: Option<Vec<String>>,
    /// Names the saved environment.
    pub launch_id: String,
}

/// The outbound queue: messages leave it in the order in which they entered.
#[derive(Debug)]
pub struct IpcSink {
    outbox: VecDeque<ClientMessage>,
    writer_open: bool,
}

impl IpcSink {
    /// The messages that wait for the writer, oldest first.
    pub closed spec fn waiting(&self) -> Seq<ClientMessage> {
        self.outbox@
    }

    /// Whether the writer is still there.
    pub closed spec fn is_open(&self) -> bool {
        self.writer_open
    }

    /// What sending `message` does: it joins the queue behind everything else, or
    /// nothing happens because the writer is gone.
    pub open spec fn sends(
        before: IpcSink,
        message: ClientMessage,
        after: IpcSink,
        result: Result<(), SinkClosed>,
    ) -> bool {
        if before.is_open() {
            &&& result == Ok::<(), SinkClosed>(())
            &&& after.waiting() == before.waiting().push(message)
            &&& after.is_open()
        } else {
            &&& result == Err::<(), SinkClosed>(SinkClosed)
            &&& after == before
        }
    }

    /// An empty queue.
    pub fn new() -> (r: Self)
        ensures
            r.waiting() == Seq::<ClientMessage>::empty(),
            r.is_open(),
    {
        IpcSink { outbox: VecDeque::new(), writer_open: true }
    }

    fn enqueue(&mut self, message: ClientMessage) -> (r: Result<(), SinkClosed>)
        ensures
            IpcSink::sends(*old(self), message, *final(self), r),
    {
        if !self.writer_open {
            return Err(SinkClosed);
        }
        self.outbox.push_back(message);
        Ok(())
    }

    /// Hands the oldest message to the writer.
    pub fn take_next(&mut self) -> (r: Option<ClientMessage>)
        ensures
            match r {
                Some(message) => old(self).waiting().len() > 0 && message == old(self).waiting()[0]
                    && final(self).waiting() == old(self).waiting().skip(1),
                None => old(self).waiting().len() == 0 && final(self).waiting()
                    == old(self).waiting(),
            },
            final(self).is_open() == old(self).is_open(),
    {
        let ghost waiting = self.outbox@;
        let r = self.outbox.pop_front();
        proof {
            if waiting.len() > 0 {
                assert(waiting.subrange(1, waiting.len() as int) =~= waiting.skip(1));
            }
        }
        r
    }

    /// The writer is gone.
    pub fn close(&mut self)
        ensures
            !final(self).is_open(),
            final(self).waiting() == old(self).waiting(),
    {
        self.writer_open = false;
    }

    /// Sends the bytes of a key press.
    pub fn key_input(
        &mut self,
        session_id: SessionId,
        data: Vec<u8>,
        dismisses_attention: bool,
    ) -> (r: Result<(), SinkClosed>)
        ensures
            IpcSink::sends(
                *old(self),
                (ClientMessage::KeyInput {
                    session_id,
                    data,
                    dismisses_attention,
                }),
                *final(self),
                r,
            ),
    {
        self.enqueue(ClientMessage::KeyInput { session_id, data, dismisses_attention })
    }

    /// Sends a session's new size.
    pub fn resize(
        &mut self,
        session_id: SessionId,
        size: TerminalSize,
    ) -> (r: Result<(), SinkClosed>)
        ensures
            IpcSink::sends(
                *old(self),
                (ClientMessage::Resize { session_id, size }),
                *final(self),
                r,
            ),
    {
        self.enqueue(ClientMessage::Resize { session_id, size })
    }

    /// Says that the configuration was read again.
    pub fn config_reloaded(&mut self) -> (r: Result<(), SinkClosed>)
        ensures
            IpcSink::sends(*old(self), ClientMessage::ConfigReloaded, *final(self), r),
    {
        self.enqueue(ClientMessage::ConfigReloaded)
    }

    /// Asks for a new session in a workspace.
    pub fn create_session(
        &mut self,
        workspace_id: WorkspaceId,
        size: TerminalSize,
        cwd: Option<String>,
        command: Option<Vec<String>>,
    ) -> (r: Result<(), SinkClosed>)
        ensures
            IpcSink::sends(
                *old(self),
                (ClientMessage::CreateSession {
                    workspace_id,
                    split_direction: None,
                    cwd,
                    size: Some(size),
                    command,
                    env_envelope_id: None,
                }),
                *final(self),
                r,
            ),
    {
        self.enqueue(
            ClientMessage::CreateSession {
                workspace_id,
                split_direction: None,
                cwd,
                size: Some(size),
                command,
                env_envelope_id: None,
            },
        )
    }

    /// Asks for the session that brings back a saved pane, in its saved environment.
    pub fn create_restored_session(
        &mut self,
        request: RestoredSession,
    ) -> (r: Result<(), SinkClosed>)
        ensures
            IpcSink::sends(
                *old(self),
                (ClientMessage::CreateSession {
                    workspace_id: request.workspace_id,
                    split_direction: None,
                    cwd: request.cwd,
                    size: Some(request.size),
                    command: request.command,
                    env_envelope_id: Some(request.launch_id),
                }),
                *final(self),
                r,
            ),
    {
        self.enqueue(
            ClientMessage::CreateSession {
                workspace_id: request.workspace_id,
                split_direction: None,
                cwd: request.cwd,
                size: Some(request.size),
                command: request.command,
                env_envelope_id: Some(request.launch_id),
            },
        )
    }

    /// Attaches to sessions at the given sizes.
    pub fn attach_sessions(
        &mut self,
        session_ids: Vec<SessionId>,
        dimensions: Vec<TerminalSize>,
    ) -> (r: Result<(), SinkClosed>)
        ensures
            IpcSink::sends(
                *old(self),
                (ClientMessage::AttachSessions { session_ids, dimensions }),
                *final(self),
                r,
            ),
    {
        self.enqueue(ClientMessage::AttachSessions { session_ids, dimensions })
    }

    /// Subscribes to sessions.
    pub fn subscribe(&mut self, session_ids: Vec<SessionId>) -> (r: Result<(), SinkClosed>)
        ensures
            IpcSink::sends(
                *old(self),
                (ClientMessage::Subscribe { session_ids }),
                *final(self),
                r,
            ),
    {
        self.enqueue(ClientMessage::Subscribe { session_ids })
    }

    /// Asks for a session's whole screen.
    pub fn request_snapshot(&mut self, session_id: SessionId) -> (r: Result<(), SinkClosed>)
        ensures
            IpcSink::sends(
                *old(self),
                (ClientMessage::RequestSnapshot { session_id }),
                *final(self),
                r,
            ),
    {
        self.enqueue(ClientMessage::RequestSnapshot { session_id })
    }

    /// Asks to end a session.
    pub fn close_session(&mut self, session_id: SessionId) -> (r: Result<(), SinkClosed>)
        ensures
            IpcSink::sends(
                *old(self),
                (ClientMessage::CloseSession { session_id }),
                *final(self),
                r,
            ),
    {
        self.enqueue(ClientMessage::CloseSession { session_id })
    }

    /// Asks to search a session.
    pub fn search_request(
        &mut self,
        session_id: SessionId,
        query: String,
        limit: u32,
    ) -> (r: Result<(), SinkClosed>)
        ensures
            IpcSink::sends(
                *old(self),
                (ClientMessage::SearchRequest { session_id, query, limit }),
                *final(self),
                r,
            ),
    {
        self.enqueue(ClientMessage::SearchRequest { session_id, query, limit })
    }

    /// Asks for the notes of workspaces.
    pub fn workspace_notes_get(
        &mut self,
        workspace_ids: Vec<WorkspaceId>,
    ) -> (r: Result<(), SinkClosed>)
        ensures
            IpcSink::sends(
                *old(self),
                (ClientMessage::WorkspaceNotesGet { workspace_ids }),
                *final(self),
                r,
            ),
    {
        self.enqueue(ClientMessage::WorkspaceNotesGet { workspace_ids })
    }

    /// Asks for a new workspace.
    pub fn create_workspace(&mut self) -> (r: Result<(), SinkClosed>)
        ensures
            IpcSink::sends(*old(self), ClientMessage::CreateWorkspace, *final(self), r),
    {
        self.enqueue(ClientMessage::CreateWorkspace)
    }

    /// Says that a workspace is no longer shown.
    pub fn close_workspace(&mut self, workspace_id: WorkspaceId) -> (r: Result<(), SinkClosed>)
        ensures
            IpcSink::sends(
                *old(self),
                (ClientMessage::CloseWorkspace { workspace_id }),
                *final(self),
                r,
            ),
    {
        self.enqueue(ClientMessage::CloseWorkspace { workspace_id })
    }

    /// Says that a session lives in another workspace.
    pub fn move_session(
        &mut self,
        session_id: SessionId,
        target_workspace: WorkspaceId,
    ) -> (r: Result<(), SinkClosed>)
        ensures
            IpcSink::sends(
                *old(self),
                (ClientMessage::MoveSession { session_id, target_workspace }),
                *final(self),
                r,
            ),
    {
        self.enqueue(ClientMessage::MoveSession { session_id, target_workspace })
    }

    /// Publishes the window's split tree.
    pub fn report_workspace_tree(&mut self, tree: Opaque) -> (r: Result<(), SinkClosed>)
        ensures
            IpcSink::sends(
                *old(self),
                (ClientMessage::ReportWorkspaceTree { tree }),
                *final(self),
                r,
            ),
    {
        self.enqueue(ClientMessage::ReportWorkspaceTree { tree })
    }

    /// Asks for control of a shared window, or answers such a request.
    pub fn control_intent(&mut self, intent: ControlIntent) -> (r: Result<(), SinkClosed>)
        ensures
            IpcSink::sends(*old(self), intent.message(), *final(self), r),
    {
        self.enqueue(intent.into_message())
    }

    /// Asks to change notes.
    pub fn workspace_notes_mutate(&mut self, mutation: Opaque) -> (r: Result<(), SinkClosed>)
        ensures
            IpcSink::sends(
                *old(self),
                (ClientMessage::WorkspaceNotesMutate { mutation }),
                *final(self),
                r,
            ),
    {
        self.enqueue(ClientMessage::WorkspaceNotesMutate { mutation })
    }

    /// Confirms the pending update.
    pub fn trigger_update(&mut self) -> (r: Result<(), SinkClosed>)
        ensures
            IpcSink::sends(*old(self), ClientMessage::TriggerUpdate, *final(self), r),
    {
        self.enqueue(ClientMessage::TriggerUpdate)
    }

    /// Dismisses the pending update.
    pub fn dismiss_update(&mut self) -> (r: Result<(), SinkClosed>)
        ensures
            IpcSink::sends(*old(self), ClientMessage::DismissUpdate, *final(self), r),
    {
        self.enqueue(ClientMessage::DismissUpdate)
    }

    /// Asks to destroy a window and its sessions.
    pub fn close_window(&mut self, window_id: WindowId) -> (r: Result<(), SinkClosed>)
        ensures
            IpcSink::sends(
                *old(self),
                (ClientMessage::CloseWindow { window_id }),
                *final(self),
                r,
            ),
    {
        self.enqueue(ClientMessage::CloseWindow { window_id })
    }

    /// Asks every window to quit.
    pub fn quit_all(&mut self) -> (r: Result<(), SinkClosed>)
        ensures
            IpcSink::sends(*old(self), ClientMessage::QuitAll, *final(self), r),
    {
        self.enqueue(ClientMessage::QuitAll)
    }

    /// Asks for the list of windows.
    pub fn list_windows(&mut self) -> (r: Result<(), SinkClosed>)
        ensures
            IpcSink::sends(*old(self), ClientMessage::ListWindows, *final(self), r),
    {
        self.enqueue(ClientMessage::ListWindows)
    }

    /// Answers a device that awaits approval.
    pub fn lan_approval_decision(
        &mut self,
        request_id: u64,
        approve: bool,
    ) -> (r: Result<(), SinkClosed>)
        ensures
            IpcSink::sends(
                *old(self),
                (ClientMessage::LanApprovalDecision { request_id, approve }),
                *final(self),
                r,
            ),
    {
        self.enqueue(ClientMessage::LanApprovalDecision { request_id, approve })
    }

    /// Asks for the peers on the local network.
    pub fn list_lan_peers(&mut self) -> (r: Result<(), SinkClosed>)
        ensures
            IpcSink::sends(*old(self), ClientMessage::ListLanPeers, *final(self), r),
    {
        self.enqueue(ClientMessage::ListLanPeers)
    }

    /// Asks for the tailnet peers.
    pub fn list_remote_peers(&mut self) -> (r: Result<(), SinkClosed>)
        ensures
            IpcSink::sends(*old(self), ClientMessage::ListRemotePeers, *final(self), r),
    {
        self.enqueue(ClientMessage::ListRemotePeers)
    }

    /// Asks to route an action to the window's controller.
    pub fn dispatch_action(
        &mut self,
        window_id: Option<WindowId>,
        action: AutomationAction,
    ) -> (r: Result<(), SinkClosed>)
        ensures
            IpcSink::sends(
                *old(self),
                (ClientMessage::DispatchAction { window_id, action }),
                *final(self),
                r,
            ),
    {
        self.enqueue(ClientMessage::DispatchAction { window_id, action })
    }

    /// Reports which session gained and which lost the focus.
    pub fn focus_changed(
        &mut self,
        gained: Option<SessionId>,
        lost: Option<SessionId>,
    ) -> (r: Result<(), SinkClosed>)
        ensures
            IpcSink::sends(
                *old(self),
                (ClientMessage::FocusChanged { gained, lost }),
                *final(self),
                r,
            ),
    {
        self.enqueue(ClientMessage::FocusChanged { gained, lost })
    }

    /// Sends an answer about the clipboard; any other message is refused.
    pub fn clipboard_answer(&mut self, message: ClientMessage) -> (r: Result<
        (),
        ClipboardAnswerError,
    >)
        ensures
            if !(message is ClipboardPromptResponse || message is ClipboardBridgeReadReply) {
                &&& r == Err::<(), ClipboardAnswerError>(ClipboardAnswerError::NotAnAnswer)
                &&& *final(self) == *old(self)
            } else if old(self).is_open() {
                IpcSink::sends(*old(self), message, *final(self), Ok(())) && r is Ok
            } else {
                &&& r == Err::<(), ClipboardAnswerError>(ClipboardAnswerError::Closed)
                &&& *final(self) == *old(self)
            },
    {
        let answers = match &message {
            ClientMessage::ClipboardPromptResponse { .. } => true,
            ClientMessage::ClipboardBridgeReadReply { .. } => true,
            _ => false,
        };
        if !answers {
            return Err(ClipboardAnswerError::NotAnAnswer);
        }
        match self.enqueue(message) {
            Ok(()) => Ok(()),
            Err(_) => Err(ClipboardAnswerError::Closed),
        }
    }
}

/// What enters the queue first leaves it first: a resize reaches the server
/// before the keys that are typed after it.
pub proof fn sink_is_first_in_first_out(
    start: IpcSink,
    first: ClientMessage,
    between: IpcSink,
    second: ClientMessage,
    end: IpcSink,
)
    requires
        start.is_open(),
        IpcSink::sends(start, first, between, Ok(())),
        IpcSink::sends(between, second, end, Ok(())),
    ensures
        end.waiting() == start.waiting() + seq![first, second],
{
    assert(end.waiting() =~= start.waiting() + seq![first, second]);
}

/// Output joins the output that the same pane was sent last, byte after byte, whatever
/// other panes were sent in between, and makes no entry of its own.
pub proof fn output_joins_output(events: Seq<Entry>, pane: SessionId, a: Seq<u8>, b: Seq<u8>)
    ensures
        ({
            let first = Entry { session: pane, op: OpModel::Output(a) };
            let second = Entry { session: pane, op: OpModel::Output(b) };
            let both = Entry { session: pane, op: OpModel::Output(a + b) };
            coalesced(events.push(first).push(second)) == coalesced(events.push(both))
        }),
{
    let first = Entry { session: pane, op: OpModel::Output(a) };
    let second = Entry { session: pane, op: OpModel::Output(b) };
    let both = Entry { session: pane, op: OpModel::Output(a + b) };
    let s = coalesced(events);
    assert(events.push(first).push(second).drop_last() =~= events.push(first));
    assert(events.push(first).drop_last() =~= events);
    assert(events.push(both).drop_last() =~= events);
    let one = absorb(s, first);
    assert(coalesced(events.push(first)) == one);
    assert(coalesced(events.push(first).push(second)) == absorb(one, second));
    assert(coalesced(events.push(both)) == absorb(s, both));
    last_of_bounds(s, pane);
    last_of_bounds(one, pane);
    let k = last_of(s, pane);
    if k >= 0 && s[k].op is Output {
        let j = last_of(one, pane);
        if j < k {
            assert(one[k].session == pane);
        }
        if j > k {
            assert(one[j] == s[j]);
        }
        let joined = s[k].op->Output_0;
        assert(joined + a + b =~= joined + (a + b));
        assert(absorb(one, second) =~= absorb(s, both));
    } else {
        assert(one == s.push(first));
        assert(last_of(one, pane) == s.len());
        assert(absorb(one, second) =~= absorb(s, both));
    }
}

/// What is not output keeps its place: nothing that a pane is sent after it moves before
/// it, and nothing before it moves behind it.
pub proof fn output_never_passes_a_mark(events: Seq<Entry>, mark: Entry, next: Entry)
    requires
        !(mark.op is Output),
        next.session == mark.session,
    ensures
        coalesced(events.push(mark)) == coalesced(events).push(mark),
        coalesced(events.push(mark).push(next)) == coalesced(events).push(mark).push(next),
{
    assert(events.push(mark).drop_last() =~= events);
    assert(events.push(mark).push(next).drop_last() =~= events.push(mark));
    assert(last_of(coalesced(events).push(mark), mark.session) == coalesced(events).len());
}

/// No more of the oldest events go than have to: before the last of them went, there were
/// two hundred and fifty-six events or there was no room for the bytes within four
/// mebibytes, and after it there is room, or nothing is left.
pub proof fn no_more_drops_than_needed(backlog: Seq<Entry>, incoming: nat)
    ensures
        ({
            let n = evictions(backlog, incoming) as int;
            let room = |queue: Seq<Entry>|
                queue.len() < 256 && total_payload(queue) + incoming <= 4_194_304;
            &&& 0 <= n <= backlog.len()
            &&& n < backlog.len() ==> room(backlog.skip(n))
            &&& forall|k: int| 0 <= k < n ==> !room(#[trigger] backlog.skip(k))
        }),
    decreases backlog.len(),
{
    let n = evictions(backlog, incoming) as int;
    assert(backlog.skip(0) =~= backlog);
    if backlog.len() > 0 && !has_room(backlog, incoming) {
        let rest = backlog.skip(1);
        no_more_drops_than_needed(rest, incoming);
        assert(rest.skip(n - 1) =~= backlog.skip(n));
        assert forall|k: int| 0 <= k < n implies !({
            let queue = #[trigger] backlog.skip(k);
            queue.len() < 256 && total_payload(queue) + incoming <= 4_194_304
        }) by {
            if k > 0 {
                assert(rest.skip(k - 1) =~= backlog.skip(k));
            }
        }
    }
}

/// Only output weighs anything, and what is queued weighs as much as its parts.
pub proof fn only_output_weighs(events: Seq<Entry>, entry: Entry)
    ensures
        payload(entry) == match entry.op {
            OpModel::Output(bytes) => bytes.len(),
            _ => 0nat,
        },
        total_payload(events.push(entry)) == total_payload(events) + payload(entry),
{
    assert(events.push(entry).drop_last() =~= events);
}

/// A queue that is not full is left as it is; a full one is joined before anything is
/// dropped, unless that was of no use before.
pub proof fn full_queues_are_joined_first(state: InboundState)
    ensures
        state.queue().len() < 256 ==> state.backlog() == state.queue(),
        state.queue().len() >= 256 && !state.stalled() ==> state.backlog() == coalesced(
            state.queue(),
        ),
        state.stalled() ==> state.backlog() == state.queue(),
{
}

/// The panes that are owed a fresh screen are those that were owed one and those that
/// lost something since, each once and the older debts first.
pub proof fn debts_are_kept(owed: Seq<SessionId>, dropped: Seq<SessionId>, pane: SessionId)
    ensures
        merged(owed, dropped).contains(pane) <==> owed.contains(pane) || dropped.contains(pane),
        owed.is_prefix_of(merged(owed, dropped)),
        owed.no_duplicates() ==> merged(owed, dropped).no_duplicates(),
    decreases dropped.len(),
{
    if dropped.len() > 0 {
        let d = dropped.drop_last();
        debts_are_kept(owed, d, pane);
        let before = merged(owed, d);
        let all = merged(owed, dropped);
        if owed.no_duplicates() {
            merged_distinct(owed, dropped);
        }
        debts_are_kept(owed, d, dropped.last());
        if before.contains(pane) {
            let i = choose|i: int| 0 <= i < before.len() && before[i] == pane;
            assert(all[i] == pane);
        }
        if all.contains(pane) && pane != dropped.last() {
            let i = choose|i: int| 0 <= i < all.len() && all[i] == pane;
            assert(before[i] == pane);
        }
        if pane == dropped.last() {
            assert(dropped[dropped.len() - 1] == pane);
            if !before.contains(pane) {
                assert(all[before.len() as int] == pane);
            }
        }
        if d.contains(pane) {
            let i = choose|i: int| 0 <= i < d.len() && d[i] == pane;
            assert(dropped[i] == pane);
        }
        if dropped.contains(pane) && pane != dropped.last() {
            let i = choose|i: int| 0 <= i < dropped.len() && dropped[i] == pane;
            assert(d[i] == pane);
        }
        assert(owed =~= all.take(owed.len() as int)) by {
            assert(owed =~= before.take(owed.len() as int));
        }
    } else {
        assert(owed =~= merged(owed, dropped).take(owed.len() as int));
    }
}

/// Debts are paid once the queue has run empty, and after two seconds at the latest.
pub proof fn debts_are_paid(since: u64, queue_empty: bool, now: u64)
    ensures
        queue_empty ==> PendingResync::is_due(since, queue_empty, now),
        now - since >= 2_000_000 ==> PendingResync::is_due(since, queue_empty, now),
        !queue_empty && now - since < 2_000_000 ==> !PendingResync::is_due(since, queue_empty, now),
{
}

/// A batch never holds more than a hundred events.
pub proof fn batches_are_small(batch: OpenBatch)
    requires
        batch.wf(),
    ensures
        1 <= batch.events().len() <= 100,
{
}

/// The message of an intent says what the intent says.
pub proof fn intents_are_sent_as_they_are(intent: ControlIntent)
    ensures
        match intent.message() {
            ClientMessage::ControlClaim { window_id } => intent == (ControlIntent::Claim {
                window_id,
            }),
            ClientMessage::ControlGrant { window_id, participant_id, accept } => intent == (
            ControlIntent::Grant { window_id, participant_id, accept }),
            _ => false,
        },
{
}

/// Nothing is sent once the writer is gone, and the sender is told so.
pub proof fn closed_sinks_take_nothing(
    before: IpcSink,
    message: ClientMessage,
    after: IpcSink,
    result: Result<(), SinkClosed>,
)
    requires
        IpcSink::sends(before, message, after, result),
    ensures
        result is Ok <==> before.is_open(),
        !before.is_open() ==> after.waiting() == before.waiting(),
        before.is_open() ==> after.waiting().len() == before.waiting().len() + 1
            && after.waiting().last() == message && after.waiting().drop_last()
            == before.waiting(),
{
    if before.is_open() {
        assert(after.waiting().drop_last() =~= before.waiting());
    }
}

/// Events leave the queue in the order in which they entered it, oldest first.
pub proof fn the_oldest_event_leaves_first()
    ensures
        forall|state: &mut InboundState, r: Option<InboundEvent>|
            #[trigger] call_ensures(InboundState::take, (state,), r) ==> {
                &&& r is Some <==> state.queue().len() > 0
                &&& r matches Some(event) ==> event@ == state.queue()[0] && final(state).queue()
                    == state.queue().skip(1)
                &&& final(state).dropped_panes() == state.dropped_panes()
            },
        forall|state: &mut InboundState, r: InboundPoll|
            #[trigger] call_ensures(InboundState::poll_once, (state,), r) ==> {
                &&& r is Event <==> state.queue().len() > 0
                &&& r is Closed <==> state.queue().len() == 0 && state.sender_count() == 0
                &&& r matches InboundPoll::Event(event) ==> event@ == state.queue()[0]
                    && final(state).queue() == state.queue().skip(1)
            },
{
}

/// An event that is sent stands last in the queue. Where there is room nothing else changes
/// there, and once the drain is gone nothing is queued.
pub proof fn the_newest_event_stands_last(event: InboundEvent)
    ensures
        forall|state: &mut InboundState, r: Result<(), InboundClosed>|
            #[trigger] call_ensures(InboundState::send, (state, event), r) ==> {
                &&& r is Ok <==> state.is_open()
                &&& !state.is_open() ==> final(state).queue() == state.queue()
                &&& state.is_open() ==> final(state).queue().len() > 0
                    && final(state).queue().last() == event@
                &&& state.is_open() && state.queue().len() < 256 && total_payload(state.queue())
                    + payload(event@) <= 4_194_304 ==> final(state).queue() == state.queue().push(
                    event@,
                ) && final(state).dropped_panes() == state.dropped_panes()
            },
{
    assert forall|state: &mut InboundState, r: Result<(), InboundClosed>|
        #[trigger] call_ensures(InboundState::send, (state, event), r) implies {
        &&& state.is_open() ==> final(state).queue().len() > 0 && final(state).queue().last()
            == event@
        &&& state.is_open() && state.queue().len() < 256 && total_payload(state.queue()) + payload(
            event@,
        ) <= 4_194_304 ==> {
            &&& final(state).queue() == state.queue().push(event@)
            &&& final(state).dropped_panes() == state.dropped_panes()
        }
    } by {
        if state.is_open() && state.queue().len() < 256 && total_payload(state.queue()) + payload(
            event@,
        ) <= 4_194_304 {
            assert(state.backlog().skip(0) =~= state.queue());
            assert(state.backlog().take(0) =~= Seq::<Entry>::empty());
        }
    }
}

/// The batch of a run of events is the run, joined.
pub proof fn batches_hold_what_came(events: Vec<InboundEvent>, batch: CoalescedBatch)
    requires
        call_ensures(coalesce, (events,), batch),
    ensures
        batch@ == coalesced(models(events@)),
{
}

/// The panes that lost something are handed out once they are due, all of them and each
/// once, and kept until then.
pub proof fn debts_are_settled(dropped: Vec<SessionId>, queue_empty: bool, now: u64)
    ensures
        forall|pending: &mut PendingResync, r: Vec<SessionId>|
            #[trigger] call_ensures(
                PendingResync::settle,
                (pending, dropped, queue_empty, now),
                r,
            ) ==> {
                &&& r@ + final(pending).owed() == merged(pending.owed(), dropped@)
                &&& queue_empty ==> r@ == merged(pending.owed(), dropped@)
                &&& r@.len() > 0 ==> final(pending).owed().len() == 0
            },
{
    assert forall|pending: &mut PendingResync, r: Vec<SessionId>|
        #[trigger] call_ensures(
            PendingResync::settle,
            (pending, dropped, queue_empty, now),
            r,
        ) implies {
        &&& r@ + final(pending).owed() == merged(pending.owed(), dropped@)
        &&& queue_empty ==> r@ == merged(pending.owed(), dropped@)
        &&& r@.len() > 0 ==> final(pending).owed().len() == 0
    } by {
        let owed = merged(pending.owed(), dropped@);
        assert(r@ + final(pending).owed() =~= owed);
        assert(queue_empty ==> r@ =~= owed);
    }
}

/// Messages leave the sink in the order in which they entered it.
pub proof fn the_oldest_message_leaves_first()
    ensures
        forall|sink: &mut IpcSink, r: Option<ClientMessage>|
            #[trigger] call_ensures(IpcSink::take_next, (sink,), r) ==> {
                &&& r is Some <==> sink.waiting().len() > 0
                &&& r matches Some(message) ==> message == sink.waiting()[0]
                    && final(sink).waiting() == sink.waiting().skip(1)
            },
{
}

/// A batch is open for so long and no longer, and closes once it is full.
pub proof fn batches_are_open_for_a_while(first: InboundEvent, now: u64, later: u64)
    ensures
        forall|batch: OpenBatch, left: Option<u64>|
            call_ensures(OpenBatch::start, (first, now), batch) && #[trigger] call_ensures(
                OpenBatch::remaining,
                (&batch, later),
                left,
            ) && now + BATCH_WINDOW_MICROS <= u64::MAX ==> {
                &&& left is Some <==> later < now + BATCH_WINDOW_MICROS
                &&& left matches Some(micros) ==> later + micros == now + BATCH_WINDOW_MICROS
            },
{
}

/// An answer about the clipboard is sent while the connection is open, and nothing else is
/// taken for one.
pub proof fn clipboard_answers_are_sent(message: ClientMessage)
    ensures
        forall|sink: &mut IpcSink, r: Result<(), ClipboardAnswerError>|
            #[trigger] call_ensures(IpcSink::clipboard_answer, (sink, message), r) ==> {
                let answers = message is ClipboardPromptResponse
                    || message is ClipboardBridgeReadReply;
                &&& r is Ok <==> answers && sink.is_open()
                &&& r matches Err(error) ==> *final(sink) == *sink
                &&& !answers ==> r == Err::<(), ClipboardAnswerError>(
                    ClipboardAnswerError::NotAnAnswer,
                )
                &&& answers && !sink.is_open() ==> r == Err::<(), ClipboardAnswerError>(
                    ClipboardAnswerError::Closed,
                )
                &&& r is Ok ==> final(sink).waiting() == sink.waiting().push(message)
            },
{
}

} // verus!
