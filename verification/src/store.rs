//! The shared state store: the single slot through which the clock
//! publishes each new snapshot whole, and the live viewer count.
//!
//! The store itself is a value; the surrounding process shares one
//! instance behind an atomic cell or a lock that cannot stay poisoned,
//! so that a reader always obtains the last snapshot published as one
//! unit. Every operation here is specified against the model below:
//! the full publish history (whose last element is the current
//! snapshot) and the viewer count.

use vstd::prelude::*;
use crate::snapshot::{Snapshot, SnapshotModel, snapshot_wf};

verus! {

/// Mathematical model of the store.
pub ghost struct StoreModel {
    /// Every snapshot published so far, oldest first; the last one is
    /// the current snapshot.
    pub history: Seq<SnapshotModel>,
    /// The live viewer count.
    pub viewers: u32,
}

impl StoreModel {
    /// The snapshot a reader obtains: the last one published.
    pub open spec fn current(self) -> SnapshotModel {
        self.history.last()
    }

    /// The store's invariant: there is always a current snapshot, every
    /// published snapshot is well formed, the tick rate never changes,
    /// and the steps rise by exactly one per publication.
    pub open spec fn inv(self) -> bool {
        &&& self.history.len() >= 1
        &&& forall|i: int| 0 <= i < self.history.len() ==> snapshot_wf(#[trigger] self.history[i])
        &&& forall|i: int|
            0 <= i < self.history.len() ==> (#[trigger] self.history[i]).step == self.history[0].step
                + i
        &&& forall|i: int|
            0 <= i < self.history.len() ==> (#[trigger] self.history[i]).ticks_per_sec
                == self.history[0].ticks_per_sec
    }
}

/// Holder of the latest snapshot and the viewer count.
pub struct StateStore {
    /// The snapshot most recently published, replaced whole.
    pub current: Snapshot,
    /// Live viewer count: one per connected session.
    pub viewers: u32,
    /// The publish history, kept only for the specification.
    pub history: Ghost<Seq<SnapshotModel>>,
}

impl View for StateStore {
    type V = StoreModel;

    open spec fn view(&self) -> StoreModel {
        StoreModel { history: self.history@, viewers: self.viewers }
    }
}

impl StateStore {
    /// The store is well formed when its model invariant holds and the
    /// held snapshot is the last of the history.
    pub open spec fn wf(self) -> bool {
        self@.inv() && self.current@ == self@.current()
    }

    /// Creates the store at process start, holding the cold-start
    /// snapshot (step 0) and no viewers.
    pub fn new(initial: Snapshot) -> (s: StateStore)
        requires
            snapshot_wf(initial@),
        ensures
            s.wf(),
            s@.history == seq![initial@],
            s@.viewers == 0,
    {
        let ghost h: Seq<SnapshotModel> = seq![initial@];
        StateStore { current: initial, viewers: 0, history: Ghost(h) }
    }

    /// Publishes a freshly built snapshot: the single writer replaces
    /// the current snapshot as one unit. Readers never see a mix of the
    /// old and the new snapshot's fields.
    pub fn publish(&mut self, s: Snapshot)
        requires
            old(self).wf(),
            snapshot_wf(s@),
            s@.step == old(self)@.current().step + 1,
            s@.ticks_per_sec == old(self)@.current().ticks_per_sec,
        ensures
            final(self).wf(),
            final(self)@.history == old(self)@.history.push(s@),
            final(self)@.current() == s@,
            final(self)@.viewers == old(self)@.viewers,
    {
        proof {
            self.history@ = self.history@.push(s@);
        }
        self.current = s;
        proof {
            let h = self.history@;
            assert forall|i: int| 0 <= i < h.len() implies (#[trigger] h[i]).step == h[0].step
                + i by {
                if i < h.len() - 1 {
                    assert(h[i] == old(self)@.history[i]);
                }
            }
        }
    }

    /// Hands out the current snapshot, whole: exactly the snapshot most
    /// recently published, with all fields from that one publication.
    pub fn latest(&self) -> (r: &Snapshot)
        requires
            self.wf(),
        ensures
            r@ == self@.current(),
            snapshot_wf(r@),
    {
        &self.current
    }

    /// The live viewer count.
    pub fn viewer_count(&self) -> (n: u32)
        ensures
            n == self@.viewers,
    {
        self.viewers
    }

    /// A new viewer connected: the count rises by one. Returns the new
    /// count.
    pub fn connect(&mut self) -> (n: u32)
        requires
            old(self).wf(),
            old(self)@.viewers < u32::MAX,
        ensures
            final(self).wf(),
            final(self)@.viewers == old(self)@.viewers + 1,
            n == final(self)@.viewers,
            final(self)@.history == old(self)@.history,
            final(self).current == old(self).current,
    {
        self.viewers = self.viewers + 1;
        self.viewers
    }

    /// A viewer disconnected: the count falls by one, but never below
    /// zero. Returns the new count.
    pub fn disconnect(&mut self) -> (n: u32)
        requires
            old(self).wf(),
        ensures
            final(self).wf(),
            final(self)@.viewers == if old(self)@.viewers > 0 {
                (old(self)@.viewers - 1) as u32
            } else {
                0u32
            },
            n == final(self)@.viewers,
            final(self)@.history == old(self)@.history,
            final(self).current == old(self).current,
    {
        if self.viewers > 0 {
            self.viewers = self.viewers - 1;
        }
        self.viewers
    }
}

/// Law: whatever a reader obtains is one snapshot of the published
/// history, whole — its fields all belong to that one publication, and
/// can never mix two ticks' data.
pub proof fn lemma_read_is_published(m: StoreModel)
    requires
        m.inv(),
    ensures
        exists|i: int| 0 <= i < m.history.len() && m.current() == m.history[i],
{
    assert(m.current() == m.history[m.history.len() - 1]);
}

/// Law: across any published history, the step is strictly increasing
/// from one snapshot to the next, with width exactly one — no step is
/// ever skipped or repeated.
pub proof fn lemma_steps_strictly_increasing(m: StoreModel, i: int, j: int)
    requires
        m.inv(),
        0 <= i < j < m.history.len(),
    ensures
        m.history[j].step == m.history[i].step + (j - i),
        m.history[i].step < m.history[j].step,
{
}

/// One connect or disconnect, as observed by the store.
pub ghost enum ViewerEvent {
    Connect,
    Disconnect,
}

/// How many of the events are connects.
pub open spec fn n_connects(es: Seq<ViewerEvent>) -> nat
    decreases es.len(),
{
    if es.len() == 0 {
        0
    } else {
        n_connects(es.drop_last()) + if es.last() is Connect {
            1nat
        } else {
            0nat
        }
    }
}

/// How many of the events are disconnects.
pub open spec fn n_disconnects(es: Seq<ViewerEvent>) -> nat
    decreases es.len(),
{
    if es.len() == 0 {
        0
    } else {
        n_disconnects(es.drop_last()) + if es.last() is Disconnect {
            1nat
        } else {
            0nat
        }
    }
}

/// The viewer count after a sequence of events, starting from zero:
/// each connect adds one, each disconnect subtracts one but never goes
/// below zero — exactly the store's `connect` and `disconnect`.
pub open spec fn count_after(es: Seq<ViewerEvent>) -> nat
    decreases es.len(),
{
    if es.len() == 0 {
        0
    } else {
        let c = count_after(es.drop_last());
        match es.last() {
            ViewerEvent::Connect => c + 1,
            ViewerEvent::Disconnect => if c > 0 {
                (c - 1) as nat
            } else {
                0
            },
        }
    }
}

/// No session disconnects before it has connected: in every prefix the
/// connects outnumber the disconnects.
pub open spec fn sessions_balanced(es: Seq<ViewerEvent>) -> bool {
    forall|k: int|
        0 <= k <= es.len() ==> n_connects(#[trigger] es.take(k)) >= n_disconnects(es.take(k))
}

/// Law: for any sequence of N connects and M disconnects in which no
/// session disconnects before connecting, the final viewer count is
/// exactly N - M — whatever the interleaving — and, the count being a
/// natural number throughout, it is never negative at any instant.
pub proof fn lemma_viewer_count(es: Seq<ViewerEvent>)
    requires
        sessions_balanced(es),
    ensures
        count_after(es) == n_connects(es) - n_disconnects(es),
    decreases es.len(),
{
    if es.len() > 0 {
        let pre = es.drop_last();
        assert forall|k: int| 0 <= k <= pre.len() implies n_connects(#[trigger] pre.take(k))
            >= n_disconnects(pre.take(k)) by {
            assert(pre.take(k) =~= es.take(k));
        }
        lemma_viewer_count(pre);
        assert(es.take(pre.len() as int) =~= pre);
        assert(es.take(es.len() as int) =~= es);
    }
}

/// Law, at every observable instant: after any prefix of the events the
/// count equals that prefix's connects minus its disconnects — and, as
/// a natural number, is never negative.
pub proof fn lemma_viewer_count_at_instant(es: Seq<ViewerEvent>, k: int)
    requires
        sessions_balanced(es),
        0 <= k <= es.len(),
    ensures
        count_after(es.take(k)) == n_connects(es.take(k)) - n_disconnects(es.take(k)),
{
    let pre = es.take(k);
    assert forall|j: int| 0 <= j <= pre.len() implies n_connects(#[trigger] pre.take(j))
        >= n_disconnects(pre.take(j)) by {
        assert(pre.take(j) =~= es.take(j));
    }
    lemma_viewer_count(pre);
}

} // verus!
