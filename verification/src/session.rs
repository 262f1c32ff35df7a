//! The per-viewer protocol handler. Each connected viewer owns one
//! session; the session reads inbound frames, answers update requests
//! from the shared store, and keeps the viewer count right on both
//! entry and exit — the disconnect bookkeeping runs exactly once no
//! matter how often the exit path is signalled.
//!
//! Inbound text is `COMMAND:payload`. The only recognised command is
//! `UPD`, whose payload is ignored and which is answered with the wire
//! text of the current snapshot. Anything else — no colon, or an
//! unknown command — is tolerated silently: no reply, no state change.

use vstd::prelude::*;
use crate::json::json_of_snapshot;
use crate::snapshot::SnapshotModel;
use crate::store::StateStore;

verus! {

/// The session's state machine: connected, then terminated. There are
/// no intermediate states.
pub enum SessionState {
    Connected,
    Terminated,
}

/// What the transport hands a session: a decoded text frame, a close
/// signal, or a transport fault. Close and fault both end the session.
pub enum InboundEvent {
    Text(Vec<u8>),
    Close,
    Fault,
}

/// An update request: the text before the first colon is exactly `UPD`.
pub open spec fn is_upd(t: Seq<u8>) -> bool {
    t.len() > 3 && t[0] == 85u8 && t[1] == 80u8 && t[2] == 68u8 && t[3] == 58u8
}

/// The reply a connected session owes for one inbound text: the current
/// snapshot's wire text for an update request, nothing for any other
/// text.
pub open spec fn reply_of(current: SnapshotModel, t: Seq<u8>) -> Option<Seq<char>> {
    if is_upd(t) {
        Some(json_of_snapshot(current))
    } else {
        None
    }
}

/// One viewer's protocol handler.
pub struct ConnectionSession {
    pub state: SessionState,
}

impl ConnectionSession {
    pub open spec fn connected(self) -> bool {
        self.state is Connected
    }

    /// Opens a session for a newly accepted connection: the store's
    /// viewer count rises by one, and nothing else changes.
    pub fn open(store: &mut StateStore) -> (s: ConnectionSession)
        requires
            old(store).wf(),
            old(store)@.viewers < u32::MAX,
        ensures
            final(store).wf(),
            s.connected(),
            final(store)@.viewers == old(store)@.viewers + 1,
            final(store)@.history == old(store)@.history,
    {
        store.connect();
        ConnectionSession { state: SessionState::Connected }
    }

    /// Answers one inbound text frame. A connected session replies to
    /// an update request with the current snapshot's wire text and to
    /// everything else with silence; a terminated session processes
    /// nothing. The session and the store are left as they were.
    pub fn on_text(&mut self, store: &StateStore, text: &[u8]) -> (reply: Option<String>)
        requires
            store.wf(),
        ensures
            *final(self) == *old(self),
            old(self).connected() ==> match reply {
                Some(r) => reply_of(store@.current(), text@) == Some(r@),
                None => reply_of(store@.current(), text@) is None,
            },
            !old(self).connected() ==> reply is None,
    {
        match self.state {
            SessionState::Terminated => None,
            SessionState::Connected => {
                let n = text.len();
                // find the first colon
                let mut i: usize = 0;
                let mut colon: usize = n;
                while i < n
                    invariant_except_break
                        colon == n,
                    invariant
                        i <= n == text@.len(),
                        forall|j: int| 0 <= j < i ==> #[trigger] text@[j] != 58u8,
                    ensures
                        if colon == n {
                            forall|j: int| 0 <= j < n ==> #[trigger] text@[j] != 58u8
                        } else {
                            colon < n && text@[colon as int] == 58u8 && forall|j: int|
                                0 <= j < colon ==> #[trigger] text@[j] != 58u8
                        },
                    decreases n - i,
                {
                    if text[i] == 58u8 {
                        colon = i;
                        break ;
                    }
                    i += 1;
                }
                if n > 3 && colon == 3 && text[0] == 85u8 && text[1] == 80u8 && text[2] == 68u8 {
                    assert(is_upd(text@));
                    Some(store.latest().to_json())
                } else {
                    assert(!is_upd(text@)) by {
                        if is_upd(text@) {
                            assert(text@[3] == 58u8);
                            assert(colon <= 3);
                        }
                    }
                    None
                }
            },
        }
    }

    /// Takes the session through its exit path: on the first close or
    /// fault the session terminates and the store's viewer count falls
    /// by one; any later signal is a no-op, so the disconnect
    /// bookkeeping runs exactly once per session.
    pub fn on_close(&mut self, store: &mut StateStore)
        requires
            old(store).wf(),
        ensures
            final(store).wf(),
            !final(self).connected(),
            final(store)@.history == old(store)@.history,
            final(store).current == old(store).current,
            final(store)@.viewers == if old(self).connected() && old(store)@.viewers > 0 {
                (old(store)@.viewers - 1) as u32
            } else if old(self).connected() {
                0u32
            } else {
                old(store)@.viewers
            },
    {
        match self.state {
            SessionState::Connected => {
                store.disconnect();
                self.state = SessionState::Terminated;
            },
            SessionState::Terminated => {},
        }
    }

    /// Dispatches one inbound event: text frames are answered as
    /// `on_text` says, close signals and transport faults take the exit
    /// path. Only the exit path ever touches the viewer count, and no
    /// event ever changes the published snapshot.
    pub fn handle_event(&mut self, store: &mut StateStore, event: &InboundEvent) -> (reply: Option<
        String,
    >)
        requires
            old(store).wf(),
        ensures
            final(store).wf(),
            final(store)@.history == old(store)@.history,
            final(store).current == old(store).current,
            match event {
                InboundEvent::Text(t) => {
                    &&& *final(self) == *old(self)
                    &&& final(store)@.viewers == old(store)@.viewers
                    &&& old(self).connected() ==> match reply {
                        Some(r) => reply_of(old(store)@.current(), t@) == Some(r@),
                        None => reply_of(old(store)@.current(), t@) is None,
                    }
                    &&& !old(self).connected() ==> reply is None
                },
                _ => {
                    &&& reply is None
                    &&& !final(self).connected()
                    &&& final(store)@.viewers == if old(self).connected() && old(
                        store,
                    )@.viewers > 0 {
                        (old(store)@.viewers - 1) as u32
                    } else if old(self).connected() {
                        0u32
                    } else {
                        old(store)@.viewers
                    }
                },
            },
    {
        match event {
            InboundEvent::Text(t) => self.on_text(&*store, t.as_slice()),
            InboundEvent::Close => {
                self.on_close(store);
                None
            },
            InboundEvent::Fault => {
                self.on_close(store);
                None
            },
        }
    }
}

/// Law: update requests are idempotent. Two `UPD` texts arriving with
/// no publish between them — whatever their payloads — are owed one and
/// the same reply, namely the current snapshot's wire text.
pub proof fn lemma_upd_idempotent(current: SnapshotModel, t1: Seq<u8>, t2: Seq<u8>)
    requires
        is_upd(t1),
        is_upd(t2),
    ensures
        reply_of(current, t1) == reply_of(current, t2),
        reply_of(current, t1) == Some(json_of_snapshot(current)),
{
}

} // verus!
