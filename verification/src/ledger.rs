//! Per-session, per-authority record of received heartbeats.
//!
//! The ledger is viewed as a map keyed by (session index, authority index);
//! presence of a key means that authority proved liveness in that session.
//! At most one entry exists per key, an entry is never overwritten, and a
//! whole session's entries are cleared at once at session rotation.

use vstd::prelude::*;
use crate::heartbeat::{AuthIndex, SessionIndex};

verus! {

/// One recorded heartbeat: the session, the authority's roster position and
/// the opaque network-state bytes it submitted.
pub struct LedgerEntry {
    /// The session the heartbeat was received in.
    pub session: SessionIndex,
    /// The authority's position in that session's roster.
    pub authority_index: AuthIndex,
    /// The opaque serialized network-state snapshot it carried.
    pub network_state: Vec<u8>,
}

/// Whether an entry is keyed by the given session and authority index.
pub open spec fn entry_matches(e: LedgerEntry, session: SessionIndex, authority_index: AuthIndex) -> bool {
    e.session == session && e.authority_index == authority_index
}

/// The map held by a sequence of entries; later entries would shadow earlier
/// ones, but a well-formed ledger never keys two entries alike.
pub open spec fn spec_entries_map(s: Seq<LedgerEntry>) -> Map<(SessionIndex, AuthIndex), Seq<u8>>
    decreases s.len(),
{
    if s.len() == 0 {
        Map::empty()
    } else {
        spec_entries_map(s.drop_last()).insert(
            (s.last().session, s.last().authority_index),
            s.last().network_state@,
        )
    }
}

/// No two entries share a key.
pub open spec fn entries_wf(s: Seq<LedgerEntry>) -> bool {
    forall|i: int, j: int|
        0 <= i < j < s.len() ==> !(s[i].session == s[j].session && s[i].authority_index
            == s[j].authority_index)
}

/// The entries' map contains a key exactly when some entry carries it.
proof fn lemma_entries_map_contains(s: Seq<LedgerEntry>, session: SessionIndex, authority_index: AuthIndex)
    ensures
        spec_entries_map(s).contains_key((session, authority_index)) <==> (exists|i: int|
            0 <= i < s.len() && entry_matches(s[i], session, authority_index)),
    decreases s.len(),
{
    if s.len() > 0 {
        let pre = s.drop_last();
        lemma_entries_map_contains(pre, session, authority_index);
        if entry_matches(s.last(), session, authority_index) {
            assert(entry_matches(s[s.len() - 1], session, authority_index));
        } else {
            if exists|i: int| 0 <= i < s.len() && entry_matches(s[i], session, authority_index) {
                let i = choose|i: int|
                    0 <= i < s.len() && entry_matches(s[i], session, authority_index);
                assert(entry_matches(pre[i], session, authority_index));
            }
            if exists|i: int| 0 <= i < pre.len() && entry_matches(pre[i], session, authority_index) {
                let i = choose|i: int|
                    0 <= i < pre.len() && entry_matches(pre[i], session, authority_index);
                assert(entry_matches(s[i], session, authority_index));
            }
        }
    }
}

/// Records a heartbeat on a map: a no-op when the key is already present,
/// an insertion otherwise.
pub open spec fn spec_record(
    m: Map<(SessionIndex, AuthIndex), Seq<u8>>,
    session: SessionIndex,
    authority_index: AuthIndex,
    state: Seq<u8>,
) -> Map<(SessionIndex, AuthIndex), Seq<u8>> {
    if m.contains_key((session, authority_index)) {
        m
    } else {
        m.insert((session, authority_index), state)
    }
}

/// All keys belonging to one session.
pub open spec fn spec_session_keys(session: SessionIndex) -> Set<(SessionIndex, AuthIndex)> {
    Set::new(|k: (SessionIndex, AuthIndex)| k.0 == session)
}

/// Removes every entry of one session from a map.
pub open spec fn spec_clear_session(m: Map<(SessionIndex, AuthIndex), Seq<u8>>, session: SessionIndex) -> Map<
    (SessionIndex, AuthIndex),
    Seq<u8>,
> {
    m.remove_keys(spec_session_keys(session))
}

/// After a session is cleared, no heartbeat for it remains, whatever the
/// authority index.
pub proof fn lemma_cleared_session_has_no_heartbeats(
    m: Map<(SessionIndex, AuthIndex), Seq<u8>>,
    session: SessionIndex,
    authority_index: AuthIndex,
)
    ensures
        !spec_clear_session(m, session).contains_key((session, authority_index)),
{
}

/// Per-session, per-authority record of heartbeats received.
pub struct HeartbeatLedger {
    /// The recorded heartbeats, at most one per (session, authority) key.
    pub entries: Vec<LedgerEntry>,
}

impl View for HeartbeatLedger {
    type V = Map<(SessionIndex, AuthIndex), Seq<u8>>;

    open spec fn view(&self) -> Map<(SessionIndex, AuthIndex), Seq<u8>> {
        spec_entries_map(self.entries@)
    }
}

impl HeartbeatLedger {
    /// No two entries share a (session, authority) key.
    pub open spec fn wf(&self) -> bool {
        entries_wf(self.entries@)
    }

    /// An empty ledger.
    pub fn new() -> (r: HeartbeatLedger)
        ensures
            r.wf(),
            r@ == Map::<(SessionIndex, AuthIndex), Seq<u8>>::empty(),
    {
        HeartbeatLedger { entries: Vec::new() }
    }

    /// Whether a heartbeat has been received for `authority_index` in
    /// `session`. No side effects.
    pub fn has_heartbeat(&self, session: SessionIndex, authority_index: AuthIndex) -> (r: bool)
        ensures
            r == self@.contains_key((session, authority_index)),
    {
        proof {
            lemma_entries_map_contains(self.entries@, session, authority_index);
        }
        let mut i: usize = 0;
        while i < self.entries.len()
            invariant
                i <= self.entries@.len(),
                self@.contains_key((session, authority_index)) <==> (exists|j: int|
                    0 <= j < self.entries@.len() && entry_matches(
                        self.entries@[j],
                        session,
                        authority_index,
                    )),
                forall|j: int|
                    0 <= j < i ==> !entry_matches(self.entries@[j], session, authority_index),
            decreases self.entries@.len() - i,
        {
            let e = &self.entries[i];
            if e.session == session && e.authority_index == authority_index {
                proof {
                    assert(entry_matches(self.entries@[i as int], session, authority_index));
                }
                return true;
            }
            i += 1;
        }
        false
    }

    /// Inserts a heartbeat; a no-op (returning false) when one is already
    /// recorded for the key. The caller is expected to have rejected
    /// duplicates beforehand.
    pub fn record(
        &mut self,
        session: SessionIndex,
        authority_index: AuthIndex,
        network_state: Vec<u8>,
    ) -> (inserted: bool)
        requires
            old(self).wf(),
        ensures
            final(self).wf(),
            inserted == !old(self)@.contains_key((session, authority_index)),
            final(self)@ == spec_record(old(self)@, session, authority_index, network_state@),
    {
        if self.has_heartbeat(session, authority_index) {
            false
        } else {
            proof {
                lemma_entries_map_contains(self.entries@, session, authority_index);
            }
            self.entries.push(LedgerEntry { session, authority_index, network_state });
            proof {
                let s = self.entries@;
                let pre = old(self).entries@;
                assert(s.drop_last() =~= pre);
                assert forall|i: int, j: int| 0 <= i < j < s.len() implies !(s[i].session
                    == s[j].session && s[i].authority_index == s[j].authority_index) by {
                    if j < s.len() - 1 {
                        assert(s[i] == pre[i] && s[j] == pre[j]);
                    } else {
                        assert(s[i] == pre[i]);
                        assert(!entry_matches(pre[i], session, authority_index));
                    }
                }
            }
            true
        }
    }

    /// Removes every entry of `session`; called exactly once, at session
    /// rotation, before the new roster is installed.
    pub fn clear_session(&mut self, session: SessionIndex)
        requires
            old(self).wf(),
        ensures
            final(self).wf(),
            final(self)@ == spec_clear_session(old(self)@, session),
    {
        let n = self.entries.len();
        let mut kept: Vec<LedgerEntry> = Vec::new();
        let mut i: usize = 0;
        while i < n
            invariant
                n == self.entries@.len(),
                i <= n,
                entries_wf(self.entries@),
                entries_wf(kept@),
                spec_entries_map(kept@) == spec_clear_session(
                    spec_entries_map(self.entries@.subrange(0, i as int)),
                    session,
                ),
            decreases n - i,
        {
            let ghost prefix = self.entries@.subrange(0, i as int);
            let ghost prefix_next = self.entries@.subrange(0, i + 1);
            proof {
                assert(prefix_next.drop_last() =~= prefix);
            }
            let e = &self.entries[i];
            if e.session != session {
                let ghost kept_old = kept@;
                proof {
                    // No earlier entry carries this key, so neither does any
                    // kept entry.
                    lemma_entries_map_contains(prefix, e.session, e.authority_index);
                    if exists|q: int|
                        0 <= q < prefix.len() && entry_matches(
                            prefix[q],
                            e.session,
                            e.authority_index,
                        ) {
                        let q = choose|q: int|
                            0 <= q < prefix.len() && entry_matches(
                                prefix[q],
                                e.session,
                                e.authority_index,
                            );
                        assert(self.entries@[q] == prefix[q]);
                        assert(false);
                    }
                    lemma_entries_map_contains(kept_old, e.session, e.authority_index);
                }
                let copied = LedgerEntry {
                    session: e.session,
                    authority_index: e.authority_index,
                    network_state: crate::encoding::clone_bytes(&e.network_state),
                };
                kept.push(copied);
                proof {
                    assert(kept@.drop_last() =~= kept_old);
                    assert forall|p: int, q: int| 0 <= p < q < kept@.len() implies !(kept@[p].session
                        == kept@[q].session && kept@[p].authority_index
                        == kept@[q].authority_index) by {
                        if q < kept@.len() - 1 {
                            assert(kept@[p] == kept_old[p] && kept@[q] == kept_old[q]);
                        } else {
                            assert(kept@[p] == kept_old[p]);
                            assert(!entry_matches(kept_old[p], e.session, e.authority_index));
                        }
                    }
                    assert(spec_entries_map(kept@) =~= spec_clear_session(
                        spec_entries_map(prefix_next),
                        session,
                    ));
                }
            } else {
                proof {
                    assert(spec_entries_map(kept@) =~= spec_clear_session(
                        spec_entries_map(prefix_next),
                        session,
                    ));
                }
            }
            i += 1;
        }
        proof {
            assert(self.entries@.subrange(0, n as int) =~= self.entries@);
        }
        self.entries = kept;
    }
}

} // verus!
