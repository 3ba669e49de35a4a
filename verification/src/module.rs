//! The ledger/admission domain: a state holder over the gossip schedule, the
//! session's authority roster and the heartbeat ledger, with the admission
//! checks run on every inbound heartbeat and the session-boundary handlers.
//!
//! Everything here executes as part of deterministic, serialized
//! state-transition processing; no internal locking is involved.

use vstd::prelude::*;
use crate::crypto::{sr25519_verified, sr25519_verify};
use crate::encoding::{clone_bytes, encode_u32, spec_u32_le};
use crate::heartbeat::{
    clone_id, lemma_encoded_heartbeat_len, AuthIndex, AuthorityId, AuthoritySignature,
    BlockNumber, Event, Heartbeat, SessionIndex,
};
use crate::ledger::{spec_clear_session, spec_record, HeartbeatLedger};
use crate::slash::UnresponsivnessOffence;

verus! {

/// Why an inbound heartbeat was rejected. An out-of-roster authority index
/// is reported as a bad signature, not as a kind of its own.
#[derive(Clone, Copy, PartialEq, Eq, Structural, Debug)]
pub enum InvalidTransaction {
    /// The heartbeat is a duplicate or carries a non-current session.
    Stale,
    /// The authority index is out of the roster, or the cryptographic
    /// verification failed.
    BadSignature,
}

/// Pool metadata attached to an accepted heartbeat.
pub struct ValidTransaction {
    /// Priority boost; always zero for heartbeats.
    pub priority: u64,
    /// Tags this transaction depends on; always empty for heartbeats.
    pub prerequisites: Vec<Vec<u8>>,
    /// Tags this transaction provides, deduplicating concurrent admission:
    /// one tag of the current session and the authority's key.
    pub provides: Vec<Vec<u8>>,
    /// How long the transaction stays valid; unbounded for heartbeats.
    pub longevity: u64,
    /// Whether the transaction may propagate peer-to-peer before inclusion.
    pub propagate: bool,
}

/// The outcome of the admission checks.
pub enum TransactionValidity {
    /// Admit, with the attached pool metadata.
    Valid(ValidTransaction),
    /// Reject; a rejected heartbeat has no side effects.
    Invalid(InvalidTransaction),
}

/// The tag an accepted heartbeat provides to the pool: the current session's
/// little-endian bytes followed by the authority's public key bytes.
pub open spec fn spec_provides_tag(session: SessionIndex, key: Seq<u8>) -> Seq<u8> {
    spec_u32_le(session) + key
}

/// What the admission checks must decide, in this fixed order (cheapest
/// first, short-circuiting): ledger duplicate, session freshness, roster
/// membership, signature over the canonical encoding.
pub open spec fn spec_validate(
    ledger: Map<(SessionIndex, AuthIndex), Seq<u8>>,
    keys: Seq<Seq<u8>>,
    heartbeat: Heartbeat,
    signature: Seq<u8>,
    current_session: SessionIndex,
    r: TransactionValidity,
) -> bool {
    if ledger.contains_key((current_session, heartbeat.authority_index)) {
        r == TransactionValidity::Invalid(InvalidTransaction::Stale)
    } else if heartbeat.session_index != current_session {
        r == TransactionValidity::Invalid(InvalidTransaction::Stale)
    } else if heartbeat.authority_index >= keys.len() {
        r == TransactionValidity::Invalid(InvalidTransaction::BadSignature)
    } else if !sr25519_verified(
        signature,
        heartbeat.spec_encoded(),
        keys[heartbeat.authority_index as int],
    ) {
        r == TransactionValidity::Invalid(InvalidTransaction::BadSignature)
    } else {
        &&& r matches TransactionValidity::Valid(v)
        &&& v.priority == 0
        &&& v.prerequisites@.len() == 0
        &&& v.provides@.len() == 1
        &&& v.provides@[0]@ == spec_provides_tag(
            current_session,
            keys[heartbeat.authority_index as int],
        )
        &&& v.longevity == u64::MAX
        &&& v.propagate == true
    }
}

/// The liveness-tracking state: the block at which gossip becomes due, the
/// current session's authority roster, and the heartbeats received.
pub struct Module {
    /// The block number from which heartbeat gossip is due.
    pub gossip_at: BlockNumber,
    /// The authority roster for the current session, in index order.
    pub keys: Vec<AuthorityId>,
    /// The heartbeats received, keyed by session and roster position.
    pub received_heartbeats: HeartbeatLedger,
}

impl Module {
    /// The ledger never keys two entries alike.
    pub open spec fn wf(&self) -> bool {
        self.received_heartbeats.wf()
    }

    /// A fresh state: no roster, no heartbeats, gossip due from block zero.
    pub fn new() -> (r: Module)
        ensures
            r.wf(),
            r.gossip_at == 0,
            r.keys@.len() == 0,
            r.received_heartbeats@ == Map::<(SessionIndex, AuthIndex), Seq<u8>>::empty(),
    {
        Module { gossip_at: 0, keys: Vec::new(), received_heartbeats: HeartbeatLedger::new() }
    }

    /// True iff a heartbeat has been received for the authority at
    /// `authority_index` during `current_session`.
    pub fn is_online_in_current_session(
        &self,
        current_session: SessionIndex,
        authority_index: AuthIndex,
    ) -> (r: bool)
        ensures
            r == self.received_heartbeats@.contains_key((current_session, authority_index)),
    {
        self.received_heartbeats.has_heartbeat(current_session, authority_index)
    }

    /// Applies an admitted heartbeat: when none is recorded yet for this
    /// authority in the current session and the authority index is in the
    /// roster, records it and returns the notification to emit; otherwise
    /// changes nothing.
    pub fn heartbeat(&mut self, heartbeat: &Heartbeat, current_session: SessionIndex) -> (r: Option<Event>)
        requires
            old(self).wf(),
        ensures
            final(self).wf(),
            final(self).gossip_at == old(self).gossip_at,
            final(self).keys == old(self).keys,
            ({
                let fresh = !old(self).received_heartbeats@.contains_key(
                    (current_session, heartbeat.authority_index),
                );
                let known = heartbeat.authority_index < old(self).keys@.len();
                if fresh && known {
                    &&& final(self).received_heartbeats@ == old(self).received_heartbeats@.insert(
                        (current_session, heartbeat.authority_index),
                        heartbeat.network_state@,
                    )
                    &&& (r matches Some(ev) ==> ev matches Event::HeartbeatReceived(id) && id@
                        == old(self).keys@[heartbeat.authority_index as int]@)
                    &&& r is Some
                } else {
                    &&& final(self).received_heartbeats@ == old(self).received_heartbeats@
                    &&& r is None
                }
            }),
    {
        let exists_already = self.received_heartbeats.has_heartbeat(
            current_session,
            heartbeat.authority_index,
        );
        if !exists_already && (heartbeat.authority_index as usize) < self.keys.len() {
            let public = clone_id(&self.keys[heartbeat.authority_index as usize]);
            let network_state = clone_bytes(&heartbeat.network_state);
            self.received_heartbeats.record(
                current_session,
                heartbeat.authority_index,
                network_state,
            );
            Some(Event::HeartbeatReceived(public))
        } else {
            None
        }
    }

    /// Decides whether an inbound heartbeat transaction may be admitted:
    /// rejects duplicates and non-current sessions as stale, unknown roster
    /// positions and failed verification as bad signatures, and otherwise
    /// accepts with the pool metadata (lowest priority, no prerequisites,
    /// one provided tag, unbounded longevity, propagation enabled).
    pub fn validate_unsigned(
        &self,
        heartbeat: &Heartbeat,
        signature: &AuthoritySignature,
        current_session: SessionIndex,
    ) -> (r: TransactionValidity)
        requires
            heartbeat.network_state@.len() <= u32::MAX - 17,
        ensures
            spec_validate(
                self.received_heartbeats@,
                self.keys.deep_view(),
                *heartbeat,
                signature@,
                current_session,
                r,
            ),
    {
        if self.received_heartbeats.has_heartbeat(current_session, heartbeat.authority_index) {
            // We already received a heartbeat for this authority.
            return TransactionValidity::Invalid(InvalidTransaction::Stale);
        }
        if heartbeat.session_index != current_session {
            // The heartbeat does not target the current session.
            return TransactionValidity::Invalid(InvalidTransaction::Stale);
        }
        // The incoming (unverified) index must resolve to an authority.
        if (heartbeat.authority_index as usize) >= self.keys.len() {
            return TransactionValidity::Invalid(InvalidTransaction::BadSignature);
        }
        let authority_id = &self.keys[heartbeat.authority_index as usize];
        // Check the signature (this is expensive, so it comes last).
        let encoded = heartbeat.encode();
        proof {
            lemma_encoded_heartbeat_len(
                heartbeat.block_number,
                heartbeat.network_state@,
                heartbeat.session_index,
                heartbeat.authority_index,
            );
        }
        if !sr25519_verify(signature, &encoded, &authority_id.key) {
            return TransactionValidity::Invalid(InvalidTransaction::BadSignature);
        }
        let mut tag = encode_u32(current_session);
        let mut key_bytes = clone_bytes(&authority_id.key);
        tag.append(&mut key_bytes);
        let mut provides: Vec<Vec<u8>> = Vec::new();
        provides.push(tag);
        TransactionValidity::Valid(
            ValidTransaction {
                priority: 0,
                prerequisites: Vec::new(),
                provides,
                longevity: u64::MAX,
                propagate: true,
            },
        )
    }

    /// Installs the next session's roster: clears the outgoing session's
    /// heartbeats, schedules gossip from the current block, and remembers
    /// the new authorities.
    pub fn on_new_session(
        &mut self,
        current_session: SessionIndex,
        block_number: BlockNumber,
        next_keys: Vec<AuthorityId>,
    )
        requires
            old(self).wf(),
        ensures
            final(self).wf(),
            final(self).received_heartbeats@ == spec_clear_session(
                old(self).received_heartbeats@,
                current_session,
            ),
            final(self).gossip_at == block_number,
            final(self).keys == next_keys,
    {
        // Reset heartbeats of the outgoing session.
        self.received_heartbeats.clear_session(current_session);
        // Tell the off-chain worker to start gossipping for the new session.
        self.gossip_at = block_number;
        // Remember who the authorities are for the new session.
        self.keys = next_keys;
    }
}

/// The keys of the first `n` roster positions that have no heartbeat
/// recorded for `session`, in roster order.
pub open spec fn spec_offenders(
    keys: Seq<Seq<u8>>,
    ledger: Map<(SessionIndex, AuthIndex), Seq<u8>>,
    session: SessionIndex,
    n: int,
) -> Seq<Seq<u8>>
    decreases n,
{
    if n <= 0 {
        Seq::empty()
    } else {
        let prefix = spec_offenders(keys, ledger, session, n - 1);
        if !ledger.contains_key((session, (n - 1) as u32)) {
            prefix.push(keys[n - 1])
        } else {
            prefix
        }
    }
}

impl Module {
    /// Builds the unresponsiveness report for the outgoing session: every
    /// roster position without a recorded heartbeat is appended, in roster
    /// order, to the offenders; the report carries the outgoing session,
    /// the era's starting session and the roster size. An empty offender
    /// list still yields a report.
    pub fn on_before_session_ending(
        &self,
        current_session: SessionIndex,
        current_era_start_session_index: SessionIndex,
    ) -> (r: UnresponsivnessOffence)
        requires
            self.keys@.len() <= u32::MAX,
        ensures
            r.session_index == current_session,
            r.current_era_start_session_index == current_era_start_session_index,
            r.validators_count == self.keys@.len(),
            r.offenders.deep_view() == spec_offenders(
                self.keys.deep_view(),
                self.received_heartbeats@,
                current_session,
                self.keys@.len() as int,
            ),
    {
        let mut unresponsive: Vec<AuthorityId> = Vec::new();
        let mut i: usize = 0;
        while i < self.keys.len()
            invariant
                i <= self.keys@.len(),
                self.keys@.len() <= u32::MAX,
                unresponsive.deep_view() == spec_offenders(
                    self.keys.deep_view(),
                    self.received_heartbeats@,
                    current_session,
                    i as int,
                ),
            decreases self.keys@.len() - i,
        {
            if !self.received_heartbeats.has_heartbeat(current_session, i as u32) {
                unresponsive.push(clone_id(&self.keys[i]));
                proof {
                    assert(unresponsive.deep_view() =~= spec_offenders(
                        self.keys.deep_view(),
                        self.received_heartbeats@,
                        current_session,
                        i + 1,
                    ));
                }
            }
            i += 1;
        }
        UnresponsivnessOffence {
            current_era_start_session_index,
            session_index: current_session,
            validators_count: self.keys.len() as u32,
            offenders: unresponsive,
        }
    }
}

/// A heartbeat assembled and signed by the builder is accepted by the
/// admission checks while it is fresh: it targets the current session, its
/// authority index resolves in the roster, its signature verifies over its
/// canonical encoding — exactly what the builder's contract grants of a
/// prepared submission — and no heartbeat is yet recorded for its authority.
pub proof fn lemma_prepared_heartbeat_admitted(
    ledger: Map<(SessionIndex, AuthIndex), Seq<u8>>,
    keys: Seq<Seq<u8>>,
    heartbeat: Heartbeat,
    signature: Seq<u8>,
    current_session: SessionIndex,
    r: TransactionValidity,
)
    requires
        !ledger.contains_key((current_session, heartbeat.authority_index)),
        heartbeat.session_index == current_session,
        heartbeat.authority_index < keys.len(),
        sr25519_verified(
            signature,
            heartbeat.spec_encoded(),
            keys[heartbeat.authority_index as int],
        ),
        spec_validate(ledger, keys, heartbeat, signature, current_session, r),
    ensures
        r matches TransactionValidity::Valid(v) && v.priority == 0 && v.propagate,
{
}

/// Once a heartbeat is recorded for an authority in a session, any admission
/// check for that authority in that session rejects as stale, whatever the
/// payload or the signature.
pub proof fn lemma_recorded_then_stale(
    ledger: Map<(SessionIndex, AuthIndex), Seq<u8>>,
    keys: Seq<Seq<u8>>,
    state: Seq<u8>,
    heartbeat: Heartbeat,
    signature: Seq<u8>,
    current_session: SessionIndex,
    r: TransactionValidity,
)
    requires
        spec_validate(
            spec_record(ledger, current_session, heartbeat.authority_index, state),
            keys,
            heartbeat,
            signature,
            current_session,
            r,
        ),
    ensures
        r == TransactionValidity::Invalid(InvalidTransaction::Stale),
{
}

/// A heartbeat carrying any session other than the current one is rejected
/// as stale, even when its authority has not heartbeated in the current
/// session.
pub proof fn lemma_wrong_session_rejected(
    ledger: Map<(SessionIndex, AuthIndex), Seq<u8>>,
    keys: Seq<Seq<u8>>,
    heartbeat: Heartbeat,
    signature: Seq<u8>,
    current_session: SessionIndex,
    r: TransactionValidity,
)
    requires
        heartbeat.session_index != current_session,
        spec_validate(ledger, keys, heartbeat, signature, current_session, r),
    ensures
        r == TransactionValidity::Invalid(InvalidTransaction::Stale),
{
}

} // verus!
