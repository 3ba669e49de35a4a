//! The off-chain domain: the per-block worker tick that decides when this
//! node should gossip a heartbeat, and the builder that assembles and signs
//! the heartbeat payload.
//!
//! Multiple worker instances may overlap (re-entrant triggers, restarts) with
//! no shared memory; their only synchronization is an atomic compare-and-set
//! on one persisted status record. Losing that compare-and-set is a normal,
//! silent outcome. Cross-node duplicates are not prevented here at all; the
//! ledger-level duplicate check is the final backstop.

use vstd::prelude::*;
use crate::crypto::{sr25519_sign, sr25519_verify, sr25519_verified, AuthorityPair};
use crate::encoding::{
    bytes_equal, clone_bytes, encode_bool, encode_u32, lemma_u32_le_round_trip,
    decode_status_bytes, spec_bool_byte, spec_decode_status, spec_u32_le,
};
use crate::heartbeat::{
    lemma_encoded_heartbeat_len, AuthIndex, AuthorityId, AuthoritySignature, BlockNumber,
    Heartbeat, SessionIndex,
};
use crate::module::Module;

verus! {

/// Progress of this node's current gossip round, persisted locally (never
/// shared between nodes). Absent means "not yet gossipped".
#[derive(Clone, Copy, PartialEq, Eq, Structural, Debug)]
pub struct WorkerStatus {
    /// Whether a submission attempt has completed this round (whether or not
    /// the attempt itself succeeded).
    pub done: bool,
    /// The block at which the round's attempt started.
    pub gossipping_at: BlockNumber,
}

/// An error of the off-chain domain. Every member is non-fatal: the round is
/// abandoned, and the status is still marked done so the node does not
/// spin-retry within the round.
#[derive(Clone, Copy, PartialEq, Eq, Structural, Debug)]
pub enum OffchainErr {
    /// The persisted worker status failed to decode.
    DecodeWorkerStatus,
    /// No local authority key is available.
    NoKeys,
    /// Building the submittable transaction failed.
    ExtrinsicCreation,
    /// Signing the heartbeat failed.
    FailedSigning,
    /// Fetching the network-state snapshot failed.
    NetworkState,
    /// Handing the transaction to the submission layer failed.
    SubmitTransaction,
}

impl OffchainErr {
    /// The fixed log line for this error.
    pub open spec fn spec_message(self) -> Seq<char> {
        match self {
            OffchainErr::DecodeWorkerStatus => "Offchain error: decoding WorkerStatus failed!"@,
            OffchainErr::NoKeys => "Offchain error: could not find local keys!"@,
            OffchainErr::ExtrinsicCreation => "Offchain error: extrinsic creation failed!"@,
            OffchainErr::FailedSigning => "Offchain error: signing failed!"@,
            OffchainErr::NetworkState => "Offchain error: fetching network state failed!"@,
            OffchainErr::SubmitTransaction => "Offchain error: submitting transaction failed!"@,
        }
    }

    /// The fixed log line for this error; printing it is the caller's
    /// business.
    pub fn message(&self) -> (r: &'static str)
        ensures
            r@ == self.spec_message(),
    {
        match self {
            OffchainErr::DecodeWorkerStatus => "Offchain error: decoding WorkerStatus failed!",
            OffchainErr::NoKeys => "Offchain error: could not find local keys!",
            OffchainErr::ExtrinsicCreation => "Offchain error: extrinsic creation failed!",
            OffchainErr::FailedSigning => "Offchain error: signing failed!",
            OffchainErr::NetworkState => "Offchain error: fetching network state failed!",
            OffchainErr::SubmitTransaction => "Offchain error: submitting transaction failed!",
        }
    }
}

/// The encoded worker status: the done flag's byte, then the block number's
/// four little-endian bytes.
pub open spec fn spec_status_bytes(done: bool, gossipping_at: BlockNumber) -> Seq<u8> {
    spec_bool_byte(done) + spec_u32_le(gossipping_at)
}

/// Encodes a worker status record for persistence.
pub fn worker_status_bytes(done: bool, gossipping_at: BlockNumber) -> (r: Vec<u8>)
    ensures
        r@ == spec_status_bytes(done, gossipping_at),
{
    let mut out = encode_bool(done);
    let mut block = encode_u32(gossipping_at);
    out.append(&mut block);
    out
}

/// Decoding an encoded worker status yields the status back.
pub proof fn lemma_status_round_trip(done: bool, gossipping_at: BlockNumber)
    ensures
        spec_decode_status(spec_status_bytes(done, gossipping_at)) == Some(
            (done, gossipping_at),
        ),
{
    let s = spec_status_bytes(done, gossipping_at);
    assert(s.subrange(1, 5) =~= spec_u32_le(gossipping_at));
    lemma_u32_le_round_trip(gossipping_at);
}

/// The bytes a stored value holds, if one is stored.
pub open spec fn spec_opt_bytes(v: Option<Vec<u8>>) -> Option<Seq<u8>> {
    match v {
        Some(b) => Some(b@),
        None => None,
    }
}

/// An atomic conditional update on a stored value: the write applies only
/// when the store still holds what the writer last observed.
pub open spec fn spec_cas(
    stored: Option<Seq<u8>>,
    expected: Option<Seq<u8>>,
    new_value: Seq<u8>,
) -> (bool, Option<Seq<u8>>) {
    if stored == expected {
        (true, Some(new_value))
    } else {
        (false, stored)
    }
}

/// The node's persistent local store for the worker status record: a single
/// cell supporting get, atomic compare-and-set and unconditional set. It
/// models the storage engine's fixed namespaced key; all scheduling
/// correctness reduces to the compare-and-set being atomic.
pub struct StatusStore {
    /// The stored encoded status, absent before the first round.
    pub value: Option<Vec<u8>>,
}

impl View for StatusStore {
    type V = Option<Seq<u8>>;

    open spec fn view(&self) -> Option<Seq<u8>> {
        spec_opt_bytes(self.value)
    }
}

impl StatusStore {
    /// An empty store: no round was ever started.
    pub fn new() -> (r: StatusStore)
        ensures
            r@ is None,
    {
        StatusStore { value: None }
    }

    /// The stored bytes, if any.
    pub fn get(&self) -> (r: Option<Vec<u8>>)
        ensures
            spec_opt_bytes(r) == self@,
    {
        match &self.value {
            None => None,
            Some(bytes) => Some(clone_bytes(bytes)),
        }
    }

    /// Atomic compare-and-set: writes `new_value` only if the store still
    /// holds `expected`, and reports whether it did.
    pub fn compare_and_set(&mut self, expected: &Option<Vec<u8>>, new_value: Vec<u8>) -> (r: bool)
        ensures
            (r, final(self)@) == spec_cas(old(self)@, spec_opt_bytes(*expected), new_value@),
    {
        let unchanged = match (&self.value, expected) {
            (None, None) => true,
            (Some(stored), Some(observed)) => bytes_equal(stored, observed),
            _ => false,
        };
        if unchanged {
            self.value = Some(new_value);
            true
        } else {
            false
        }
    }

    /// Unconditional write.
    pub fn set(&mut self, new_value: Vec<u8>)
        ensures
            final(self)@ == Some(new_value@),
    {
        self.value = Some(new_value);
    }
}

/// Whether a decoded status allows a new gossip attempt: either an earlier
/// attempt was aborted (not done, started at an earlier block) and no other
/// worker is submitting at this very block, or the last attempt completed
/// before the currently scheduled round began.
pub open spec fn spec_not_yet_gossipped(
    status: WorkerStatus,
    now: BlockNumber,
    next_gossip: BlockNumber,
) -> bool {
    let was_aborted = !status.done && status.gossipping_at < now;
    let already_submitting = !status.done && status.gossipping_at == now;
    let done_before_this_round = status.done && status.gossipping_at < next_gossip;
    (was_aborted && !already_submitting) || done_before_this_round
}

/// What `check_not_yet_gossipped` returns for given persisted bytes: absent
/// status means "not yet gossipped"; undecodable bytes are an error.
pub open spec fn spec_check_not_yet_gossipped(
    stored: Option<Seq<u8>>,
    now: BlockNumber,
    next_gossip: BlockNumber,
) -> Result<bool, OffchainErr> {
    match stored {
        None => Ok(true),
        Some(bytes) => match spec_decode_status(bytes) {
            None => Err(OffchainErr::DecodeWorkerStatus),
            Some((done, gossipping_at)) => Ok(
                spec_not_yet_gossipped(WorkerStatus { done, gossipping_at }, now, next_gossip),
            ),
        },
    }
}

/// Checks whether a heartbeat gossip already occurred for the current round,
/// from the persisted worker status as last read.
pub fn check_not_yet_gossipped(
    now: BlockNumber,
    next_gossip: BlockNumber,
    last_gossip: &Option<Vec<u8>>,
) -> (r: Result<bool, OffchainErr>)
    ensures
        r == spec_check_not_yet_gossipped(spec_opt_bytes(*last_gossip), now, next_gossip),
{
    match last_gossip {
        None => Ok(true),
        Some(bytes) => match decode_status_bytes(bytes) {
            None => Err(OffchainErr::DecodeWorkerStatus),
            Some((done, gossipping_at)) => {
                let worker_status = WorkerStatus { done, gossipping_at };
                let was_aborted = !worker_status.done && worker_status.gossipping_at < now;
                // Another off-chain worker is currently in the process of
                // submitting at this very block.
                let already_submitting = !worker_status.done && worker_status.gossipping_at == now;
                let not_yet_gossipped = worker_status.done && worker_status.gossipping_at
                    < next_gossip;
                Ok((was_aborted && !already_submitting) || not_yet_gossipped)
            },
        },
    }
}

/// Starts a gossip round: writes a not-done status at the current block,
/// but only if the store still holds what this worker last observed. A
/// failed write means another worker started first; the caller abandons the
/// tick silently.
pub fn compare_and_set_worker_status(
    store: &mut StatusStore,
    gossipping_at: BlockNumber,
    done: bool,
    curr_worker_status: &Option<Vec<u8>>,
) -> (r: bool)
    ensures
        (r, final(store)@) == spec_cas(
            old(store)@,
            spec_opt_bytes(*curr_worker_status),
            spec_status_bytes(done, gossipping_at),
        ),
{
    let encoded = worker_status_bytes(done, gossipping_at);
    store.compare_and_set(curr_worker_status, encoded)
}

/// Unconditionally overwrites the round's status; used once an attempt has
/// been made, since the worker owns the round after winning the earlier
/// compare-and-set.
pub fn set_worker_status(store: &mut StatusStore, gossipping_at: BlockNumber, done: bool)
    ensures
        final(store)@ == Some(spec_status_bytes(done, gossipping_at)),
{
    let encoded = worker_status_bytes(done, gossipping_at);
    store.set(encoded);
}

/// A node's own updates never move the persisted `gossipping_at` backwards:
/// whenever a decodable stored status lets a tick at block `now` proceed (the
/// round being due, `next_gossip < now`), that status was recorded at an
/// earlier block, and the tick claims and completes the round at `now`.
pub proof fn lemma_gossipping_at_monotonic(
    status: WorkerStatus,
    now: BlockNumber,
    next_gossip: BlockNumber,
)
    requires
        next_gossip < now,
        spec_not_yet_gossipped(status, now, next_gossip),
    ensures
        status.gossipping_at < now,
{
}

/// Two workers tick at the same block and both observe an absent status;
/// they race to claim the round with a compare-and-set. Whichever write
/// reaches the store first succeeds; the other's then fails and changes
/// nothing, so exactly one worker proceeds to submit.
pub proof fn lemma_concurrent_claim_single_winner(claim1: Seq<u8>, claim2: Seq<u8>)
    ensures
        ({
            let first = spec_cas(None, None, claim1);
            let second = spec_cas(first.1, None, claim2);
            first.0 && !second.0 && second.1 == Some(claim1)
        }),
{
}

impl Module {
    /// One off-chain tick, run after every locally produced block: reads the
    /// persisted status and, when the scheduled round is due and not yet
    /// gossipped, claims the round by compare-and-set. Returns whether this
    /// worker should now attempt a submission (having claimed the round), or
    /// the error when the persisted status is undecodable.
    pub fn offchain(&self, store: &mut StatusStore, now: BlockNumber) -> (r: Result<bool, OffchainErr>)
        ensures
            ({
                match spec_check_not_yet_gossipped(old(store)@, now, self.gossip_at) {
                    Err(e) => r == Err::<bool, OffchainErr>(e) && final(store)@ == old(store)@,
                    Ok(not_yet_gossipped) => {
                        let due = self.gossip_at < now && not_yet_gossipped;
                        &&& r == Ok::<bool, OffchainErr>(due)
                        &&& (due ==> final(store)@ == Some(spec_status_bytes(false, now)))
                        &&& (!due ==> final(store)@ == old(store)@)
                    },
                }
            }),
    {
        let next_gossip = self.gossip_at;
        let curr_worker_status = store.get();
        let not_yet_gossipped = match check_not_yet_gossipped(
            now,
            next_gossip,
            &curr_worker_status,
        ) {
            Ok(v) => v,
            Err(err) => {
                return Err(err);
            },
        };
        if next_gossip < now && not_yet_gossipped {
            let value_set = compare_and_set_worker_status(store, now, false, &curr_worker_status);
            // Within one tick the store cannot have changed since this same
            // tick read it, so the claim always succeeds here; a concurrent
            // tick fails this compare-and-set instead and abandons its round.
            Ok(value_set)
        } else {
            Ok(false)
        }
    }

    /// The compute core of a gossip attempt: finds the local authority's
    /// roster position (a linear scan over the roster; the first position
    /// whose public key equals `local_key` wins), assembles the heartbeat
    /// for this block, session and network-state snapshot, signs its
    /// canonical encoding, and checks the fresh signature over that
    /// encoding before handing it out, so a prepared submission is known to
    /// verify under the roster key it names. `Ok(None)` means the local key
    /// is not in the roster: the node is simply not an authority this
    /// session and the round is skipped. An error means the signature the
    /// signer produced did not pass the check.
    pub fn prepare_heartbeat(
        &self,
        pair: &AuthorityPair,
        local_key: &Vec<u8>,
        block_number: BlockNumber,
        session_index: SessionIndex,
        network_state: Vec<u8>,
    ) -> (r: Result<Option<(Heartbeat, AuthoritySignature)>, OffchainErr>)
        requires
            self.keys@.len() <= u32::MAX,
            network_state@.len() <= u32::MAX - 17,
        ensures
            match r {
                Ok(Some(prepared)) => {
                    &&& prepared.0.block_number == block_number
                    &&& prepared.0.network_state@ == network_state@
                    &&& prepared.0.session_index == session_index
                    &&& (prepared.0.authority_index as int) < self.keys@.len()
                    &&& self.keys.deep_view()[prepared.0.authority_index as int] == local_key@
                    &&& (forall|j: int|
                        0 <= j < prepared.0.authority_index ==> self.keys.deep_view()[j]
                            != local_key@)
                    &&& prepared.1@.len() == 64
                    &&& sr25519_verified(
                        prepared.1@,
                        prepared.0.spec_encoded(),
                        self.keys.deep_view()[prepared.0.authority_index as int],
                    )
                },
                Ok(None) => forall|j: int|
                    0 <= j < self.keys@.len() ==> self.keys.deep_view()[j] != local_key@,
                Err(e) => e == OffchainErr::FailedSigning && (exists|j: int|
                    0 <= j < self.keys@.len() && self.keys.deep_view()[j] == local_key@),
            },
    {
        match find_authority_index(&self.keys, local_key) {
            None => Ok(None),
            Some(authority_index) => {
                let heartbeat_data = Heartbeat {
                    block_number,
                    network_state,
                    session_index,
                    authority_index,
                };
                let encoded = heartbeat_data.encode();
                proof {
                    lemma_encoded_heartbeat_len(
                        heartbeat_data.block_number,
                        heartbeat_data.network_state@,
                        heartbeat_data.session_index,
                        heartbeat_data.authority_index,
                    );
                }
                let signature = sr25519_sign(pair, &encoded);
                // Check the fresh signature against the roster key it will
                // be verified under, so admission is known to accept it.
                let roster_key = &self.keys[authority_index as usize].key;
                if sr25519_verify(&signature, &encoded, roster_key) {
                    Ok(Some((heartbeat_data, signature)))
                } else {
                    Err(OffchainErr::FailedSigning)
                }
            },
        }
    }
}

/// Finds the local authority's roster position: the first index whose public
/// key equals `local_key`, if any.
pub fn find_authority_index(keys: &Vec<AuthorityId>, local_key: &Vec<u8>) -> (r: Option<AuthIndex>)
    requires
        keys@.len() <= u32::MAX,
    ensures
        match r {
            Some(i) => (i as int) < keys@.len() && keys.deep_view()[i as int] == local_key@
                && (forall|j: int| 0 <= j < i ==> keys.deep_view()[j] != local_key@),
            None => forall|j: int| 0 <= j < keys@.len() ==> keys.deep_view()[j] != local_key@,
        },
{
    let mut i: usize = 0;
    while i < keys.len()
        invariant
            i <= keys@.len(),
            keys@.len() <= u32::MAX,
            forall|j: int| 0 <= j < i ==> keys.deep_view()[j] != local_key@,
        decreases keys@.len() - i,
    {
        if bytes_equal(&keys[i].key, local_key) {
            return Some(i as AuthIndex);
        }
        i += 1;
    }
    None
}

} // verus!
