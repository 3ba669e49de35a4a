//! The heartbeat message and the identities that sign it.

use vstd::prelude::*;
use crate::encoding::{
    clone_bytes, encode_compact_u32, encode_u32, spec_compact_u32, spec_u32_le,
};

verus! {

/// The position of an authority in the session's roster; only valid for the
/// session whose roster snapshot it indexes.
pub type AuthIndex = u32;

/// Monotonically increasing counter identifying a committee epoch.
pub type SessionIndex = u32;

/// A block number of the local chain.
pub type BlockNumber = u32;

/// A detached sr25519 signature (64 bytes), carried alongside a heartbeat
/// and covering its canonical encoding.
pub type AuthoritySignature = Vec<u8>;

/// Public-key identity of a validator, unique within the current authority
/// roster; its position in the roster is the authority index for the session.
pub struct AuthorityId {
    /// The raw public key bytes (32 bytes for an sr25519 key).
    pub key: Vec<u8>,
}

impl View for AuthorityId {
    type V = Seq<u8>;

    open spec fn view(&self) -> Seq<u8> {
        self.key@
    }
}

impl DeepView for AuthorityId {
    type V = Seq<u8>;

    open spec fn deep_view(&self) -> Seq<u8> {
        self.key@
    }
}

/// Copies an authority identity.
pub fn clone_id(id: &AuthorityId) -> (r: AuthorityId)
    ensures
        r@ == id@,
{
    AuthorityId { key: clone_bytes(&id.key) }
}

/// Notification emitted by the ledger domain.
pub enum Event {
    /// A new heartbeat was received from the carried authority.
    HeartbeatReceived(AuthorityId),
}

/// A signed proof-of-liveness message from one authority. Immutable once
/// constructed; it exists only until the admission logic consumes it.
pub struct Heartbeat {
    /// The best block number of the submitting node's chain.
    pub block_number: BlockNumber,
    /// An opaque serialized snapshot of the node's network state.
    pub network_state: Vec<u8>,
    /// The session this heartbeat proves liveness for.
    pub session_index: SessionIndex,
    /// The submitting authority's position in the session's roster.
    pub authority_index: AuthIndex,
}

/// The canonical heartbeat encoding, in this exact field order: block number,
/// length-prefixed network-state snapshot, session index, authority index.
/// The detached signature covers exactly this byte sequence.
pub open spec fn spec_encode_heartbeat(
    block_number: BlockNumber,
    network_state: Seq<u8>,
    session_index: SessionIndex,
    authority_index: AuthIndex,
) -> Seq<u8> {
    spec_u32_le(block_number) + spec_compact_u32(network_state.len() as u32) + network_state
        + spec_u32_le(session_index) + spec_u32_le(authority_index)
}

/// The canonical encoding adds at most 17 bytes to the snapshot: four for
/// the block number, at most five for the compact length prefix, and four
/// each for the session and authority indices. A snapshot bounded by
/// u32::MAX - 17 bytes therefore encodes to at most u32::MAX bytes, the
/// longest message the signing layer accepts.
pub proof fn lemma_encoded_heartbeat_len(
    block_number: BlockNumber,
    network_state: Seq<u8>,
    session_index: SessionIndex,
    authority_index: AuthIndex,
)
    ensures
        spec_encode_heartbeat(block_number, network_state, session_index, authority_index).len()
            <= network_state.len() + 17,
{
}

impl Heartbeat {
    /// The canonical encoding of this heartbeat.
    pub open spec fn spec_encoded(&self) -> Seq<u8> {
        spec_encode_heartbeat(
            self.block_number,
            self.network_state@,
            self.session_index,
            self.authority_index,
        )
    }

    /// Produces the canonical wire encoding, the byte sequence that is
    /// signed and verified. The snapshot bound keeps the encoding within
    /// the longest message the signing layer accepts.
    pub fn encode(&self) -> (r: Vec<u8>)
        requires
            self.network_state@.len() <= u32::MAX - 17,
        ensures
            r@ == self.spec_encoded(),
    {
        let mut out = encode_u32(self.block_number);
        let mut len_prefix = encode_compact_u32(self.network_state.len() as u32);
        out.append(&mut len_prefix);
        let mut state = clone_bytes(&self.network_state);
        out.append(&mut state);
        let mut session = encode_u32(self.session_index);
        out.append(&mut session);
        let mut index = encode_u32(self.authority_index);
        out.append(&mut index);
        out
    }
}

} // verus!
