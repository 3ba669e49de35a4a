//! sr25519 signing and verification, through the `schnorrkel` crate.
//!
//! Verification is a pure function of the signature, message and public-key
//! bytes; its outcome is named by an uninterpreted spec function, so admission
//! contracts can speak of it exactly without restating the cryptography.

use vstd::prelude::*;

verus! {

/// Declares schnorrkel's keypair type so library signatures can carry it;
/// its value is opaque to verification.
#[verifier::external_type_specification]
#[verifier::external_body]
pub struct ExKeypair(schnorrkel::Keypair);

/// The local node's authority keypair.
pub type AuthorityPair = schnorrkel::Keypair;

/// Whether `sig` is a valid sr25519 signature over `msg` by the public key
/// `key`, under this crate's fixed signing context. The outcome depends on
/// the three byte strings alone; it is decided only by `sr25519_verify`.
pub uninterp spec fn sr25519_verified(sig: Seq<u8>, msg: Seq<u8>, key: Seq<u8>) -> bool;

/// Relies on schnorrkel's `PublicKey::from_bytes`, `Signature::from_bytes`
/// and `PublicKey::verify_simple` under the `b"substrate"` signing context:
/// together they decide, deterministically in the three byte strings,
/// whether the signature verifies (byte strings that parse as no valid key
/// or signature never verify). The transcript underneath aborts on a
/// message longer than u32::MAX bytes, so such messages are excluded.
#[verifier::external_body]
pub(crate) fn sr25519_verify(sig: &Vec<u8>, msg: &Vec<u8>, key: &Vec<u8>) -> (r: bool)
    requires
        msg@.len() <= u32::MAX,
    ensures
        r == sr25519_verified(sig@, msg@, key@),
{
    let public = match schnorrkel::PublicKey::from_bytes(key.as_slice()) {
        Ok(p) => p,
        Err(_) => return false,
    };
    let signature = match schnorrkel::Signature::from_bytes(sig.as_slice()) {
        Ok(s) => s,
        Err(_) => return false,
    };
    public.verify_simple(b"substrate", msg.as_slice(), &signature).is_ok()
}

/// Relies on schnorrkel's `Keypair::sign_simple` under the `b"substrate"`
/// signing context and `Signature::to_bytes`: the signature is 64 bytes.
/// Signing draws randomness, so nothing more is claimed of the bytes; the
/// call can also abort if the platform's randomness source fails, an
/// environmental condition no precondition can exclude. The transcript
/// underneath aborts on a message longer than u32::MAX bytes, so such
/// messages are excluded.
#[verifier::external_body]
pub(crate) fn sr25519_sign(pair: &schnorrkel::Keypair, msg: &Vec<u8>) -> (r: Vec<u8>)
    requires
        msg@.len() <= u32::MAX,
    ensures
        r@.len() == 64,
{
    pair.sign_simple(b"substrate", msg.as_slice()).to_bytes().to_vec()
}

} // verus!
