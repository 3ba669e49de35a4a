//! Canonical wire encodings.
//!
//! Heartbeats are signed over their canonical byte encoding, and the worker
//! status record is persisted in encoded form, so both sides of the protocol
//! must agree on these bytes exactly. The primitive encodings are produced by
//! the `parity_scale_codec` crate behind trusted wrappers whose contracts
//! state the exact byte sequences; everything built on top of them is
//! verified.

use vstd::prelude::*;

verus! {

/// The four little-endian bytes of a 32-bit unsigned integer.
pub open spec fn spec_u32_le(x: u32) -> Seq<u8> {
    seq![
        (x & 0xff) as u8,
        ((x >> 8) & 0xff) as u8,
        ((x >> 16) & 0xff) as u8,
        ((x >> 24) & 0xff) as u8,
    ]
}

/// The 32-bit unsigned integer read from four little-endian bytes.
pub open spec fn spec_u32_from_le(s: Seq<u8>) -> u32
    recommends
        s.len() == 4,
{
    (s[0] as u32) | ((s[1] as u32) << 8) | ((s[2] as u32) << 16) | ((s[3] as u32) << 24)
}

/// The single byte encoding a boolean: 1 for true, 0 for false.
pub open spec fn spec_bool_byte(b: bool) -> Seq<u8> {
    seq![if b { 1u8 } else { 0u8 }]
}

/// The compact (variable-length) encoding of a 32-bit unsigned integer:
/// the two low bits of the first byte select among a one-, two-, four- or
/// five-byte form, and the remaining bits carry the value, little-endian.
pub open spec fn spec_compact_u32(n: u32) -> Seq<u8> {
    if n < 64 {
        seq![(n << 2) as u8]
    } else if n < 16384 {
        seq![((n << 2) | 1) as u8, ((n >> 6) & 0xff) as u8]
    } else if n < 0x4000_0000 {
        spec_u32_le((n << 2) | 2)
    } else {
        seq![3u8] + spec_u32_le(n)
    }
}

/// Reading back the four little-endian bytes of a value gives the value.
pub proof fn lemma_u32_le_round_trip(x: u32)
    ensures
        spec_u32_from_le(spec_u32_le(x)) == x,
{
    assert((((x & 0xff) as u8) as u32) | ((((x >> 8) & 0xff) as u8) as u32) << 8 | ((((x >> 16)
        & 0xff) as u8) as u32) << 16 | ((((x >> 24) & 0xff) as u8) as u32) << 24 == x)
        by (bit_vector);
}

/// Copies a byte vector.
pub fn clone_bytes(v: &Vec<u8>) -> (r: Vec<u8>)
    ensures
        r@ == v@,
{
    let mut out: Vec<u8> = Vec::new();
    let mut i: usize = 0;
    while i < v.len()
        invariant
            i <= v@.len(),
            out@ == v@.subrange(0, i as int),
        decreases v@.len() - i,
    {
        out.push(v[i]);
        proof {
            assert(out@ =~= v@.subrange(0, i + 1));
        }
        i += 1;
    }
    proof {
        assert(v@.subrange(0, v@.len() as int) =~= v@);
    }
    out
}

/// Compares two byte vectors for equality of their contents.
pub fn bytes_equal(a: &Vec<u8>, b: &Vec<u8>) -> (r: bool)
    ensures
        r == (a@ == b@),
{
    if a.len() != b.len() {
        return false;
    }
    let mut i: usize = 0;
    while i < a.len()
        invariant
            i <= a@.len(),
            a@.len() == b@.len(),
            forall|j: int| 0 <= j < i ==> a@[j] == b@[j],
        decreases a@.len() - i,
    {
        if a[i] != b[i] {
            return false;
        }
        i += 1;
    }
    proof {
        assert(a@ =~= b@);
    }
    true
}

/// Relies on `parity_scale_codec`'s `Encode` impl for `u32`, which emits the
/// value's four little-endian bytes.
#[verifier::external_body]
pub(crate) fn encode_u32(x: u32) -> (r: Vec<u8>)
    ensures
        r@ == spec_u32_le(x),
{
    parity_scale_codec::Encode::encode(&x)
}

/// Relies on `parity_scale_codec`'s `Encode` impl for `bool`, which emits a
/// single byte, 1 for true and 0 for false.
#[verifier::external_body]
pub(crate) fn encode_bool(b: bool) -> (r: Vec<u8>)
    ensures
        r@ == spec_bool_byte(b),
{
    parity_scale_codec::Encode::encode(&b)
}

/// Relies on `parity_scale_codec`'s `Encode` impl for `Compact<u32>`: values
/// below 2^6 take one byte (value shifted left twice), values below 2^14 two
/// bytes (shifted, low bits 01, little-endian), values below 2^30 four bytes
/// (shifted, low bits 10, little-endian), and larger values a 0b11 marker
/// byte followed by the plain four little-endian bytes.
#[verifier::external_body]
pub(crate) fn encode_compact_u32(x: u32) -> (r: Vec<u8>)
    ensures
        r@ == spec_compact_u32(x),
{
    parity_scale_codec::Encode::encode(&parity_scale_codec::Compact(x))
}

/// A decoded worker status record: the flag byte followed by four
/// little-endian bytes, with any trailing bytes ignored. `None` when the
/// input is shorter than five bytes or the flag byte is neither 0 nor 1.
pub open spec fn spec_decode_status(s: Seq<u8>) -> Option<(bool, u32)> {
    if s.len() >= 5 && (s[0] == 0 || s[0] == 1) {
        Some(((s[0] == 1), spec_u32_from_le(s.subrange(1, 5))))
    } else {
        None
    }
}

/// Relies on `parity_scale_codec`'s `Decode` impls for `bool` (one byte that
/// must be 0 or 1) and `u32` (four little-endian bytes), applied in sequence
/// by the tuple impl; decoding fails when the input runs out or the boolean
/// byte is invalid, and trailing bytes are left unread.
#[verifier::external_body]
pub(crate) fn decode_status_bytes(bytes: &Vec<u8>) -> (r: Option<(bool, u32)>)
    ensures
        r == spec_decode_status(bytes@),
{
    let mut input: &[u8] = bytes.as_slice();
    <(bool, u32) as parity_scale_codec::Decode>::decode(&mut input).ok()
}

} // verus!
