//! Hash functions.
//!
//! SHA-256 and HASH160 are computed by the `bitcoin` crate's hash module; the
//! double and the tagged hash are built from SHA-256 here.

use vstd::prelude::*;

verus! {

/// The SHA-256 digest of `data`.
pub uninterp spec fn sha256(data: Seq<u8>) -> Seq<u8>;

/// The HASH160 digest of `data`: RIPEMD-160 applied to its SHA-256 digest.
pub uninterp spec fn hash160(data: Seq<u8>) -> Seq<u8>;

/// SHA-256 applied twice.
pub open spec fn sha256d(data: Seq<u8>) -> Seq<u8> {
    sha256(sha256(data))
}

/// The domain-separated hash of `msg` under `tag`: SHA-256 over the tag's
/// digest, written twice, followed by the message.
pub open spec fn tagged_hash(tag: Seq<u8>, msg: Seq<u8>) -> Seq<u8> {
    sha256(sha256(tag) + sha256(tag) + msg)
}

/// The ASCII bytes of `TapSighash`.
pub open spec fn tap_sighash_tag() -> Seq<u8> {
    seq![0x54u8, 0x61u8, 0x70u8, 0x53u8, 0x69u8, 0x67u8, 0x68u8, 0x61u8, 0x73u8, 0x68u8]
}

/// The ASCII bytes of `TapTweak`.
pub open spec fn tap_tweak_tag() -> Seq<u8> {
    seq![0x54u8, 0x61u8, 0x70u8, 0x54u8, 0x77u8, 0x65u8, 0x61u8, 0x6bu8]
}

/// The ASCII bytes of `TapLeaf`.
pub open spec fn tap_leaf_tag() -> Seq<u8> {
    seq![0x54u8, 0x61u8, 0x70u8, 0x4cu8, 0x65u8, 0x61u8, 0x66u8]
}

/// Calls `bitcoin::hashes::sha256::Hash::hash` and copies the digest out.
/// Trusted: the result is the SHA-256 digest of `data`, which is 32 bytes long.
#[verifier::external_body]
pub(crate) fn sha256_bytes(data: &[u8]) -> (out: Vec<u8>)
    ensures
        out@ == sha256(data@),
        out@.len() == 32,
{
    let digest = <bitcoin::hashes::sha256::Hash as bitcoin::hashes::Hash>::hash(data);
    <bitcoin::hashes::sha256::Hash as bitcoin::hashes::Hash>::to_byte_array(digest).to_vec()
}

/// Calls `bitcoin::hashes::hash160::Hash::hash` and copies the digest out.
/// Trusted: the result is the HASH160 digest of `data`, which is 20 bytes long.
#[verifier::external_body]
pub(crate) fn hash160_bytes(data: &[u8]) -> (out: Vec<u8>)
    ensures
        out@ == hash160(data@),
        out@.len() == 20,
{
    let digest = <bitcoin::hashes::hash160::Hash as bitcoin::hashes::Hash>::hash(data);
    <bitcoin::hashes::hash160::Hash as bitcoin::hashes::Hash>::to_byte_array(digest).to_vec()
}

/// SHA-256 applied twice to `data`.
pub fn sha256d_bytes(data: &[u8]) -> (out: Vec<u8>)
    ensures
        out@ == sha256d(data@),
        out@.len() == 32,
{
    let first = sha256_bytes(data);
    sha256_bytes(first.as_slice())
}

/// The tagged hash of `msg` under `tag`.
pub fn tagged_hash_bytes(tag: &[u8], msg: &[u8]) -> (out: Vec<u8>)
    ensures
        out@ == tagged_hash(tag@, msg@),
        out@.len() == 32,
{
    let tag_digest = sha256_bytes(tag);
    let mut buffer: Vec<u8> = Vec::new();
    buffer.extend_from_slice(tag_digest.as_slice());
    buffer.extend_from_slice(tag_digest.as_slice());
    buffer.extend_from_slice(msg);
    assert(buffer@ =~= sha256(tag@) + sha256(tag@) + msg@);
    sha256_bytes(buffer.as_slice())
}

/// The hash function that a caller selects for the commitments of a preimage.
#[derive(Clone, Copy, Debug, PartialEq, Eq, Structural)]
pub enum Hasher {
    /// One application of SHA-256.
    Sha256,
    /// Two applications of SHA-256.
    Sha256d,
}

impl Hasher {
    /// The digest that this hash function gives for `data`.
    pub open spec fn digest(self, data: Seq<u8>) -> Seq<u8> {
        match self {
            Hasher::Sha256 => sha256(data),
            Hasher::Sha256d => sha256d(data),
        }
    }

    /// Hashes `data` with the selected function.
    pub fn hash(&self, data: &[u8]) -> (out: Vec<u8>)
        ensures
            out@ == self.digest(data@),
            out@.len() == 32,
    {
        match self {
            Hasher::Sha256 => sha256_bytes(data),
            Hasher::Sha256d => sha256d_bytes(data),
        }
    }
}

} // verus!
