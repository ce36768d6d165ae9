//! Elliptic-curve operations, taken from the `bitcoin` and `secp256k1` crates.

use vstd::prelude::*;

verus! {

/// Whether `data` is the encoding of a public key: 33 bytes for a compressed
/// point, 65 bytes that begin with `0x04` for an uncompressed one, and in
/// both cases a point of the curve.
pub uninterp spec fn public_key_valid(data: Seq<u8>) -> bool;

/// The key with even or odd parity (`true` for odd) that adding the
/// generator times `tweak` to the x-only key `key` gives, where both are
/// 32 bytes long, `key` is an x coordinate of the curve, `tweak` is below the
/// curve order and the sum is a point.
pub uninterp spec fn tweaked_key(key: Seq<u8>, tweak: Seq<u8>) -> Option<(bool, Seq<u8>)>;

/// The x coordinate of a public key: the 32 bytes behind the first byte of
/// its encoding.
pub open spec fn x_only(public_key: Seq<u8>) -> Seq<u8> {
    public_key.subrange(1, 33)
}

/// Calls `bitcoin::PublicKey::from_slice` and says whether it accepted the
/// bytes. Trusted: the answer depends on the bytes alone, and accepted bytes
/// are 33 or 65 long.
#[verifier::external_body]
pub(crate) fn is_valid_public_key(data: &[u8]) -> (valid: bool)
    ensures
        valid == public_key_valid(data@),
        valid ==> data@.len() == 33 || data@.len() == 65,
{
    bitcoin::PublicKey::from_slice(data).is_ok()
}

/// Calls `secp256k1::XOnlyPublicKey::add_tweak` on the key that
/// `XOnlyPublicKey::from_slice` reads and the scalar that
/// `Scalar::from_be_bytes` reads, and serializes the sum. Trusted: the result
/// depends on the two byte strings alone, and a key that comes out is 32
/// bytes long. Any failure of the three calls gives `None`.
#[verifier::external_body]
pub(crate) fn xonly_add_tweak(key: &[u8], tweak: &[u8]) -> (res: Option<(bool, Vec<u8>)>)
    ensures
        match res {
            Some((odd, out)) => tweaked_key(key@, tweak@) == Some((odd, out@)) && out@.len() == 32,
            None => tweaked_key(key@, tweak@) is None,
        },
{
    let secp = secp256k1::Secp256k1::verification_only();
    let point = secp256k1::XOnlyPublicKey::from_slice(key).ok()?;
    let bytes: [u8; 32] = tweak.try_into().ok()?;
    let scalar = secp256k1::Scalar::from_be_bytes(bytes).ok()?;
    let (sum, parity) = point.add_tweak(&secp, &scalar).ok()?;
    let odd = match parity {
        secp256k1::Parity::Even => false,
        secp256k1::Parity::Odd => true,
    };
    Some((odd, sum.serialize().to_vec()))
}

/// The x coordinate of a public key that was accepted.
pub fn x_only_bytes(public_key: &[u8]) -> (out: Vec<u8>)
    requires
        public_key@.len() >= 33,
    ensures
        out@ == x_only(public_key@),
        out@.len() == 32,
{
    let mut out: Vec<u8> = Vec::new();
    let mut i: usize = 1;
    while i < 33
        invariant
            1 <= i <= 33,
            public_key@.len() >= 33,
            out@ == public_key@.subrange(1, i as int),
        decreases 33 - i,
    {
        out.push(public_key[i]);
        assert(out@ =~= public_key@.subrange(1, i + 1));
        i += 1;
    }
    out
}

} // verus!
