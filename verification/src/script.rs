//! The byte layouts of the spending conditions.

use vstd::prelude::*;
use crate::encode::{u16_le, u32_le, var_bytes, Stream};
use crate::hashing::{tagged_hash, tagged_hash_bytes, tap_leaf_tag, tap_tweak_tag};

verus! {

pub const OP_0: u8 = 0x00;
pub const OP_PUSHDATA1: u8 = 0x4c;
pub const OP_PUSHDATA2: u8 = 0x4d;
pub const OP_PUSHDATA4: u8 = 0x4e;
pub const OP_PUSHNUM_1: u8 = 0x51;
pub const OP_IF: u8 = 0x63;
pub const OP_ENDIF: u8 = 0x68;
pub const OP_DUP: u8 = 0x76;
pub const OP_EQUALVERIFY: u8 = 0x88;
pub const OP_HASH160: u8 = 0xa9;
pub const OP_CHECKSIG: u8 = 0xac;

/// The leaf version of a tapscript.
pub const LEAF_VERSION_TAPSCRIPT: u8 = 0xc0;

/// A data push: the bytes behind the shortest length marker of the four
/// that the script language has.
pub open spec fn push_bytes(data: Seq<u8>) -> Seq<u8>
    recommends
        data.len() <= u32::MAX,
{
    if data.len() < 0x4c {
        seq![data.len() as u8] + data
    } else if data.len() < 0x100 {
        seq![OP_PUSHDATA1, data.len() as u8] + data
    } else if data.len() < 0x10000 {
        seq![OP_PUSHDATA2] + u16_le(data.len() as u16) + data
    } else {
        seq![OP_PUSHDATA4] + u32_le(data.len() as u32) + data
    }
}

/// The script that pays to the hash of a public key.
pub open spec fn p2pkh_script(hash: Seq<u8>) -> Seq<u8> {
    seq![OP_DUP, OP_HASH160] + push_bytes(hash) + seq![OP_EQUALVERIFY, OP_CHECKSIG]
}

/// The version-0 witness program that pays to the hash of a public key.
pub open spec fn p2wpkh_script(hash: Seq<u8>) -> Seq<u8> {
    seq![OP_0] + push_bytes(hash)
}

/// The version-1 witness program that pays to an output key.
pub open spec fn p2tr_script(output_key: Seq<u8>) -> Seq<u8> {
    seq![OP_PUSHNUM_1] + push_bytes(output_key)
}

/// The tweak that commits an internal key to a script tree, or to none: the
/// hash under the tag `TapTweak` of the key, followed by the root of the tree
/// where there is one.
pub open spec fn tap_tweak_hash(internal_key: Seq<u8>, merkle_root: Option<Seq<u8>>) -> Seq<u8> {
    match merkle_root {
        Some(root) => tagged_hash(tap_tweak_tag(), internal_key + root),
        None => tagged_hash(tap_tweak_tag(), internal_key),
    }
}

/// The hash of a tapscript leaf: under the tag `TapLeaf`, the leaf version
/// followed by the script behind its length.
pub open spec fn tap_leaf_hash(script: Seq<u8>) -> Seq<u8> {
    tagged_hash(tap_leaf_tag(), seq![LEAF_VERSION_TAPSCRIPT] + var_bytes(script))
}

/// The control block of the only leaf of a tree: the leaf version with the
/// parity of the output key in its lowest bit, then the internal key. The
/// path to the root is empty.
pub open spec fn single_leaf_control_block(odd: bool, internal_key: Seq<u8>) -> Seq<u8> {
    seq![if odd { 0xc1u8 } else { LEAF_VERSION_TAPSCRIPT }] + internal_key
}

/// Appends a data push to a stream.
pub fn append_push_bytes(stream: &mut Stream, data: &[u8])
    requires
        data@.len() <= u32::MAX,
    ensures
        final(stream)@ == old(stream)@ + push_bytes(data@),
{
    let ghost before = stream@;
    let len = data.len();
    if len < 0x4c {
        stream.append_u8(len as u8);
    } else if len < 0x100 {
        stream.append_u8(OP_PUSHDATA1);
        stream.append_u8(len as u8);
    } else if len < 0x10000 {
        stream.append_u8(OP_PUSHDATA2);
        stream.append_u16(len as u16);
    } else {
        stream.append_u8(OP_PUSHDATA4);
        stream.append_u32(len as u32);
    }
    stream.append_raw_slice(data);
    assert(stream@ =~= before + push_bytes(data@));
}

/// Builds the script that pays to the hash of a public key.
pub fn new_p2pkh(hash: &[u8]) -> (script: Vec<u8>)
    requires
        hash@.len() == 20,
    ensures
        script@ == p2pkh_script(hash@),
        script@.len() == 25,
{
    let mut stream = Stream::new();
    stream.append_u8(OP_DUP);
    stream.append_u8(OP_HASH160);
    append_push_bytes(&mut stream, hash);
    stream.append_u8(OP_EQUALVERIFY);
    stream.append_u8(OP_CHECKSIG);
    assert(stream@ =~= p2pkh_script(hash@));
    stream.out()
}

/// Builds the version-0 witness program that pays to the hash of a public
/// key.
pub fn new_v0_p2wpkh(hash: &[u8]) -> (script: Vec<u8>)
    requires
        hash@.len() == 20,
    ensures
        script@ == p2wpkh_script(hash@),
        script@.len() == 22,
{
    let mut stream = Stream::new();
    stream.append_u8(OP_0);
    append_push_bytes(&mut stream, hash);
    assert(stream@ =~= p2wpkh_script(hash@));
    stream.out()
}

/// Builds the version-1 witness program that pays to an output key.
pub fn new_v1_p2tr_tweaked(output_key: &[u8]) -> (script: Vec<u8>)
    requires
        output_key@.len() == 32,
    ensures
        script@ == p2tr_script(output_key@),
        script@.len() == 34,
{
    let mut stream = Stream::new();
    stream.append_u8(OP_PUSHNUM_1);
    append_push_bytes(&mut stream, output_key);
    assert(stream@ =~= p2tr_script(output_key@));
    stream.out()
}

/// Computes the tweak that commits an internal key to a script tree, or to
/// none.
pub fn tap_tweak_hash_bytes(internal_key: &[u8], merkle_root: Option<&[u8]>) -> (out: Vec<u8>)
    ensures
        out@ == tap_tweak_hash(
            internal_key@,
            match merkle_root {
                Some(root) => Some(root@),
                None => None,
            },
        ),
        out@.len() == 32,
{
    let tag: [u8; 8] = [0x54, 0x61, 0x70, 0x54, 0x77, 0x65, 0x61, 0x6b];
    assert(tag@ =~= tap_tweak_tag());
    let mut message: Vec<u8> = Vec::new();
    message.extend_from_slice(internal_key);
    match merkle_root {
        Some(root) => {
            message.extend_from_slice(root);
            assert(message@ =~= internal_key@ + root@);
        },
        None => {
            assert(message@ =~= internal_key@);
        },
    }
    tagged_hash_bytes(tag.as_slice(), message.as_slice())
}

/// Computes the hash of a tapscript leaf.
pub fn tap_leaf_hash_bytes(script: &[u8]) -> (out: Vec<u8>)
    ensures
        out@ == tap_leaf_hash(script@),
        out@.len() == 32,
{
    let tag: [u8; 7] = [0x54, 0x61, 0x70, 0x4c, 0x65, 0x61, 0x66];
    assert(tag@ =~= tap_leaf_tag());
    let mut stream = Stream::new();
    stream.append_u8(LEAF_VERSION_TAPSCRIPT);
    stream.append_var_bytes(script);
    assert(stream@ =~= seq![LEAF_VERSION_TAPSCRIPT] + var_bytes(script@));
    let message = stream.out();
    tagged_hash_bytes(tag.as_slice(), message.as_slice())
}

/// Builds the control block of the only leaf of a tree.
pub fn new_single_leaf_control_block(odd: bool, internal_key: &[u8]) -> (block: Vec<u8>)
    ensures
        block@ == single_leaf_control_block(odd, internal_key@),
{
    let mut stream = Stream::new();
    if odd {
        stream.append_u8(0xc1u8);
    } else {
        stream.append_u8(LEAF_VERSION_TAPSCRIPT);
    }
    stream.append_raw_slice(internal_key);
    assert(stream@ =~= single_leaf_control_block(odd, internal_key@));
    stream.out()
}

} // verus!
