//! What holds of the signing schemes as a whole.
//!
//! The hash functions appear in the contracts by name, and nothing is
//! assumed of them beyond being functions. Where a law says that a change of
//! the request changes what is signed, it is therefore stated of the bytes
//! that are hashed, not of the digest.

use vstd::prelude::*;
use crate::encode::{
    compact_size, lemma_u32_le_injective, lemma_u64_le_injective, u16_le, u32_le, u64_le,
    var_bytes,
};
use crate::error::{same_result, Error};
use crate::legacy_sighash::{
    legacy_preimage, legacy_preimage_result, legacy_sighash, legacy_signed_input,
};
use crate::taproot1_sighash::{
    index_in_range, taproot_covers, taproot_message_head, taproot_preimage,
    taproot_preimage_result, taproot_sighash,
};
use crate::transaction::{
    metadata_pairs_up, PreimageArgsModel, TransactionInterface, TransactionModel,
    UtxoPreimageArgs,
};
use crate::transaction_hashing::{outpoint_bytes, spent_amounts_bytes, spent_scripts_bytes};
use crate::witness0_sighash::{
    segwit_outputs_hash, segwit_preimage, segwit_preimage_result,
    segwit_prevouts_hash, segwit_sequence_hash, segwit_sighash,
};

verus! {

/// Two outcomes that answer to the same specified outcome are the same: the
/// same bytes, or the same error.
pub open spec fn same_outcome(
    first: Result<Vec<u8>, Error>,
    second: Result<Vec<u8>, Error>,
) -> bool {
    match (first, second) {
        (Ok(a), Ok(b)) => a@ == b@,
        (Err(a), Err(b)) => a == b,
        _ => false,
    }
}

/// The Taproot digest is a function of the contents of the request: two
/// computations on transactions and arguments with equal contents, whether
/// or not they are the same objects, end in the same digest or in the same
/// error.
pub proof fn lemma_taproot_sighash_deterministic<T: TransactionInterface>(
    tx1: T,
    args1: UtxoPreimageArgs,
    first: Result<Vec<u8>, Error>,
    tx2: T,
    args2: UtxoPreimageArgs,
    second: Result<Vec<u8>, Error>,
)
    requires
        tx1.model() == tx2.model(),
        args1@ == args2@,
        same_result(first, taproot_sighash(tx1.model(), args1@)),
        same_result(second, taproot_sighash(tx2.model(), args2@)),
    ensures
        same_outcome(first, second),
{
}

/// The digest of version-0 witness programs is a function of the contents
/// of the request.
pub proof fn lemma_segwit_sighash_deterministic<T: TransactionInterface>(
    tx1: T,
    args1: UtxoPreimageArgs,
    first: Result<Vec<u8>, Error>,
    tx2: T,
    args2: UtxoPreimageArgs,
    second: Result<Vec<u8>, Error>,
)
    requires
        tx1.model() == tx2.model(),
        args1@ == args2@,
        same_result(first, segwit_sighash(tx1.model(), args1@)),
        same_result(second, segwit_sighash(tx2.model(), args2@)),
    ensures
        same_outcome(first, second),
{
}

/// The legacy digest is a function of the contents of the request.
pub proof fn lemma_legacy_sighash_deterministic<T: TransactionInterface>(
    tx1: T,
    args1: UtxoPreimageArgs,
    first: Result<Vec<u8>, Error>,
    tx2: T,
    args2: UtxoPreimageArgs,
    second: Result<Vec<u8>, Error>,
)
    requires
        tx1.model() == tx2.model(),
        args1@ == args2@,
        same_result(first, legacy_sighash(tx1.model(), args1@)),
        same_result(second, legacy_sighash(tx2.model(), args2@)),
    ensures
        same_outcome(first, second),
{
}

/// A request for the input one past the end is out of range under every
/// scheme, and so is every request for a later position.
pub proof fn lemma_index_past_the_end_is_out_of_range(tx: TransactionModel, args: PreimageArgsModel)
    requires
        args.input_index >= tx.inputs.len(),
    ensures
        taproot_sighash(tx, args) == Err::<Seq<u8>, Error>(Error::IndexOutOfRange),
        segwit_sighash(tx, args) == Err::<Seq<u8>, Error>(Error::IndexOutOfRange),
        legacy_sighash(tx, args) == Err::<Seq<u8>, Error>(Error::IndexOutOfRange),
{
}

/// A Taproot request that is covered and names an input, but comes with an
/// empty list of spent amounts, is rejected: no digest over empty data is
/// given out.
pub proof fn lemma_taproot_rejects_empty_spent_amounts(
    tx: TransactionModel,
    args: PreimageArgsModel,
)
    requires
        index_in_range(tx, args),
        taproot_covers(args),
        args.spent_amounts.len() == 0,
    ensures
        taproot_sighash(tx, args) == Err::<Seq<u8>, Error>(Error::SpendingMetadataMismatch),
{
}

/// The Taproot preimage commits to the position of the input: two requests
/// that differ in the position alone, and are both answered, have different
/// preimages.
pub proof fn lemma_taproot_preimage_commits_to_index(
    tx: TransactionModel,
    a: PreimageArgsModel,
    b: PreimageArgsModel,
)
    requires
        b == (PreimageArgsModel { input_index: b.input_index, ..a }),
        a.input_index != b.input_index,
        taproot_preimage_result(tx, a) is Ok,
        taproot_preimage_result(tx, b) is Ok,
    ensures
        taproot_preimage_result(tx, a) != taproot_preimage_result(tx, b),
{
    let head = seq![0u8] + taproot_message_head(
        tx,
        a.sighash_ty,
        a.tx_hasher,
        a.spent_amounts,
        a.spent_script_pubkeys,
    );
    let ia = a.input_index as u32;
    let ib = b.input_index as u32;
    let pa = taproot_preimage(tx, a);
    let pb = taproot_preimage(tx, b);
    assert(pa =~= head + u32_le(ia));
    assert(pb =~= head + u32_le(ib));
    if pa == pb {
        let k = head.len() as int;
        assert(pa.subrange(k, k + 4) =~= u32_le(ia));
        assert(pb.subrange(k, k + 4) =~= u32_le(ib));
        lemma_u32_le_injective(ia, ib);
    }
}

/// The preimage of a version-0 witness program commits to the output that
/// the signed input spends, in every mode: two requests that differ in the
/// position alone, for inputs that spend different outputs, have different
/// preimages where both are answered.
pub proof fn lemma_segwit_preimage_commits_to_outpoint(
    tx: TransactionModel,
    a: PreimageArgsModel,
    b: PreimageArgsModel,
)
    requires
        b == (PreimageArgsModel { input_index: b.input_index, ..a }),
        segwit_preimage_result(tx, a) is Ok,
        segwit_preimage_result(tx, b) is Ok,
        tx.inputs[a.input_index as int].txid.len() == 32,
        tx.inputs[b.input_index as int].txid.len() == 32,
        outpoint_bytes(tx.inputs[a.input_index as int]) != outpoint_bytes(
            tx.inputs[b.input_index as int],
        ),
    ensures
        segwit_preimage_result(tx, a) != segwit_preimage_result(tx, b),
{
    let i = a.input_index as int;
    let j = b.input_index as int;
    let head = u32_le(tx.version) + segwit_prevouts_hash(tx, a.sighash_ty, a.tx_hasher)
        + segwit_sequence_hash(tx, a.sighash_ty, a.tx_hasher);
    let pa = segwit_preimage(tx, a);
    let pb = segwit_preimage(tx, b);
    let k = head.len() as int;
    assert(pa.subrange(k, k + 36) =~= outpoint_bytes(tx.inputs[i]));
    assert(pb.subrange(k, k + 36) =~= outpoint_bytes(tx.inputs[j]));
}

/// With the modifier, the legacy preimage commits to the output that the
/// signed input spends: two requests that differ in the position alone, for
/// inputs that spend different outputs, have different preimages where both
/// are answered.
pub proof fn lemma_legacy_preimage_commits_to_outpoint(
    tx: TransactionModel,
    a: PreimageArgsModel,
    b: PreimageArgsModel,
)
    requires
        b == (PreimageArgsModel { input_index: b.input_index, ..a }),
        a.sighash_ty.anyone_can_pay,
        legacy_preimage_result(tx, a) is Ok,
        legacy_preimage_result(tx, b) is Ok,
        tx.inputs[a.input_index as int].txid.len() == 32,
        tx.inputs[b.input_index as int].txid.len() == 32,
        outpoint_bytes(tx.inputs[a.input_index as int]) != outpoint_bytes(
            tx.inputs[b.input_index as int],
        ),
    ensures
        legacy_preimage_result(tx, a) != legacy_preimage_result(tx, b),
{
    let i = a.input_index as int;
    let j = b.input_index as int;
    let pa = legacy_preimage(tx, a);
    let pb = legacy_preimage(tx, b);
    assert(compact_size(1) =~= seq![1u8]);
    assert(legacy_signed_input(tx, a, i).subrange(0, 36) =~= outpoint_bytes(tx.inputs[i]));
    assert(legacy_signed_input(tx, b, j).subrange(0, 36) =~= outpoint_bytes(tx.inputs[j]));
    assert(pa.subrange(5, 41) =~= legacy_signed_input(tx, a, i).subrange(0, 36));
    assert(pb.subrange(5, 41) =~= legacy_signed_input(tx, b, j).subrange(0, 36));
}

/// A count can be read back from the front of any byte string that begins
/// with its encoding.
pub proof fn lemma_compact_size_prefix_free(n: u64, m: u64, x: Seq<u8>, y: Seq<u8>)
    requires
        compact_size(n) + x == compact_size(m) + y,
    ensures
        n == m,
{
    let s = compact_size(n) + x;
    let t = compact_size(m) + y;
    let cn = compact_size(n);
    let cm = compact_size(m);
    assert(s[0] == cn[0] && t[0] == cm[0]);
    if n < 253 {
    } else if n <= 0xffff {
        assert(s[1] == cn[1] && s[2] == cn[2]);
        assert(t[1] == cm[1] && t[2] == cm[2]);
        assert(u16_le(n as u16)[0] == cn[1] && u16_le(n as u16)[1] == cn[2]);
        assert(u16_le(m as u16)[0] == cm[1] && u16_le(m as u16)[1] == cm[2]);
    } else if n <= 0xffff_ffff {
        assert(cn.subrange(1, 5) =~= u32_le(n as u32));
        assert(cm.subrange(1, 5) =~= u32_le(m as u32));
        assert(s.subrange(1, 5) =~= cn.subrange(1, 5));
        assert(t.subrange(1, 5) =~= cm.subrange(1, 5));
        lemma_u32_le_injective(n as u32, m as u32);
    } else {
        assert(cn.subrange(1, 9) =~= u64_le(n));
        assert(cm.subrange(1, 9) =~= u64_le(m));
        assert(s.subrange(1, 9) =~= cn.subrange(1, 9));
        assert(t.subrange(1, 9) =~= cm.subrange(1, 9));
        lemma_u64_le_injective(n, m);
    }
}

/// A byte string behind its length can be read back from the front of any
/// byte string that begins with it, together with what follows.
pub proof fn lemma_var_bytes_prefix_free(a: Seq<u8>, b: Seq<u8>, x: Seq<u8>, y: Seq<u8>)
    requires
        a.len() <= u64::MAX,
        b.len() <= u64::MAX,
        var_bytes(a) + x == var_bytes(b) + y,
    ensures
        a == b,
        x == y,
{
    let ca = compact_size(a.len() as u64);
    let cb = compact_size(b.len() as u64);
    assert(var_bytes(a) + x =~= ca + (a + x));
    assert(var_bytes(b) + y =~= cb + (b + y));
    lemma_compact_size_prefix_free(a.len() as u64, b.len() as u64, a + x, b + y);
    let s = ca + (a + x);
    let k = ca.len() as int;
    let n = a.len() as int;
    assert(s.subrange(k, k + n) =~= a);
    assert(s.subrange(k, k + n) =~= b);
    assert(s.subrange(k + n, s.len() as int) =~= x);
    assert(s.subrange(k + n, s.len() as int) =~= y);
}

/// The encoding of the spent amounts determines them: a change of any
/// amount, or of their number, changes the bytes under the commitment.
pub proof fn lemma_spent_amounts_bytes_injective(a: Seq<u64>, b: Seq<u64>)
    requires
        spent_amounts_bytes(a) == spent_amounts_bytes(b),
    ensures
        a == b,
    decreases a.len(),
{
    let pa = a.map_values(|amount: u64| u64_le(amount));
    let pb = b.map_values(|amount: u64| u64_le(amount));
    if a.len() == 0 {
        if b.len() > 0 {
            assert(pb.flatten() == pb.first() + pb.drop_first().flatten());
            assert(pb.first().len() == 8);
        }
        assert(a =~= b);
    } else {
        assert(pa.flatten() == pa.first() + pa.drop_first().flatten());
        assert(pa.first().len() == 8);
        assert(b.len() > 0);
        assert(pb.flatten() == pb.first() + pb.drop_first().flatten());
        assert(pb.first().len() == 8);
        let s = pa.flatten();
        assert(s.subrange(0, 8) =~= u64_le(a[0]));
        assert(s.subrange(0, 8) =~= u64_le(b[0]));
        lemma_u64_le_injective(a[0], b[0]);
        assert(s.subrange(8, s.len() as int) =~= pa.drop_first().flatten());
        assert(s.subrange(8, s.len() as int) =~= pb.drop_first().flatten());
        assert(pa.drop_first() =~= a.drop_first().map_values(|amount: u64| u64_le(amount)));
        assert(pb.drop_first() =~= b.drop_first().map_values(|amount: u64| u64_le(amount)));
        lemma_spent_amounts_bytes_injective(a.drop_first(), b.drop_first());
        assert(a =~= seq![a[0]] + a.drop_first());
        assert(b =~= seq![b[0]] + b.drop_first());
    }
}

/// The encoding of the spent scripts determines them: a change of any
/// script, or of their number, changes the bytes under the commitment.
pub proof fn lemma_spent_scripts_bytes_injective(a: Seq<Seq<u8>>, b: Seq<Seq<u8>>)
    requires
        forall|i: int| 0 <= i < a.len() ==> (#[trigger] a[i]).len() <= u64::MAX,
        forall|i: int| 0 <= i < b.len() ==> (#[trigger] b[i]).len() <= u64::MAX,
        spent_scripts_bytes(a) == spent_scripts_bytes(b),
    ensures
        a == b,
    decreases a.len(),
{
    let pa = a.map_values(|script: Seq<u8>| var_bytes(script));
    let pb = b.map_values(|script: Seq<u8>| var_bytes(script));
    if a.len() == 0 {
        if b.len() > 0 {
            assert(pb.flatten() == pb.first() + pb.drop_first().flatten());
            assert(pb.first() == var_bytes(b[0]));
            assert(compact_size(b[0].len() as u64).len() >= 1);
        }
        assert(a =~= b);
    } else {
        assert(pa.flatten() == pa.first() + pa.drop_first().flatten());
        assert(pa.first() == var_bytes(a[0]));
        assert(compact_size(a[0].len() as u64).len() >= 1);
        assert(b.len() > 0);
        assert(pb.flatten() == pb.first() + pb.drop_first().flatten());
        assert(pb.first() == var_bytes(b[0]));
        lemma_var_bytes_prefix_free(
            a[0],
            b[0],
            pa.drop_first().flatten(),
            pb.drop_first().flatten(),
        );
        assert(pa.drop_first() =~= a.drop_first().map_values(
            |script: Seq<u8>| var_bytes(script),
        ));
        assert(pb.drop_first() =~= b.drop_first().map_values(
            |script: Seq<u8>| var_bytes(script),
        ));
        lemma_spent_scripts_bytes_injective(a.drop_first(), b.drop_first());
        assert(a =~= seq![a[0]] + a.drop_first());
        assert(b =~= seq![b[0]] + b.drop_first());
    }
}

/// The digest of a version-0 witness program does not depend on the
/// metadata of the other inputs: two requests whose spent amounts and
/// scripts agree at the signed input, and pair up with the inputs, have the
/// same outcome, with or without the modifier.
pub proof fn lemma_segwit_ignores_metadata_of_other_inputs(
    tx: TransactionModel,
    a: PreimageArgsModel,
    b: PreimageArgsModel,
)
    requires
        b == (PreimageArgsModel {
            spent_amounts: b.spent_amounts,
            spent_script_pubkeys: b.spent_script_pubkeys,
            ..a
        }),
        metadata_pairs_up(tx, a),
        metadata_pairs_up(tx, b),
        a.input_index < tx.inputs.len() ==> a.spent_amounts[a.input_index as int]
            == b.spent_amounts[a.input_index as int],
        a.input_index < tx.inputs.len() ==> a.spent_script_pubkeys[a.input_index as int]
            == b.spent_script_pubkeys[a.input_index as int],
    ensures
        segwit_sighash(tx, a) == segwit_sighash(tx, b),
{
}

/// The preimage of a version-0 witness program commits to the amount that
/// the signed input spends: two requests that differ in that amount alone,
/// and are both answered, have different preimages.
pub proof fn lemma_segwit_preimage_commits_to_own_amount(
    tx: TransactionModel,
    a: PreimageArgsModel,
    b: PreimageArgsModel,
)
    requires
        b == (PreimageArgsModel { spent_amounts: b.spent_amounts, ..a }),
        segwit_preimage_result(tx, a) is Ok,
        segwit_preimage_result(tx, b) is Ok,
        a.spent_amounts[a.input_index as int] != b.spent_amounts[a.input_index as int],
    ensures
        segwit_preimage_result(tx, a) != segwit_preimage_result(tx, b),
{
    let i = a.input_index as int;
    let head = u32_le(tx.version) + segwit_prevouts_hash(tx, a.sighash_ty, a.tx_hasher)
        + segwit_sequence_hash(tx, a.sighash_ty, a.tx_hasher) + outpoint_bytes(tx.inputs[i])
        + var_bytes(a.spent_script_pubkeys[i]);
    let tail = u32_le(tx.inputs[i].sequence) + segwit_outputs_hash(
        tx,
        a.sighash_ty,
        a.tx_hasher,
        a.input_index,
    ) + u32_le(tx.locktime) + u32_le(a.sighash_ty.flag());
    let pa = segwit_preimage(tx, a);
    let pb = segwit_preimage(tx, b);
    assert(pa =~= head + u64_le(a.spent_amounts[i]) + tail);
    assert(pb =~= head + u64_le(b.spent_amounts[i]) + tail);
    if pa == pb {
        let k = head.len() as int;
        assert(pa.subrange(k, k + 8) =~= u64_le(a.spent_amounts[i]));
        assert(pb.subrange(k, k + 8) =~= u64_le(b.spent_amounts[i]));
        lemma_u64_le_injective(a.spent_amounts[i], b.spent_amounts[i]);
    }
}

} // verus!
