//! The signing digest of version-0 witness programs.
//!
//! The preimage has a fixed layout of ten fields. Three of them are
//! commitments whose scope depends on the sighash type; a commitment that is
//! out of scope is written as 32 zero bytes.

use vstd::prelude::*;
use core::marker::PhantomData;
use crate::encode::{u32_le, u64_le, var_bytes, Stream};
use crate::error::{same_result, Error};
use crate::hashing::{sha256d, sha256d_bytes, Hasher};
use crate::sighash::{SighashBase, SighashType};
use crate::transaction::{
    metadata_pairs_up, PreimageArgsModel, TransactionInterface, TransactionModel,
    TxInputInterface, UtxoPreimageArgs,
};
use crate::transaction_hashing::{
    append_outpoint, append_output, outpoint_bytes, output_bytes, outputs_bytes, prevouts_bytes,
    sequences_bytes, TransactionHasher,
};

verus! {

/// Thirty-two zero bytes: the place of a commitment that is out of scope.
pub open spec fn zero_hash() -> Seq<u8> {
    Seq::new(32, |i: int| 0u8)
}

/// Whether the outputs hold the one that base mode `Single` commits to.
pub open spec fn single_output_exists(tx: TransactionModel, args: PreimageArgsModel) -> bool {
    args.sighash_ty.base == SighashBase::Single ==> args.input_index < tx.outputs.len()
}

/// The commitment to the spent outputs of all inputs, in scope without the
/// modifier.
pub open spec fn segwit_prevouts_hash(tx: TransactionModel, ty: SighashType, hasher: Hasher) -> Seq<
    u8,
> {
    if ty.anyone_can_pay {
        zero_hash()
    } else {
        hasher.digest(prevouts_bytes(tx.inputs))
    }
}

/// The commitment to the sequence numbers of all inputs, in scope for base
/// mode `All` without the modifier.
pub open spec fn segwit_sequence_hash(tx: TransactionModel, ty: SighashType, hasher: Hasher) -> Seq<
    u8,
> {
    if !ty.anyone_can_pay && ty.base == SighashBase::All {
        hasher.digest(sequences_bytes(tx.inputs))
    } else {
        zero_hash()
    }
}

/// The commitment to the outputs: to all of them for base mode `All`, to the
/// one at the position of the input for `Single`, to none for `NoOutputs`.
pub open spec fn segwit_outputs_hash(
    tx: TransactionModel,
    ty: SighashType,
    hasher: Hasher,
    input_index: nat,
) -> Seq<u8>
    recommends
        ty.base == SighashBase::Single ==> input_index < tx.outputs.len(),
{
    match ty.base {
        SighashBase::All => hasher.digest(outputs_bytes(tx.outputs)),
        SighashBase::Single => hasher.digest(output_bytes(tx.outputs[input_index as int])),
        SighashBase::NoOutputs => zero_hash(),
    }
}

/// The preimage of a request: version, two commitments over the inputs, the
/// spent output of the signed input with its script code, amount and
/// sequence number, the commitment over the outputs, lock time and flag.
/// The script code and the amount are those that the metadata holds for
/// the signed input.
pub open spec fn segwit_preimage(tx: TransactionModel, args: PreimageArgsModel) -> Seq<u8>
    recommends
        args.input_index < tx.inputs.len(),
        metadata_pairs_up(tx, args),
        single_output_exists(tx, args),
{
    let i = args.input_index as int;
    u32_le(tx.version) + segwit_prevouts_hash(tx, args.sighash_ty, args.tx_hasher)
        + segwit_sequence_hash(tx, args.sighash_ty, args.tx_hasher) + outpoint_bytes(tx.inputs[i])
        + var_bytes(args.spent_script_pubkeys[i]) + u64_le(args.spent_amounts[i]) + u32_le(
        tx.inputs[i].sequence,
    ) + segwit_outputs_hash(tx, args.sighash_ty, args.tx_hasher, args.input_index) + u32_le(
        tx.locktime,
    ) + u32_le(args.sighash_ty.flag())
}

/// What a request is answered with: the preimage, or the first failure in
/// the order index, missing single output, metadata.
pub open spec fn segwit_preimage_result(tx: TransactionModel, args: PreimageArgsModel) -> Result<
    Seq<u8>,
    Error,
> {
    if args.input_index >= tx.inputs.len() {
        Err(Error::IndexOutOfRange)
    } else if !single_output_exists(tx, args) {
        Err(Error::UnsupportedSighashCombination)
    } else if !metadata_pairs_up(tx, args) {
        Err(Error::SpendingMetadataMismatch)
    } else {
        Ok(segwit_preimage(tx, args))
    }
}

/// The digest of a request: SHA-256 applied twice to its preimage, or the
/// failure of the preimage.
pub open spec fn segwit_sighash(tx: TransactionModel, args: PreimageArgsModel) -> Result<
    Seq<u8>,
    Error,
> {
    match segwit_preimage_result(tx, args) {
        Ok(preimage) => Ok(sha256d(preimage)),
        Err(e) => Err(e),
    }
}

/// Thirty-two zero bytes.
pub fn zero_hash_bytes() -> (out: Vec<u8>)
    ensures
        out@ == zero_hash(),
{
    let mut out: Vec<u8> = Vec::new();
    let mut i: usize = 0;
    while i < 32
        invariant
            i <= 32,
            out@.len() == i,
            forall|k: int| 0 <= k < i ==> out@[k] == 0u8,
        decreases 32 - i,
    {
        out.push(0u8);
        i += 1;
    }
    assert(out@ =~= zero_hash());
    out
}

/// Computes the digest that a signature for a version-0 witness program
/// signs.
pub struct Witness0Sighash<Transaction: TransactionInterface> {
    _phantom: PhantomData<Transaction>,
}

impl<Transaction: TransactionInterface> Witness0Sighash<Transaction> {
    /// The commitment over the outputs for a request whose input exists and
    /// whose single output, where one is asked for, exists.
    pub fn outputs_hash(tx: &Transaction, args: &UtxoPreimageArgs) -> (out: Vec<u8>)
        requires
            single_output_exists(tx.model(), args@),
        ensures
            out@ == segwit_outputs_hash(
                tx.model(),
                args@.sighash_ty,
                args@.tx_hasher,
                args@.input_index,
            ),
    {
        match args.sighash_ty.base_type() {
            SighashBase::All => TransactionHasher::<Transaction>::preimage_outputs_hash(tx, args),
            SighashBase::Single => {
                let outputs = tx.outputs();
                let mut stream = Stream::new();
                append_output(&mut stream, &outputs[args.input_index]);
                let bytes = stream.out();
                assert(bytes@ =~= output_bytes(tx.model().outputs[args@.input_index as int]));
                args.tx_hasher.hash(bytes.as_slice())
            },
            SighashBase::NoOutputs => zero_hash_bytes(),
        }
    }

    /// The bytes that are hashed for a request, or why there are none.
    pub fn preimage_tx(tx: &Transaction, args: &UtxoPreimageArgs) -> (res: Result<Vec<u8>, Error>)
        ensures
            same_result(res, segwit_preimage_result(tx.model(), args@)),
    {
        let index = args.input_index;
        let inputs = tx.inputs();
        if index >= inputs.len() {
            return Err(Error::IndexOutOfRange);
        }
        let acp = args.sighash_ty.is_anyone_can_pay();
        let base = args.sighash_ty.base_type();
        let single = match base {
            SighashBase::Single => true,
            _ => false,
        };
        let all = match base {
            SighashBase::All => true,
            _ => false,
        };
        if single && index >= tx.outputs().len() {
            return Err(Error::UnsupportedSighashCombination);
        }
        if args.tr_spent_amounts.len() != inputs.len() || args.tr_spent_script_pubkeys.len()
            != inputs.len() {
            return Err(Error::SpendingMetadataMismatch);
        }
        let prevout_hash = if acp {
            zero_hash_bytes()
        } else {
            TransactionHasher::<Transaction>::preimage_prevout_hash(tx, args)
        };
        let sequence_hash = if !acp && all {
            TransactionHasher::<Transaction>::preimage_sequence_hash(tx, args)
        } else {
            zero_hash_bytes()
        };
        let outputs_hash = Self::outputs_hash(tx, args);
        let input = &inputs[index];

        let mut stream = Stream::new();
        stream.append_u32(tx.version());
        stream.append_raw_slice(prevout_hash.as_slice());
        stream.append_raw_slice(sequence_hash.as_slice());
        append_outpoint(&mut stream, input);
        stream.append_var_bytes(args.tr_spent_script_pubkeys[index].as_slice());
        stream.append_u64(args.tr_spent_amounts[index]);
        stream.append_u32(input.sequence());
        stream.append_raw_slice(outputs_hash.as_slice());
        stream.append_u32(tx.locktime());
        stream.append_u32(args.sighash_ty.encode());
        assert(stream@ =~= segwit_preimage(tx.model(), args@));
        Ok(stream.out())
    }

    /// The digest that a signature over input `args.input_index` of `tx`
    /// signs, or why there is none.
    pub fn sighash_tx(tx: &Transaction, args: &UtxoPreimageArgs) -> (res: Result<Vec<u8>, Error>)
        ensures
            same_result(res, segwit_sighash(tx.model(), args@)),
            res is Ok ==> res->Ok_0@.len() == 32,
    {
        match Self::preimage_tx(tx, args) {
            Ok(preimage) => Ok(sha256d_bytes(preimage.as_slice())),
            Err(e) => Err(e),
        }
    }
}

} // verus!
