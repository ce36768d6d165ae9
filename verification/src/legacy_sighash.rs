//! The signing digest of outputs that predate segregated witness.
//!
//! The preimage is the transaction itself, rewritten for the input that is
//! signed and serialized in full, with the flag behind it.

use vstd::prelude::*;
use core::marker::PhantomData;
use crate::encode::{compact_size, u32_le, u64_le, var_bytes, Stream};
use crate::error::{same_result, Error};
use crate::hashing::{sha256d, sha256d_bytes};
use crate::sighash::SighashBase;
use crate::transaction::{
    metadata_pairs_up, PreimageArgsModel, TransactionInterface, TransactionModel, TxInputInterface,
    TxInputModel, UtxoPreimageArgs,
};
use crate::transaction_hashing::{
    append_outpoint, append_output, lemma_flatten_step, outpoint_bytes, output_bytes,
    outputs_bytes, TransactionHasher,
};
use crate::witness0_sighash::single_output_exists;

verus! {

/// The amount that stands in a blanked output.
pub const BLANK_AMOUNT: u64 = 0xffff_ffff_ffff_ffff;

/// An input as it is serialized: spent output, script behind its length,
/// sequence number.
pub open spec fn input_bytes(input: TxInputModel, script: Seq<u8>, sequence: u32) -> Seq<u8> {
    outpoint_bytes(input) + var_bytes(script) + u32_le(sequence)
}

/// Input `j` as the preimage holds it. The signed input carries the script
/// code, which is the script that the metadata holds for it, and its own
/// sequence number. Every other input carries an empty script, and its own
/// sequence number only for base mode `All`, zero otherwise.
pub open spec fn legacy_signed_input(tx: TransactionModel, args: PreimageArgsModel, j: int) -> Seq<
    u8,
>
    recommends
        0 <= j < tx.inputs.len(),
        args.input_index < args.spent_script_pubkeys.len(),
{
    let input = tx.inputs[j];
    if j == args.input_index {
        input_bytes(input, args.spent_script_pubkeys[j], input.sequence)
    } else if args.sighash_ty.base == SighashBase::All {
        input_bytes(input, Seq::<u8>::empty(), input.sequence)
    } else {
        input_bytes(input, Seq::<u8>::empty(), 0)
    }
}

/// The inputs as the preimage holds them, behind their count. With the
/// modifier the signed input is the only one.
pub open spec fn legacy_inputs_bytes(tx: TransactionModel, args: PreimageArgsModel) -> Seq<u8>
    recommends
        args.input_index < tx.inputs.len(),
{
    if args.sighash_ty.anyone_can_pay {
        compact_size(1) + legacy_signed_input(tx, args, args.input_index as int)
    } else {
        compact_size(tx.inputs.len() as u64) + Seq::new(
            tx.inputs.len(),
            |j: int| legacy_signed_input(tx, args, j),
        ).flatten()
    }
}

/// An output that stands in for one that the signature does not cover.
pub open spec fn blank_output() -> Seq<u8> {
    u64_le(BLANK_AMOUNT) + var_bytes(Seq::<u8>::empty())
}

/// The outputs as the preimage holds them, behind their count: all of them
/// for base mode `All`, none for `NoOutputs`; for `Single` the one at the
/// position of the input, behind blanked outputs for the positions before
/// it.
pub open spec fn legacy_outputs_bytes(tx: TransactionModel, args: PreimageArgsModel) -> Seq<u8>
    recommends
        single_output_exists(tx, args),
{
    match args.sighash_ty.base {
        SighashBase::All => compact_size(tx.outputs.len() as u64) + outputs_bytes(tx.outputs),
        SighashBase::NoOutputs => compact_size(0),
        SighashBase::Single => compact_size((args.input_index + 1) as u64) + Seq::new(
            args.input_index,
            |j: int| blank_output(),
        ).flatten() + output_bytes(tx.outputs[args.input_index as int]),
    }
}

/// The preimage of a request: version, inputs, outputs, lock time, flag.
pub open spec fn legacy_preimage(tx: TransactionModel, args: PreimageArgsModel) -> Seq<u8> {
    u32_le(tx.version) + legacy_inputs_bytes(tx, args) + legacy_outputs_bytes(tx, args) + u32_le(
        tx.locktime,
    ) + u32_le(args.sighash_ty.flag())
}

/// What a request is answered with: the preimage, or the first failure in
/// the order index, missing single output, metadata.
pub open spec fn legacy_preimage_result(tx: TransactionModel, args: PreimageArgsModel) -> Result<
    Seq<u8>,
    Error,
> {
    if args.input_index >= tx.inputs.len() {
        Err(Error::IndexOutOfRange)
    } else if !single_output_exists(tx, args) {
        Err(Error::UnsupportedSighashCombination)
    } else if !metadata_pairs_up(tx, args) {
        Err(Error::SpendingMetadataMismatch)
    } else {
        Ok(legacy_preimage(tx, args))
    }
}

/// The digest of a request: SHA-256 applied twice to its preimage, or the
/// failure of the preimage.
pub open spec fn legacy_sighash(tx: TransactionModel, args: PreimageArgsModel) -> Result<
    Seq<u8>,
    Error,
> {
    match legacy_preimage_result(tx, args) {
        Ok(preimage) => Ok(sha256d(preimage)),
        Err(e) => Err(e),
    }
}

/// Computes the digest that a signature for an output of the oldest kind
/// signs.
pub struct LegacySighash<Transaction: TransactionInterface> {
    _phantom: PhantomData<Transaction>,
}

impl<Transaction: TransactionInterface> LegacySighash<Transaction> {
    /// Appends input `j` as the preimage holds it.
    pub fn append_signed_input(
        stream: &mut Stream,
        tx: &Transaction,
        args: &UtxoPreimageArgs,
        j: usize,
    )
        requires
            j < tx.model().inputs.len(),
            args@.input_index < args@.spent_script_pubkeys.len(),
        ensures
            final(stream)@ == old(stream)@ + legacy_signed_input(tx.model(), args@, j as int),
    {
        let ghost before = stream@;
        let inputs = tx.inputs();
        let input = &inputs[j];
        append_outpoint(stream, input);
        if j == args.input_index {
            stream.append_var_bytes(args.tr_spent_script_pubkeys[j].as_slice());
            stream.append_u32(input.sequence());
        } else {
            let empty: [u8; 0] = [];
            assert(empty@ =~= Seq::<u8>::empty());
            stream.append_var_bytes(empty.as_slice());
            match args.sighash_ty.base_type() {
                SighashBase::All => stream.append_u32(input.sequence()),
                _ => stream.append_u32(0),
            }
        }
        assert(stream@ =~= before + legacy_signed_input(tx.model(), args@, j as int));
    }

    /// Appends the inputs as the preimage holds them.
    pub fn append_inputs(stream: &mut Stream, tx: &Transaction, args: &UtxoPreimageArgs)
        requires
            args@.input_index < tx.model().inputs.len(),
            args@.input_index < args@.spent_script_pubkeys.len(),
        ensures
            final(stream)@ == old(stream)@ + legacy_inputs_bytes(tx.model(), args@),
    {
        let ghost before = stream@;
        if args.sighash_ty.is_anyone_can_pay() {
            stream.append_compact_size(1);
            Self::append_signed_input(stream, tx, args, args.input_index);
            assert(stream@ =~= before + legacy_inputs_bytes(tx.model(), args@));
        } else {
            let ghost parts = Seq::new(
                tx.model().inputs.len(),
                |j: int| legacy_signed_input(tx.model(), args@, j),
            );
            let count = tx.inputs().len();
            stream.append_compact_size(count as u64);
            let ghost counted = stream@;
            let mut j: usize = 0;
            while j < count
                invariant
                    j <= count,
                    count == tx.model().inputs.len(),
                    args@.input_index < args@.spent_script_pubkeys.len(),
                    parts == Seq::new(
                        tx.model().inputs.len(),
                        |j: int| legacy_signed_input(tx.model(), args@, j),
                    ),
                    stream@ == counted + parts.take(j as int).flatten(),
                decreases count - j,
            {
                proof {
                    lemma_flatten_step(parts, j as int);
                }
                Self::append_signed_input(stream, tx, args, j);
                assert(stream@ =~= counted + parts.take(j + 1).flatten());
                j += 1;
            }
            assert(parts.take(j as int) =~= parts);
            assert(stream@ =~= before + legacy_inputs_bytes(tx.model(), args@));
        }
    }

    /// Appends the outputs as the preimage holds them.
    pub fn append_outputs(stream: &mut Stream, tx: &Transaction, args: &UtxoPreimageArgs)
        requires
            single_output_exists(tx.model(), args@),
        ensures
            final(stream)@ == old(stream)@ + legacy_outputs_bytes(tx.model(), args@),
    {
        let ghost before = stream@;
        match args.sighash_ty.base_type() {
            SighashBase::All => {
                stream.append_compact_size(tx.outputs().len() as u64);
                let bytes = TransactionHasher::<Transaction>::outputs_preimage(tx);
                stream.append_raw_slice(bytes.as_slice());
            },
            SighashBase::NoOutputs => {
                stream.append_compact_size(0);
            },
            SighashBase::Single => {
                let index = args.input_index;
                let outputs = tx.outputs();
                assert(index < outputs.len());
                let ghost parts = Seq::new(index as nat, |j: int| blank_output());
                stream.append_compact_size((index + 1) as u64);
                let ghost counted = stream@;
                let empty: [u8; 0] = [];
                assert(empty@ =~= Seq::<u8>::empty());
                let mut j: usize = 0;
                while j < index
                    invariant
                        j <= index,
                        empty@ == Seq::<u8>::empty(),
                        parts == Seq::new(index as nat, |j: int| blank_output()),
                        stream@ == counted + parts.take(j as int).flatten(),
                    decreases index - j,
                {
                    proof {
                        lemma_flatten_step(parts, j as int);
                    }
                    let ghost so_far = stream@;
                    stream.append_u64(BLANK_AMOUNT);
                    stream.append_var_bytes(empty.as_slice());
                    assert(stream@ =~= so_far + blank_output());
                    assert(stream@ =~= counted + parts.take(j + 1).flatten());
                    j += 1;
                }
                assert(parts.take(j as int) =~= parts);
                append_output(stream, &outputs[index]);
            },
        }
        assert(stream@ =~= before + legacy_outputs_bytes(tx.model(), args@));
    }

    /// The bytes that are hashed for a request, or why there are none.
    pub fn preimage_tx(tx: &Transaction, args: &UtxoPreimageArgs) -> (res: Result<Vec<u8>, Error>)
        ensures
            same_result(res, legacy_preimage_result(tx.model(), args@)),
    {
        let index = args.input_index;
        let input_count = tx.inputs().len();
        if index >= input_count {
            return Err(Error::IndexOutOfRange);
        }
        let single = match args.sighash_ty.base_type() {
            SighashBase::Single => true,
            _ => false,
        };
        if single && index >= tx.outputs().len() {
            return Err(Error::UnsupportedSighashCombination);
        }
        if args.tr_spent_amounts.len() != input_count || args.tr_spent_script_pubkeys.len()
            != input_count {
            return Err(Error::SpendingMetadataMismatch);
        }
        let mut stream = Stream::new();
        stream.append_u32(tx.version());
        Self::append_inputs(&mut stream, tx, args);
        Self::append_outputs(&mut stream, tx, args);
        stream.append_u32(tx.locktime());
        stream.append_u32(args.sighash_ty.encode());
        assert(stream@ =~= legacy_preimage(tx.model(), args@));
        Ok(stream.out())
    }

    /// The digest that a signature over input `args.input_index` of `tx`
    /// signs, or why there is none.
    pub fn sighash_tx(tx: &Transaction, args: &UtxoPreimageArgs) -> (res: Result<Vec<u8>, Error>)
        ensures
            same_result(res, legacy_sighash(tx.model(), args@)),
            res is Ok ==> res->Ok_0@.len() == 32,
    {
        match Self::preimage_tx(tx, args) {
            Ok(preimage) => Ok(sha256d_bytes(preimage.as_slice())),
            Err(e) => Err(e),
        }
    }
}

} // verus!
