//! The commitments that the signing schemes hash: each is the digest of the
//! canonical encodings of its elements, written one after another in the
//! order of the transaction.

use vstd::prelude::*;
use vstd::seq_lib::lemma_flatten_concat;
use core::marker::PhantomData;
use crate::encode::{u32_le, u64_le, var_bytes, Stream};
use crate::error::Error;
use crate::hashing::Hasher;
use crate::transaction::{
    inputs_hold, outputs_hold, TransactionInterface, TransactionModel, TxInputInterface,
    TxInputModel, TxOutputInterface, TxOutputModel, UtxoPreimageArgs,
};

verus! {

/// The encoding of the output that an input spends: the identifier of the
/// earlier transaction, then the position in four bytes.
pub open spec fn outpoint_bytes(input: TxInputModel) -> Seq<u8> {
    input.txid + u32_le(input.vout)
}

/// The encoding of an output: the amount in eight bytes, then the script
/// behind its length.
pub open spec fn output_bytes(output: TxOutputModel) -> Seq<u8> {
    u64_le(output.value) + var_bytes(output.script_pubkey)
}

/// The encodings of the outputs that the inputs spend, input by input.
pub open spec fn prevouts_bytes(inputs: Seq<TxInputModel>) -> Seq<u8> {
    inputs.map_values(|input: TxInputModel| outpoint_bytes(input)).flatten()
}

/// The sequence numbers of the inputs, four bytes each.
pub open spec fn sequences_bytes(inputs: Seq<TxInputModel>) -> Seq<u8> {
    inputs.map_values(|input: TxInputModel| u32_le(input.sequence)).flatten()
}

/// The encodings of the outputs, output by output.
pub open spec fn outputs_bytes(outputs: Seq<TxOutputModel>) -> Seq<u8> {
    outputs.map_values(|output: TxOutputModel| output_bytes(output)).flatten()
}

/// The spent amounts, eight bytes each.
pub open spec fn spent_amounts_bytes(amounts: Seq<u64>) -> Seq<u8> {
    amounts.map_values(|amount: u64| u64_le(amount)).flatten()
}

/// The spent scripts, each behind its length.
pub open spec fn spent_scripts_bytes(scripts: Seq<Seq<u8>>) -> Seq<u8> {
    scripts.map_values(|script: Seq<u8>| var_bytes(script)).flatten()
}

/// The five commitments of a transaction and its spending metadata.
pub ghost struct CommitmentsModel {
    pub prevouts: Seq<u8>,
    pub sequences: Seq<u8>,
    pub outputs: Seq<u8>,
    pub spent_amounts: Seq<u8>,
    pub spent_script_pubkeys: Seq<u8>,
}

/// The commitments that `hasher` gives for a transaction and spending
/// metadata. None of them depends on the input that is signed.
pub open spec fn commitments_of(
    tx: TransactionModel,
    hasher: Hasher,
    spent_amounts: Seq<u64>,
    spent_script_pubkeys: Seq<Seq<u8>>,
) -> CommitmentsModel {
    CommitmentsModel {
        prevouts: hasher.digest(prevouts_bytes(tx.inputs)),
        sequences: hasher.digest(sequences_bytes(tx.inputs)),
        outputs: hasher.digest(outputs_bytes(tx.outputs)),
        spent_amounts: hasher.digest(spent_amounts_bytes(spent_amounts)),
        spent_script_pubkeys: hasher.digest(spent_scripts_bytes(spent_script_pubkeys)),
    }
}

/// Adding one more part to a concatenation appends that part.
pub proof fn lemma_flatten_step(parts: Seq<Seq<u8>>, i: int)
    requires
        0 <= i < parts.len(),
    ensures
        parts.take(i + 1).flatten() == parts.take(i).flatten() + parts[i],
{
    let one = seq![parts[i]];
    assert(parts.take(i + 1) =~= parts.take(i) + one);
    lemma_flatten_concat(parts.take(i), one);
    one.lemma_flatten_one_element();
}

/// The commitments, as bytes.
pub struct Commitments {
    /// The digest over the outputs that the inputs spend.
    pub prevouts: Vec<u8>,
    /// The digest over the sequence numbers.
    pub sequences: Vec<u8>,
    /// The digest over the outputs.
    pub outputs: Vec<u8>,
    /// The digest over the spent amounts.
    pub spent_amounts: Vec<u8>,
    /// The digest over the spent scripts.
    pub spent_script_pubkeys: Vec<u8>,
}

impl View for Commitments {
    type V = CommitmentsModel;

    open spec fn view(&self) -> CommitmentsModel {
        CommitmentsModel {
            prevouts: self.prevouts@,
            sequences: self.sequences@,
            outputs: self.outputs@,
            spent_amounts: self.spent_amounts@,
            spent_script_pubkeys: self.spent_script_pubkeys@,
        }
    }
}

/// Appends the encoding of an output to a stream.
pub fn append_output<O: TxOutputInterface>(stream: &mut Stream, output: &O)
    ensures
        final(stream)@ == old(stream)@ + output_bytes(output.model()),
{
    let ghost before = stream@;
    stream.append_u64(output.value());
    stream.append_var_bytes(output.script_pubkey());
    assert(stream@ =~= before + output_bytes(output.model()));
}

/// Appends the encoding of the output that an input spends to a stream.
pub fn append_outpoint<I: TxInputInterface>(stream: &mut Stream, input: &I)
    ensures
        final(stream)@ == old(stream)@ + outpoint_bytes(input.model()),
{
    let ghost before = stream@;
    let previous_output = input.previous_output();
    stream.append_raw_slice(previous_output.txid.as_slice());
    stream.append_u32(previous_output.vout);
    assert(stream@ =~= before + outpoint_bytes(input.model()));
}

/// Computes the commitments of a transaction.
pub struct TransactionHasher<T: TransactionInterface> {
    _phantom: PhantomData<T>,
}

impl<T: TransactionInterface> TransactionHasher<T> {
    /// The encodings of the outputs that the inputs spend, input by input.
    pub fn prevouts_preimage(tx: &T) -> (out: Vec<u8>)
        ensures
            out@ == prevouts_bytes(tx.model().inputs),
    {
        let inputs = tx.inputs();
        let ghost parts = tx.model().inputs.map_values(|input: TxInputModel| outpoint_bytes(input));
        let mut stream = Stream::new();
        let mut i: usize = 0;
        while i < inputs.len()
            invariant
                i <= inputs.len(),
                inputs_hold(inputs@, tx.model().inputs),
                parts == tx.model().inputs.map_values(|input: TxInputModel| outpoint_bytes(input)),
                stream@ == parts.take(i as int).flatten(),
            decreases inputs.len() - i,
        {
            proof {
                lemma_flatten_step(parts, i as int);
            }
            append_outpoint(&mut stream, &inputs[i]);
            i += 1;
        }
        assert(parts.take(i as int) =~= parts);
        stream.out()
    }

    /// The sequence numbers of the inputs, four bytes each.
    pub fn sequences_preimage(tx: &T) -> (out: Vec<u8>)
        ensures
            out@ == sequences_bytes(tx.model().inputs),
    {
        let inputs = tx.inputs();
        let ghost parts = tx.model().inputs.map_values(
            |input: TxInputModel| u32_le(input.sequence),
        );
        let mut stream = Stream::new();
        let mut i: usize = 0;
        while i < inputs.len()
            invariant
                i <= inputs.len(),
                inputs_hold(inputs@, tx.model().inputs),
                parts == tx.model().inputs.map_values(|input: TxInputModel| u32_le(input.sequence)),
                stream@ == parts.take(i as int).flatten(),
            decreases inputs.len() - i,
        {
            proof {
                lemma_flatten_step(parts, i as int);
            }
            stream.append_u32(inputs[i].sequence());
            i += 1;
        }
        assert(parts.take(i as int) =~= parts);
        stream.out()
    }

    /// The encodings of the outputs, output by output.
    pub fn outputs_preimage(tx: &T) -> (out: Vec<u8>)
        ensures
            out@ == outputs_bytes(tx.model().outputs),
    {
        let outputs = tx.outputs();
        let ghost parts = tx.model().outputs.map_values(
            |output: TxOutputModel| output_bytes(output),
        );
        let mut stream = Stream::new();
        let mut i: usize = 0;
        while i < outputs.len()
            invariant
                i <= outputs.len(),
                outputs_hold(outputs@, tx.model().outputs),
                parts == tx.model().outputs.map_values(|output: TxOutputModel| output_bytes(output)),
                stream@ == parts.take(i as int).flatten(),
            decreases outputs.len() - i,
        {
            proof {
                lemma_flatten_step(parts, i as int);
            }
            append_output(&mut stream, &outputs[i]);
            i += 1;
        }
        assert(parts.take(i as int) =~= parts);
        stream.out()
    }

    /// The spent amounts, eight bytes each.
    pub fn spent_amounts_preimage(args: &UtxoPreimageArgs) -> (out: Vec<u8>)
        ensures
            out@ == spent_amounts_bytes(args@.spent_amounts),
    {
        let ghost parts = args@.spent_amounts.map_values(|amount: u64| u64_le(amount));
        let mut stream = Stream::new();
        let mut i: usize = 0;
        while i < args.tr_spent_amounts.len()
            invariant
                i <= args.tr_spent_amounts.len(),
                parts == args@.spent_amounts.map_values(|amount: u64| u64_le(amount)),
                stream@ == parts.take(i as int).flatten(),
            decreases args.tr_spent_amounts.len() - i,
        {
            proof {
                lemma_flatten_step(parts, i as int);
            }
            stream.append_u64(args.tr_spent_amounts[i]);
            i += 1;
        }
        assert(parts.take(i as int) =~= parts);
        stream.out()
    }

    /// The spent scripts, each behind its length.
    pub fn spent_script_pubkeys_preimage(args: &UtxoPreimageArgs) -> (out: Vec<u8>)
        ensures
            out@ == spent_scripts_bytes(args@.spent_script_pubkeys),
    {
        let ghost parts = args@.spent_script_pubkeys.map_values(
            |script: Seq<u8>| var_bytes(script),
        );
        let mut stream = Stream::new();
        let mut i: usize = 0;
        while i < args.tr_spent_script_pubkeys.len()
            invariant
                i <= args.tr_spent_script_pubkeys.len(),
                parts == args@.spent_script_pubkeys.map_values(|script: Seq<u8>| var_bytes(script)),
                stream@ == parts.take(i as int).flatten(),
            decreases args.tr_spent_script_pubkeys.len() - i,
        {
            proof {
                lemma_flatten_step(parts, i as int);
            }
            stream.append_var_bytes(args.tr_spent_script_pubkeys[i].as_slice());
            i += 1;
        }
        assert(parts.take(i as int) =~= parts);
        stream.out()
    }

    /// The digest over the outputs that the inputs spend.
    pub fn preimage_prevout_hash(tx: &T, args: &UtxoPreimageArgs) -> (out: Vec<u8>)
        ensures
            out@ == args@.tx_hasher.digest(prevouts_bytes(tx.model().inputs)),
            out@.len() == 32,
    {
        let bytes = Self::prevouts_preimage(tx);
        args.tx_hasher.hash(bytes.as_slice())
    }

    /// The digest over the sequence numbers of the inputs.
    pub fn preimage_sequence_hash(tx: &T, args: &UtxoPreimageArgs) -> (out: Vec<u8>)
        ensures
            out@ == args@.tx_hasher.digest(sequences_bytes(tx.model().inputs)),
            out@.len() == 32,
    {
        let bytes = Self::sequences_preimage(tx);
        args.tx_hasher.hash(bytes.as_slice())
    }

    /// The digest over the outputs.
    pub fn preimage_outputs_hash(tx: &T, args: &UtxoPreimageArgs) -> (out: Vec<u8>)
        ensures
            out@ == args@.tx_hasher.digest(outputs_bytes(tx.model().outputs)),
            out@.len() == 32,
    {
        let bytes = Self::outputs_preimage(tx);
        args.tx_hasher.hash(bytes.as_slice())
    }

    /// The digest over the spent amounts.
    pub fn preimage_spent_amounts_hash(args: &UtxoPreimageArgs) -> (out: Vec<u8>)
        ensures
            out@ == args@.tx_hasher.digest(spent_amounts_bytes(args@.spent_amounts)),
            out@.len() == 32,
    {
        let bytes = Self::spent_amounts_preimage(args);
        args.tx_hasher.hash(bytes.as_slice())
    }

    /// The digest over the spent scripts.
    pub fn preimage_spent_script_pubkeys_hash(args: &UtxoPreimageArgs) -> (out: Vec<u8>)
        ensures
            out@ == args@.tx_hasher.digest(spent_scripts_bytes(args@.spent_script_pubkeys)),
            out@.len() == 32,
    {
        let bytes = Self::spent_script_pubkeys_preimage(args);
        args.tx_hasher.hash(bytes.as_slice())
    }

    /// All five commitments of a signing request. The one check made is that
    /// the request names an input of the transaction.
    pub fn commitments(tx: &T, args: &UtxoPreimageArgs) -> (res: Result<Commitments, Error>)
        ensures
            args@.input_index < tx.model().inputs.len() ==> res is Ok && res->Ok_0@
                == commitments_of(
                tx.model(),
                args@.tx_hasher,
                args@.spent_amounts,
                args@.spent_script_pubkeys,
            ),
            args@.input_index >= tx.model().inputs.len() ==> res is Err && res->Err_0
                == Error::IndexOutOfRange,
    {
        if args.input_index >= tx.inputs().len() {
            return Err(Error::IndexOutOfRange);
        }
        Ok(
            Commitments {
                prevouts: Self::preimage_prevout_hash(tx, args),
                sequences: Self::preimage_sequence_hash(tx, args),
                outputs: Self::preimage_outputs_hash(tx, args),
                spent_amounts: Self::preimage_spent_amounts_hash(args),
                spent_script_pubkeys: Self::preimage_spent_script_pubkeys_hash(args),
            },
        )
    }
}

} // verus!
