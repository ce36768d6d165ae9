//! The transaction snapshot that a preimage is computed from, and the
//! arguments of a signing request.
//!
//! The signing schemes read a transaction through `TransactionInterface`, so
//! that any representation that can show its version, lock time, inputs and
//! outputs can be signed. `Transaction` is the representation that the
//! library brings along.

use vstd::prelude::*;
use crate::hashing::Hasher;
use crate::sighash::SighashType;

verus! {

/// A reference to an output of an earlier transaction.
#[derive(Clone, Copy, Debug)]
pub struct OutPoint {
    /// The identifier of the earlier transaction.
    pub txid: [u8; 32],
    /// The position of the output in it.
    pub vout: u32,
}

/// An input of a transaction.
#[derive(Clone, Debug)]
pub struct TxInput {
    /// The output that this input spends.
    pub previous_output: OutPoint,
    /// The sequence number.
    pub sequence: u32,
    /// The unlocking script; empty where there is none.
    pub script_sig: Vec<u8>,
    /// The witness stack; empty where there is none.
    pub witness: Vec<Vec<u8>>,
}

/// An output of a transaction.
#[derive(Clone, Debug)]
pub struct TxOutput {
    /// The amount, in the smallest unit.
    pub value: u64,
    /// The spending condition.
    pub script_pubkey: Vec<u8>,
}

/// A transaction as it stands while it is signed.
#[derive(Clone, Debug)]
pub struct Transaction {
    /// The version number.
    pub version: u32,
    /// The lock time.
    pub locktime: u32,
    /// The inputs, in their consensus order.
    pub inputs: Vec<TxInput>,
    /// The outputs, in their consensus order.
    pub outputs: Vec<TxOutput>,
}

/// What a signing request says beside the transaction.
#[derive(Clone, Debug)]
pub struct UtxoPreimageArgs {
    /// The position of the input that is signed.
    pub input_index: usize,
    /// What the signature covers.
    pub sighash_ty: SighashType,
    /// The hash function of the commitments.
    pub tx_hasher: Hasher,
    /// The amount of the output that each input spends, input by input.
    pub tr_spent_amounts: Vec<u64>,
    /// The script of the output that each input spends, input by input.
    pub tr_spent_script_pubkeys: Vec<Vec<u8>>,
    /// The hash of the script-tree leaf, for a spend by script path.
    pub leaf_hash: Option<[u8; 32]>,
    /// The annex, where one is attached.
    pub annex: Option<Vec<u8>>,
}

/// The mathematical content of an input.
pub ghost struct TxInputModel {
    pub txid: Seq<u8>,
    pub vout: u32,
    pub sequence: u32,
    pub script_sig: Seq<u8>,
    pub witness: Seq<Seq<u8>>,
}

/// The mathematical content of an output.
pub ghost struct TxOutputModel {
    pub value: u64,
    pub script_pubkey: Seq<u8>,
}

/// The mathematical content of a transaction.
pub ghost struct TransactionModel {
    pub version: u32,
    pub locktime: u32,
    pub inputs: Seq<TxInputModel>,
    pub outputs: Seq<TxOutputModel>,
}

/// The mathematical content of a signing request.
pub ghost struct PreimageArgsModel {
    pub input_index: nat,
    pub sighash_ty: SighashType,
    pub tx_hasher: Hasher,
    pub spent_amounts: Seq<u64>,
    pub spent_script_pubkeys: Seq<Seq<u8>>,
    pub leaf_hash: Option<Seq<u8>>,
    pub annex: Option<Seq<u8>>,
}

/// The contents of a list of byte strings.
pub open spec fn byte_strings(list: Seq<Vec<u8>>) -> Seq<Seq<u8>> {
    list.map_values(|item: Vec<u8>| item@)
}

impl View for TxInput {
    type V = TxInputModel;

    open spec fn view(&self) -> TxInputModel {
        TxInputModel {
            txid: self.previous_output.txid@,
            vout: self.previous_output.vout,
            sequence: self.sequence,
            script_sig: self.script_sig@,
            witness: byte_strings(self.witness@),
        }
    }
}

impl View for TxOutput {
    type V = TxOutputModel;

    open spec fn view(&self) -> TxOutputModel {
        TxOutputModel { value: self.value, script_pubkey: self.script_pubkey@ }
    }
}

impl View for Transaction {
    type V = TransactionModel;

    open spec fn view(&self) -> TransactionModel {
        TransactionModel {
            version: self.version,
            locktime: self.locktime,
            inputs: self.inputs@.map_values(|input: TxInput| input@),
            outputs: self.outputs@.map_values(|output: TxOutput| output@),
        }
    }
}

impl View for UtxoPreimageArgs {
    type V = PreimageArgsModel;

    open spec fn view(&self) -> PreimageArgsModel {
        PreimageArgsModel {
            input_index: self.input_index as nat,
            sighash_ty: self.sighash_ty,
            tx_hasher: self.tx_hasher,
            spent_amounts: self.tr_spent_amounts@,
            spent_script_pubkeys: byte_strings(self.tr_spent_script_pubkeys@),
            leaf_hash: match self.leaf_hash {
                Some(hash) => Some(hash@),
                None => None,
            },
            annex: match self.annex {
                Some(annex) => Some(annex@),
                None => None,
            },
        }
    }
}

/// Whether the spending metadata of a request has one entry for each input
/// of the transaction.
pub open spec fn metadata_pairs_up(tx: TransactionModel, args: PreimageArgsModel) -> bool {
    &&& args.spent_amounts.len() == tx.inputs.len()
    &&& args.spent_script_pubkeys.len() == tx.inputs.len()
}

/// Read access to an input.
pub trait TxInputInterface {
    /// The contents of the input.
    spec fn model(&self) -> TxInputModel;

    /// The output that the input spends.
    fn previous_output(&self) -> (out: &OutPoint)
        ensures
            out.txid@ == self.model().txid,
            out.vout == self.model().vout,
    ;

    /// The sequence number.
    fn sequence(&self) -> (sequence: u32)
        ensures
            sequence == self.model().sequence,
    ;
}

/// Read access to an output.
pub trait TxOutputInterface {
    /// The contents of the output.
    spec fn model(&self) -> TxOutputModel;

    /// The amount, in the smallest unit.
    fn value(&self) -> (value: u64)
        ensures
            value == self.model().value,
    ;

    /// The spending condition.
    fn script_pubkey(&self) -> (script: &[u8])
        ensures
            script@ == self.model().script_pubkey,
    ;
}

/// Whether a list of inputs holds the given contents, one by one.
pub open spec fn inputs_hold<I: TxInputInterface>(
    list: Seq<I>,
    contents: Seq<TxInputModel>,
) -> bool {
    &&& list.len() == contents.len()
    &&& forall|i: int| 0 <= i < list.len() ==> (#[trigger] list[i]).model() == contents[i]
}

/// Whether a list of outputs holds the given contents, one by one.
pub open spec fn outputs_hold<O: TxOutputInterface>(
    list: Seq<O>,
    contents: Seq<TxOutputModel>,
) -> bool {
    &&& list.len() == contents.len()
    &&& forall|i: int| 0 <= i < list.len() ==> (#[trigger] list[i]).model() == contents[i]
}

/// Read access to a transaction: what a signing scheme needs of it.
pub trait TransactionInterface {
    type Input: TxInputInterface;

    type Output: TxOutputInterface;

    /// The contents of the transaction.
    spec fn model(&self) -> TransactionModel;

    /// The version number.
    fn version(&self) -> (version: u32)
        ensures
            version == self.model().version,
    ;

    /// The lock time.
    fn locktime(&self) -> (locktime: u32)
        ensures
            locktime == self.model().locktime,
    ;

    /// The inputs, in their consensus order.
    fn inputs(&self) -> (list: &[Self::Input])
        ensures
            inputs_hold(list@, self.model().inputs),
    ;

    /// The outputs, in their consensus order.
    fn outputs(&self) -> (list: &[Self::Output])
        ensures
            outputs_hold(list@, self.model().outputs),
    ;
}

impl TxInputInterface for TxInput {
    open spec fn model(&self) -> TxInputModel {
        self@
    }

    fn previous_output(&self) -> (out: &OutPoint) {
        &self.previous_output
    }

    fn sequence(&self) -> (sequence: u32) {
        self.sequence
    }
}

impl TxOutputInterface for TxOutput {
    open spec fn model(&self) -> TxOutputModel {
        self@
    }

    fn value(&self) -> (value: u64) {
        self.value
    }

    fn script_pubkey(&self) -> (script: &[u8]) {
        self.script_pubkey.as_slice()
    }
}

impl TransactionInterface for Transaction {
    type Input = TxInput;

    type Output = TxOutput;

    open spec fn model(&self) -> TransactionModel {
        self@
    }

    fn version(&self) -> (version: u32) {
        self.version
    }

    fn locktime(&self) -> (locktime: u32) {
        self.locktime
    }

    fn inputs(&self) -> (list: &[TxInput]) {
        self.inputs.as_slice()
    }

    fn outputs(&self) -> (list: &[TxOutput]) {
        self.outputs.as_slice()
    }
}

} // verus!
