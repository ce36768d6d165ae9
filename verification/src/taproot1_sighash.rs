//! The Taproot signing digest.
//!
//! The message is positional: every field is a digest or an integer of fixed
//! width, so order and width decide every byte. Covered is the spend by key
//! path with base mode `All` or `NoOutputs`, without the modifier and without
//! an annex; every other request is rejected.

use vstd::prelude::*;
use core::marker::PhantomData;
use crate::encode::{u32_le, Stream};
use crate::error::{same_result, Error};
use crate::hashing::{tagged_hash, tagged_hash_bytes, tap_sighash_tag, Hasher};
use crate::sighash::{legal_under, SighashBase, SighashType, SigningScheme};
use crate::transaction::{
    metadata_pairs_up, PreimageArgsModel, TransactionInterface, TransactionModel,
    UtxoPreimageArgs,
};
use crate::transaction_hashing::{
    commitments_of, outputs_bytes, prevouts_bytes, sequences_bytes, spent_amounts_bytes,
    spent_scripts_bytes, Commitments, TransactionHasher,
};

verus! {

/// The byte that opens the hashed message.
pub const EPOCH: u8 = 0;

/// The spend-type byte of a spend by key path without an annex.
pub const KEY_PATH_SPEND_TYPE: u8 = 0;

/// Whether a digest is defined for the request: a legal sighash type, no
/// leaf hash and no annex.
pub open spec fn taproot_covers(args: PreimageArgsModel) -> bool {
    &&& legal_under(SigningScheme::Taproot, args.sighash_ty)
    &&& args.leaf_hash is None
    &&& args.annex is None
}

/// Whether the request names an input whose position fits the four bytes
/// that the message has for it.
pub open spec fn index_in_range(tx: TransactionModel, args: PreimageArgsModel) -> bool {
    args.input_index < tx.inputs.len() && args.input_index <= u32::MAX
}

/// The message up to the position of the input: the flag byte, version and
/// lock time, the four commitments over the inputs and what they spend, the
/// commitment over the outputs for base mode `All`, and the spend type.
pub open spec fn taproot_message_head(
    tx: TransactionModel,
    ty: SighashType,
    hasher: Hasher,
    spent_amounts: Seq<u64>,
    spent_script_pubkeys: Seq<Seq<u8>>,
) -> Seq<u8> {
    seq![ty.flag() as u8] + u32_le(tx.version) + u32_le(tx.locktime) + hasher.digest(
        prevouts_bytes(tx.inputs),
    ) + hasher.digest(spent_amounts_bytes(spent_amounts)) + hasher.digest(
        spent_scripts_bytes(spent_script_pubkeys),
    ) + hasher.digest(sequences_bytes(tx.inputs)) + (if ty.base == SighashBase::All {
        hasher.digest(outputs_bytes(tx.outputs))
    } else {
        Seq::<u8>::empty()
    }) + seq![KEY_PATH_SPEND_TYPE]
}

/// The message of a covered request: the head, then the position of the
/// input in four bytes.
pub open spec fn taproot_message(tx: TransactionModel, args: PreimageArgsModel) -> Seq<u8> {
    taproot_message_head(
        tx,
        args.sighash_ty,
        args.tx_hasher,
        args.spent_amounts,
        args.spent_script_pubkeys,
    ) + u32_le(args.input_index as u32)
}

/// The bytes that are hashed: the epoch byte, then the message.
pub open spec fn taproot_preimage(tx: TransactionModel, args: PreimageArgsModel) -> Seq<u8> {
    seq![EPOCH] + taproot_message(tx, args)
}

/// What a request is answered with: the preimage, or the first failure in
/// the order index, coverage, metadata.
pub open spec fn taproot_preimage_result(tx: TransactionModel, args: PreimageArgsModel) -> Result<
    Seq<u8>,
    Error,
> {
    if !index_in_range(tx, args) {
        Err(Error::IndexOutOfRange)
    } else if !taproot_covers(args) {
        Err(Error::UnsupportedSighashCombination)
    } else if !metadata_pairs_up(tx, args) {
        Err(Error::SpendingMetadataMismatch)
    } else {
        Ok(taproot_preimage(tx, args))
    }
}

/// The digest of a request: the hash of its preimage under the tag
/// `TapSighash`, or the failure of the preimage.
pub open spec fn taproot_sighash(tx: TransactionModel, args: PreimageArgsModel) -> Result<
    Seq<u8>,
    Error,
> {
    match taproot_preimage_result(tx, args) {
        Ok(preimage) => Ok(tagged_hash(tap_sighash_tag(), preimage)),
        Err(e) => Err(e),
    }
}

/// Computes the digest that a Taproot signature signs.
pub struct Taproot1Sighash<Transaction: TransactionInterface> {
    _phantom: PhantomData<Transaction>,
}

impl<Transaction: TransactionInterface> Taproot1Sighash<Transaction> {
    /// Checks a request: the first failure in the order index, coverage,
    /// metadata.
    pub fn check_request(tx: &Transaction, args: &UtxoPreimageArgs) -> (res: Result<(), Error>)
        ensures
            res is Ok <==> taproot_preimage_result(tx.model(), args@) is Ok,
            res is Err ==> taproot_preimage_result(tx.model(), args@) == Err::<Seq<u8>, Error>(
                res->Err_0,
            ),
    {
        let input_count = tx.inputs().len();
        if args.input_index >= input_count || args.input_index > 0xffff_ffff {
            return Err(Error::IndexOutOfRange);
        }
        if !args.sighash_ty.is_legal_for(SigningScheme::Taproot) || args.leaf_hash.is_some()
            || args.annex.is_some() {
            return Err(Error::UnsupportedSighashCombination);
        }
        if args.tr_spent_amounts.len() != input_count || args.tr_spent_script_pubkeys.len()
            != input_count {
            return Err(Error::SpendingMetadataMismatch);
        }
        Ok(())
    }

    /// The bytes that are hashed for a request that passes the checks, from
    /// commitments that were computed before. The commitments do not depend
    /// on the input, so one set serves every input of a transaction.
    pub fn preimage_with_commitments(
        tx: &Transaction,
        args: &UtxoPreimageArgs,
        commitments: &Commitments,
    ) -> (out: Vec<u8>)
        requires
            taproot_preimage_result(tx.model(), args@) is Ok,
            commitments@ == commitments_of(
                tx.model(),
                args@.tx_hasher,
                args@.spent_amounts,
                args@.spent_script_pubkeys,
            ),
        ensures
            out@ == taproot_preimage(tx.model(), args@),
    {
        let flag: u32 = args.sighash_ty.encode();
        let mut stream = Stream::new();
        stream.append_u8(EPOCH);
        stream.append_u8(flag as u8);
        stream.append_u32(tx.version());
        stream.append_u32(tx.locktime());
        stream.append_raw_slice(commitments.prevouts.as_slice());
        stream.append_raw_slice(commitments.spent_amounts.as_slice());
        stream.append_raw_slice(commitments.spent_script_pubkeys.as_slice());
        stream.append_raw_slice(commitments.sequences.as_slice());
        match args.sighash_ty.base_type() {
            SighashBase::All => {
                stream.append_raw_slice(commitments.outputs.as_slice());
            },
            _ => {},
        }
        stream.append_u8(KEY_PATH_SPEND_TYPE);
        stream.append_u32(args.input_index as u32);
        assert(stream@ =~= taproot_preimage(tx.model(), args@));
        stream.out()
    }

    /// The digest of a request that passes the checks, from commitments that
    /// were computed before.
    pub fn sighash_with_commitments(
        tx: &Transaction,
        args: &UtxoPreimageArgs,
        commitments: &Commitments,
    ) -> (out: Vec<u8>)
        requires
            taproot_preimage_result(tx.model(), args@) is Ok,
            commitments@ == commitments_of(
                tx.model(),
                args@.tx_hasher,
                args@.spent_amounts,
                args@.spent_script_pubkeys,
            ),
        ensures
            taproot_sighash(tx.model(), args@) == Ok::<Seq<u8>, Error>(out@),
            out@.len() == 32,
    {
        let preimage = Self::preimage_with_commitments(tx, args, commitments);
        let tag: [u8; 10] = [0x54, 0x61, 0x70, 0x53, 0x69, 0x67, 0x68, 0x61, 0x73, 0x68];
        assert(tag@ =~= tap_sighash_tag());
        tagged_hash_bytes(tag.as_slice(), preimage.as_slice())
    }

    /// The bytes that are hashed for a request, or why there are none.
    pub fn preimage_tx(tx: &Transaction, args: &UtxoPreimageArgs) -> (res: Result<Vec<u8>, Error>)
        ensures
            same_result(res, taproot_preimage_result(tx.model(), args@)),
    {
        match Self::check_request(tx, args) {
            Ok(()) => {},
            Err(e) => {
                return Err(e);
            },
        }
        match TransactionHasher::<Transaction>::commitments(tx, args) {
            Ok(commitments) => Ok(Self::preimage_with_commitments(tx, args, &commitments)),
            Err(e) => Err(e),
        }
    }

    /// The digest that a signature over input `args.input_index` of `tx`
    /// signs, or why there is none.
    pub fn sighash_tx(tx: &Transaction, args: &UtxoPreimageArgs) -> (res: Result<Vec<u8>, Error>)
        ensures
            same_result(res, taproot_sighash(tx.model(), args@)),
            res is Ok ==> res->Ok_0@.len() == 32,
    {
        match Self::preimage_tx(tx, args) {
            Ok(preimage) => {
                let tag: [u8; 10] = [0x54, 0x61, 0x70, 0x53, 0x69, 0x67, 0x68, 0x61, 0x73, 0x68];
                assert(tag@ =~= tap_sighash_tag());
                Ok(tagged_hash_bytes(tag.as_slice(), preimage.as_slice()))
            },
            Err(e) => Err(e),
        }
    }
}

} // verus!
