//! The entry point that picks the signing scheme of an input.

use vstd::prelude::*;
use crate::error::{same_result, Error};
use crate::legacy_sighash::{legacy_sighash, LegacySighash};
use crate::sighash::SigningScheme;
use crate::taproot1_sighash::{taproot_sighash, Taproot1Sighash};
use crate::transaction::{
    PreimageArgsModel, TransactionInterface, TransactionModel, UtxoPreimageArgs,
};
use crate::witness0_sighash::{segwit_sighash, Witness0Sighash};

verus! {

/// The digest that a scheme gives for a request, or why it gives none.
pub open spec fn sighash_under(
    scheme: SigningScheme,
    tx: TransactionModel,
    args: PreimageArgsModel,
) -> Result<Seq<u8>, Error> {
    match scheme {
        SigningScheme::Legacy => legacy_sighash(tx, args),
        SigningScheme::SegwitV0 => segwit_sighash(tx, args),
        SigningScheme::Taproot => taproot_sighash(tx, args),
    }
}

/// Computes the digest that a signature over input `args.input_index` of
/// `tx` signs under `scheme`. The scheme follows from the kind of output
/// that the input spends, which the caller knows.
pub fn compute_sighash<T: TransactionInterface>(
    scheme: SigningScheme,
    tx: &T,
    args: &UtxoPreimageArgs,
) -> (res: Result<Vec<u8>, Error>)
    ensures
        same_result(res, sighash_under(scheme, tx.model(), args@)),
        res is Ok ==> res->Ok_0@.len() == 32,
{
    match scheme {
        SigningScheme::Legacy => LegacySighash::<T>::sighash_tx(tx, args),
        SigningScheme::SegwitV0 => Witness0Sighash::<T>::sighash_tx(tx, args),
        SigningScheme::Taproot => Taproot1Sighash::<T>::sighash_tx(tx, args),
    }
}

} // verus!
