//! The failures that the library reports.

use vstd::prelude::*;

verus! {

/// Why a preimage or an output could not be built. No partial result is ever
/// returned together with one of these.
#[derive(Clone, Copy, Debug, PartialEq, Eq, Structural)]
pub enum Error {
    /// The input index does not name an input of the transaction.
    IndexOutOfRange,
    /// The scheme does not define a digest for the requested sighash mode and
    /// spend options.
    UnsupportedSighashCombination,
    /// A public key, a hash or a ticker has the wrong length or is malformed.
    InvalidKeyOrHashFormat,
    /// The output asks for a template or a recipient form that is not built.
    UnimplementedTemplate,
    /// No valid output key and control block exist for the script tree.
    MalformedControlBlockConstruction,
    /// The spent amounts or spent scripts do not pair up with the inputs.
    SpendingMetadataMismatch,
}

/// Whether an outcome in bytes is the outcome that a specification gives:
/// the same bytes, or the same error.
pub open spec fn same_result(res: Result<Vec<u8>, Error>, model: Result<Seq<u8>, Error>) -> bool {
    match res {
        Ok(bytes) => model == Ok::<Seq<u8>, Error>(bytes@),
        Err(e) => model == Err::<Seq<u8>, Error>(e),
    }
}

} // verus!
