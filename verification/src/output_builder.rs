//! Building the spending condition of a new output.

use vstd::prelude::*;
use vstd::slice::slice_to_vec;
use crate::brc20::{new_envelope_script, new_transfer_payload, transfer_script, TICKER_LEN};
use crate::error::{same_result, Error};
use crate::hashing::{hash160, hash160_bytes};
use crate::keys::{
    is_valid_public_key, public_key_valid, tweaked_key, x_only, x_only_bytes, xonly_add_tweak,
};
use crate::script::{
    new_p2pkh, new_single_leaf_control_block, new_v0_p2wpkh, new_v1_p2tr_tweaked, p2pkh_script,
    p2tr_script, p2wpkh_script, single_leaf_control_block, tap_leaf_hash, tap_leaf_hash_bytes,
    tap_tweak_hash, tap_tweak_hash_bytes,
};

verus! {

/// A public key, or the hash of one.
#[derive(Clone, Debug)]
pub enum PublicKeyOrHash {
    /// The encoding of a public key.
    Pubkey(Vec<u8>),
    /// The 20-byte hash of a public key.
    Hash(Vec<u8>),
    /// Neither was given.
    Unset,
}

/// A Taproot output that commits to a script tree by its root.
#[derive(Clone, Debug)]
pub struct TaprootScriptPath {
    /// The encoding of the internal public key.
    pub public_key: Vec<u8>,
    /// The 32-byte root of the script tree.
    pub node_hash: Vec<u8>,
}

/// A Taproot output that carries a token-transfer inscription.
#[derive(Clone, Debug)]
pub struct Brc20Inscribe {
    /// The encoding of the public key that may reveal the inscription.
    pub inscribe_to: Vec<u8>,
    /// The ticker of the token: four bytes of text.
    pub ticker: Vec<u8>,
    /// The amount of the token that is transferred.
    pub transfer_amount: u64,
}

/// A template for a spending condition, with its parameters.
#[derive(Clone, Debug)]
pub enum OutputBuilderVariant {
    /// Pay to the hash of a script.
    P2sh(Vec<u8>),
    /// Pay to the hash of a public key.
    P2pkh(PublicKeyOrHash),
    /// Pay to the hash of a witness script.
    P2wsh(Vec<u8>),
    /// Pay to the hash of a public key, as a witness program.
    P2wpkh(PublicKeyOrHash),
    /// Pay to a Taproot key without a script tree.
    P2trKeyPath(Vec<u8>),
    /// Pay to a Taproot key that commits to a script tree.
    P2trScriptPath(TaprootScriptPath),
    /// Pay to a Taproot key that commits to a transfer inscription.
    Brc20Inscribe(Brc20Inscribe),
    /// No template was chosen.
    Unset,
}

/// Who receives an output.
#[derive(Clone, Debug)]
pub enum Recipient {
    /// The spending condition itself.
    ScriptPubkey(Vec<u8>),
    /// A template from which the spending condition is built.
    Builder(OutputBuilderVariant),
    /// An address from which the spending condition would be derived.
    FromAddress(Vec<u8>),
    /// No recipient was given.
    Unset,
}

/// The description of an output that is to be built.
#[derive(Clone, Debug)]
pub struct Output {
    /// The amount, in the smallest unit.
    pub amount: u64,
    /// Who receives it.
    pub to_recipient: Recipient,
}

/// An output with its spending condition.
#[derive(Clone, Debug)]
pub struct TxOut {
    /// The amount, in the smallest unit.
    pub value: u64,
    /// The spending condition.
    pub script_pubkey: Vec<u8>,
    /// The control block that reveals the script of a script-path output;
    /// it has to be kept until that output is spent.
    pub control_block: Option<Vec<u8>>,
}

pub ghost enum KeyOrHashModel {
    Pubkey(Seq<u8>),
    Hash(Seq<u8>),
    Unset,
}

pub ghost enum BuilderModel {
    P2sh(Seq<u8>),
    P2pkh(KeyOrHashModel),
    P2wsh(Seq<u8>),
    P2wpkh(KeyOrHashModel),
    P2trKeyPath(Seq<u8>),
    P2trScriptPath { public_key: Seq<u8>, node_hash: Seq<u8> },
    Brc20Inscribe { inscribe_to: Seq<u8>, ticker: Seq<u8>, transfer_amount: u64 },
    Unset,
}

pub ghost enum RecipientModel {
    ScriptPubkey(Seq<u8>),
    Builder(BuilderModel),
    FromAddress(Seq<u8>),
    Unset,
}

pub ghost struct OutputModel {
    pub amount: u64,
    pub to_recipient: RecipientModel,
}

pub ghost struct TxOutModel {
    pub value: u64,
    pub script_pubkey: Seq<u8>,
    pub control_block: Option<Seq<u8>>,
}

impl View for PublicKeyOrHash {
    type V = KeyOrHashModel;

    open spec fn view(&self) -> KeyOrHashModel {
        match self {
            PublicKeyOrHash::Pubkey(key) => KeyOrHashModel::Pubkey(key@),
            PublicKeyOrHash::Hash(hash) => KeyOrHashModel::Hash(hash@),
            PublicKeyOrHash::Unset => KeyOrHashModel::Unset,
        }
    }
}

impl View for OutputBuilderVariant {
    type V = BuilderModel;

    open spec fn view(&self) -> BuilderModel {
        match self {
            OutputBuilderVariant::P2sh(data) => BuilderModel::P2sh(data@),
            OutputBuilderVariant::P2pkh(target) => BuilderModel::P2pkh(target@),
            OutputBuilderVariant::P2wsh(data) => BuilderModel::P2wsh(data@),
            OutputBuilderVariant::P2wpkh(target) => BuilderModel::P2wpkh(target@),
            OutputBuilderVariant::P2trKeyPath(key) => BuilderModel::P2trKeyPath(key@),
            OutputBuilderVariant::P2trScriptPath(path) => BuilderModel::P2trScriptPath {
                public_key: path.public_key@,
                node_hash: path.node_hash@,
            },
            OutputBuilderVariant::Brc20Inscribe(inscribe) => BuilderModel::Brc20Inscribe {
                inscribe_to: inscribe.inscribe_to@,
                ticker: inscribe.ticker@,
                transfer_amount: inscribe.transfer_amount,
            },
            OutputBuilderVariant::Unset => BuilderModel::Unset,
        }
    }
}

impl View for Recipient {
    type V = RecipientModel;

    open spec fn view(&self) -> RecipientModel {
        match self {
            Recipient::ScriptPubkey(script) => RecipientModel::ScriptPubkey(script@),
            Recipient::Builder(builder) => RecipientModel::Builder(builder@),
            Recipient::FromAddress(address) => RecipientModel::FromAddress(address@),
            Recipient::Unset => RecipientModel::Unset,
        }
    }
}

impl View for Output {
    type V = OutputModel;

    open spec fn view(&self) -> OutputModel {
        OutputModel { amount: self.amount, to_recipient: self.to_recipient@ }
    }
}

impl View for TxOut {
    type V = TxOutModel;

    open spec fn view(&self) -> TxOutModel {
        TxOutModel {
            value: self.value,
            script_pubkey: self.script_pubkey@,
            control_block: match self.control_block {
                Some(block) => Some(block@),
                None => None,
            },
        }
    }
}

/// The hash that a pay-to-public-key-hash script commits to: the given hash
/// where it is 20 bytes long, the HASH160 digest of the given key where that
/// is the encoding of a public key.
pub open spec fn pubkey_hash_of(target: KeyOrHashModel) -> Result<Seq<u8>, Error> {
    match target {
        KeyOrHashModel::Hash(hash) => if hash.len() == 20 {
            Ok(hash)
        } else {
            Err(Error::InvalidKeyOrHashFormat)
        },
        KeyOrHashModel::Pubkey(key) => if public_key_valid(key) {
            Ok(hash160(key))
        } else {
            Err(Error::InvalidKeyOrHashFormat)
        },
        KeyOrHashModel::Unset => Err(Error::UnimplementedTemplate),
    }
}

/// The hash that a version-0 witness program commits to. A key has to be
/// compressed here.
pub open spec fn witness_pubkey_hash_of(target: KeyOrHashModel) -> Result<Seq<u8>, Error> {
    match target {
        KeyOrHashModel::Hash(hash) => if hash.len() == 20 {
            Ok(hash)
        } else {
            Err(Error::InvalidKeyOrHashFormat)
        },
        KeyOrHashModel::Pubkey(key) => if public_key_valid(key) && key.len() == 33 {
            Ok(hash160(key))
        } else {
            Err(Error::InvalidKeyOrHashFormat)
        },
        KeyOrHashModel::Unset => Err(Error::UnimplementedTemplate),
    }
}

/// The output key of a Taproot output with its parity: the internal key
/// tweaked by the hash that commits it to `merkle_root`.
pub open spec fn taproot_output_key(public_key: Seq<u8>, merkle_root: Option<Seq<u8>>) -> Result<
    (bool, Seq<u8>),
    Error,
> {
    if !public_key_valid(public_key) {
        Err(Error::InvalidKeyOrHashFormat)
    } else {
        match tweaked_key(x_only(public_key), tap_tweak_hash(x_only(public_key), merkle_root)) {
            Some(tweaked) => Ok(tweaked),
            None => Err(Error::MalformedControlBlockConstruction),
        }
    }
}

/// The spending condition and control block of a template.
pub open spec fn built_from_template(builder: BuilderModel) -> Result<
    (Seq<u8>, Option<Seq<u8>>),
    Error,
> {
    match builder {
        BuilderModel::P2pkh(target) => match pubkey_hash_of(target) {
            Ok(hash) => Ok((p2pkh_script(hash), None)),
            Err(e) => Err(e),
        },
        BuilderModel::P2wpkh(target) => match witness_pubkey_hash_of(target) {
            Ok(hash) => Ok((p2wpkh_script(hash), None)),
            Err(e) => Err(e),
        },
        BuilderModel::P2trKeyPath(key) => match taproot_output_key(key, None) {
            Ok(tweaked) => Ok((p2tr_script(tweaked.1), None)),
            Err(e) => Err(e),
        },
        BuilderModel::P2trScriptPath { public_key, node_hash } => if node_hash.len() != 32 {
            Err(Error::InvalidKeyOrHashFormat)
        } else {
            match taproot_output_key(public_key, Some(node_hash)) {
                Ok(tweaked) => Ok((p2tr_script(tweaked.1), None)),
                Err(e) => Err(e),
            }
        },
        BuilderModel::Brc20Inscribe { inscribe_to, ticker, transfer_amount } => if !public_key_valid(
            inscribe_to,
        ) || ticker.len() != 4 {
            Err(Error::InvalidKeyOrHashFormat)
        } else {
            let script = transfer_script(x_only(inscribe_to), ticker, transfer_amount);
            match taproot_output_key(inscribe_to, Some(tap_leaf_hash(script))) {
                Ok(tweaked) => Ok(
                    (
                        p2tr_script(tweaked.1),
                        Some(single_leaf_control_block(tweaked.0, x_only(inscribe_to))),
                    ),
                ),
                Err(e) => Err(e),
            }
        },
        BuilderModel::P2sh(_) => Err(Error::UnimplementedTemplate),
        BuilderModel::P2wsh(_) => Err(Error::UnimplementedTemplate),
        BuilderModel::Unset => Err(Error::UnimplementedTemplate),
    }
}

/// The spending condition and control block for a recipient.
pub open spec fn built_for_recipient(recipient: RecipientModel) -> Result<
    (Seq<u8>, Option<Seq<u8>>),
    Error,
> {
    match recipient {
        RecipientModel::ScriptPubkey(script) => Ok((script, None)),
        RecipientModel::Builder(builder) => built_from_template(builder),
        RecipientModel::FromAddress(_) => Err(Error::UnimplementedTemplate),
        RecipientModel::Unset => Err(Error::UnimplementedTemplate),
    }
}

/// The output that is built from a description: its amount, with the
/// spending condition and control block of its recipient.
pub open spec fn built_output(output: OutputModel) -> Result<TxOutModel, Error> {
    match built_for_recipient(output.to_recipient) {
        Ok(built) => Ok(
            TxOutModel { value: output.amount, script_pubkey: built.0, control_block: built.1 },
        ),
        Err(e) => Err(e),
    }
}

/// Whether a tweaked key in bytes is the outcome that a specification gives.
pub open spec fn same_tweaked(res: Result<(bool, Vec<u8>), Error>, model: Result<
    (bool, Seq<u8>),
    Error,
>) -> bool {
    match res {
        Ok(tweaked) => model == Ok::<(bool, Seq<u8>), Error>((tweaked.0, tweaked.1@)),
        Err(e) => model == Err::<(bool, Seq<u8>), Error>(e),
    }
}

/// Whether a script with its control block is the outcome that a
/// specification gives.
pub open spec fn same_built(res: Result<(Vec<u8>, Option<Vec<u8>>), Error>, model: Result<
    (Seq<u8>, Option<Seq<u8>>),
    Error,
>) -> bool {
    match res {
        Ok(built) => model == Ok::<(Seq<u8>, Option<Seq<u8>>), Error>(
            (
                built.0@,
                match built.1 {
                    Some(block) => Some(block@),
                    None => None,
                },
            ),
        ),
        Err(e) => model == Err::<(Seq<u8>, Option<Seq<u8>>), Error>(e),
    }
}

/// Whether an output is the outcome that a specification gives.
pub open spec fn same_output(res: Result<TxOut, Error>, model: Result<TxOutModel, Error>) -> bool {
    match res {
        Ok(out) => model == Ok::<TxOutModel, Error>(out@),
        Err(e) => model == Err::<TxOutModel, Error>(e),
    }
}

/// The hash that a pay-to-public-key-hash script commits to.
pub fn pubkey_hash_from_proto(pubkey_or_hash: &PublicKeyOrHash) -> (res: Result<Vec<u8>, Error>)
    ensures
        same_result(res, pubkey_hash_of(pubkey_or_hash@)),
        res is Ok ==> res->Ok_0@.len() == 20,
{
    match pubkey_or_hash {
        PublicKeyOrHash::Hash(hash) => {
            if hash.len() != 20 {
                return Err(Error::InvalidKeyOrHashFormat);
            }
            Ok(slice_to_vec(hash.as_slice()))
        },
        PublicKeyOrHash::Pubkey(pubkey) => {
            if !is_valid_public_key(pubkey.as_slice()) {
                return Err(Error::InvalidKeyOrHashFormat);
            }
            Ok(hash160_bytes(pubkey.as_slice()))
        },
        PublicKeyOrHash::Unset => Err(Error::UnimplementedTemplate),
    }
}

/// The hash that a version-0 witness program commits to.
pub fn witness_pubkey_hash_from_proto(pubkey_or_hash: &PublicKeyOrHash) -> (res: Result<
    Vec<u8>,
    Error,
>)
    ensures
        same_result(res, witness_pubkey_hash_of(pubkey_or_hash@)),
        res is Ok ==> res->Ok_0@.len() == 20,
{
    match pubkey_or_hash {
        PublicKeyOrHash::Hash(hash) => {
            if hash.len() != 20 {
                return Err(Error::InvalidKeyOrHashFormat);
            }
            Ok(slice_to_vec(hash.as_slice()))
        },
        PublicKeyOrHash::Pubkey(pubkey) => {
            if !is_valid_public_key(pubkey.as_slice()) || pubkey.len() != 33 {
                return Err(Error::InvalidKeyOrHashFormat);
            }
            Ok(hash160_bytes(pubkey.as_slice()))
        },
        PublicKeyOrHash::Unset => Err(Error::UnimplementedTemplate),
    }
}

/// Tweaks the x coordinate of a public key so that it commits to
/// `merkle_root`, or to no script tree.
pub fn tap_tweak(public_key: &[u8], merkle_root: Option<&[u8]>) -> (res: Result<
    (bool, Vec<u8>),
    Error,
>)
    ensures
        same_tweaked(
            res,
            taproot_output_key(
                public_key@,
                match merkle_root {
                    Some(root) => Some(root@),
                    None => None,
                },
            ),
        ),
        res is Ok ==> res->Ok_0.1@.len() == 32,
{
    if !is_valid_public_key(public_key) {
        return Err(Error::InvalidKeyOrHashFormat);
    }
    let internal_key = x_only_bytes(public_key);
    let tweak = tap_tweak_hash_bytes(internal_key.as_slice(), merkle_root);
    match xonly_add_tweak(internal_key.as_slice(), tweak.as_slice()) {
        Some(tweaked) => Ok(tweaked),
        None => Err(Error::MalformedControlBlockConstruction),
    }
}

/// Builds spending conditions.
pub struct OutputBuilder;

impl OutputBuilder {
    /// Builds the spending condition of a transfer inscription, with the
    /// control block of its only leaf.
    pub fn brc20_inscribe(inscribe: &Brc20Inscribe) -> (res: Result<
        (Vec<u8>, Option<Vec<u8>>),
        Error,
    >)
        ensures
            same_built(
                res,
                built_from_template(
                    BuilderModel::Brc20Inscribe {
                        inscribe_to: inscribe.inscribe_to@,
                        ticker: inscribe.ticker@,
                        transfer_amount: inscribe.transfer_amount,
                    },
                ),
            ),
    {
        if !is_valid_public_key(inscribe.inscribe_to.as_slice()) || inscribe.ticker.len()
            != TICKER_LEN {
            return Err(Error::InvalidKeyOrHashFormat);
        }
        let internal_key = x_only_bytes(inscribe.inscribe_to.as_slice());
        let payload = new_transfer_payload(inscribe.ticker.as_slice(), inscribe.transfer_amount);
        let script = new_envelope_script(internal_key.as_slice(), payload.as_slice());
        let merkle_root = tap_leaf_hash_bytes(script.as_slice());
        match tap_tweak(inscribe.inscribe_to.as_slice(), Some(merkle_root.as_slice())) {
            Ok(tweaked) => {
                let control_block = new_single_leaf_control_block(
                    tweaked.0,
                    internal_key.as_slice(),
                );
                Ok((new_v1_p2tr_tweaked(tweaked.1.as_slice()), Some(control_block)))
            },
            Err(e) => Err(e),
        }
    }

    /// Builds the spending condition of a template.
    pub fn script_from_builder(builder: &OutputBuilderVariant) -> (res: Result<
        (Vec<u8>, Option<Vec<u8>>),
        Error,
    >)
        ensures
            same_built(res, built_from_template(builder@)),
    {
        match builder {
            OutputBuilderVariant::P2pkh(pubkey_or_hash) => {
                match pubkey_hash_from_proto(pubkey_or_hash) {
                    Ok(hash) => Ok((new_p2pkh(hash.as_slice()), None)),
                    Err(e) => Err(e),
                }
            },
            OutputBuilderVariant::P2wpkh(pubkey_or_hash) => {
                match witness_pubkey_hash_from_proto(pubkey_or_hash) {
                    Ok(hash) => Ok((new_v0_p2wpkh(hash.as_slice()), None)),
                    Err(e) => Err(e),
                }
            },
            OutputBuilderVariant::P2trKeyPath(pubkey) => {
                match tap_tweak(pubkey.as_slice(), None) {
                    Ok(tweaked) => Ok((new_v1_p2tr_tweaked(tweaked.1.as_slice()), None)),
                    Err(e) => Err(e),
                }
            },
            OutputBuilderVariant::P2trScriptPath(complex) => {
                if complex.node_hash.len() != 32 {
                    return Err(Error::InvalidKeyOrHashFormat);
                }
                match tap_tweak(complex.public_key.as_slice(), Some(complex.node_hash.as_slice())) {
                    Ok(tweaked) => Ok((new_v1_p2tr_tweaked(tweaked.1.as_slice()), None)),
                    Err(e) => Err(e),
                }
            },
            OutputBuilderVariant::Brc20Inscribe(brc20) => Self::brc20_inscribe(brc20),
            OutputBuilderVariant::P2sh(_) => Err(Error::UnimplementedTemplate),
            OutputBuilderVariant::P2wsh(_) => Err(Error::UnimplementedTemplate),
            OutputBuilderVariant::Unset => Err(Error::UnimplementedTemplate),
        }
    }

    /// Creates the spending condition for a given output. A script that was
    /// passed on directly is kept as it is; a template is built; every other
    /// recipient is rejected.
    pub fn utxo_from_proto(output: &Output) -> (res: Result<TxOut, Error>)
        ensures
            same_output(res, built_output(output@)),
    {
        let built = match &output.to_recipient {
            Recipient::ScriptPubkey(script) => Ok((slice_to_vec(script.as_slice()), None)),
            Recipient::Builder(builder) => Self::script_from_builder(builder),
            Recipient::FromAddress(_) => Err(Error::UnimplementedTemplate),
            Recipient::Unset => Err(Error::UnimplementedTemplate),
        };
        match built {
            Ok((script_pubkey, control_block)) => Ok(
                TxOut { value: output.amount, script_pubkey, control_block },
            ),
            Err(e) => Err(e),
        }
    }
}

} // verus!
