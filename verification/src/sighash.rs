//! The signature-hash flag: which parts of a transaction a signature covers.

use vstd::prelude::*;
use crate::error::Error;

verus! {

/// Which outputs a signature commits to.
#[derive(Clone, Copy, Debug, PartialEq, Eq, Structural)]
pub enum SighashBase {
    /// Every output.
    All,
    /// No output.
    NoOutputs,
    /// The one output at the position of the signed input.
    Single,
}

/// The algorithm that turns a transaction and an input into a signing digest.
#[derive(Clone, Copy, Debug, PartialEq, Eq, Structural)]
pub enum SigningScheme {
    /// The scheme of outputs that predate segregated witness.
    Legacy,
    /// The scheme of version-0 witness programs.
    SegwitV0,
    /// The scheme of version-1 witness programs.
    Taproot,
}

/// A base mode together with the modifier that limits the input commitment
/// to the signer's own input.
#[derive(Clone, Copy, Debug, PartialEq, Eq, Structural)]
pub struct SighashType {
    /// Which outputs the signature commits to.
    pub base: SighashBase,
    /// Whether the signature covers the signer's own input only.
    pub anyone_can_pay: bool,
}

/// The flag bit that marks the modifier.
pub const ANYONE_CAN_PAY_FLAG: u32 = 0x80;

/// The number that stands for a base mode in a flag.
pub open spec fn base_code(base: SighashBase) -> u32 {
    match base {
        SighashBase::All => 1,
        SighashBase::NoOutputs => 2,
        SighashBase::Single => 3,
    }
}

/// Whether a flag stands for some base mode and modifier.
pub open spec fn is_flag(flag: u32) -> bool {
    flag == 1 || flag == 2 || flag == 3 || flag == 0x81 || flag == 0x82 || flag == 0x83
}

/// The base mode that a flag names.
pub open spec fn base_of_flag(flag: u32) -> SighashBase {
    if flag == 1 || flag == 0x81 {
        SighashBase::All
    } else if flag == 2 || flag == 0x82 {
        SighashBase::NoOutputs
    } else {
        SighashBase::Single
    }
}

/// What reading a flag gives: the value that the flag stands for, or an
/// error for a number that stands for none.
pub open spec fn decode_flag(flag: u32) -> Result<SighashType, Error> {
    if is_flag(flag) {
        Ok(SighashType { base: base_of_flag(flag), anyone_can_pay: flag >= 0x80 })
    } else {
        Err(Error::UnsupportedSighashCombination)
    }
}

/// Whether a scheme defines a digest for a sighash type. The two older
/// schemes define one for each type; Taproot is covered for `All` and
/// `NoOutputs` without the modifier.
pub open spec fn legal_under(scheme: SigningScheme, ty: SighashType) -> bool {
    match scheme {
        SigningScheme::Legacy => true,
        SigningScheme::SegwitV0 => true,
        SigningScheme::Taproot => !ty.anyone_can_pay && ty.base != SighashBase::Single,
    }
}

impl SighashType {
    /// The flag that stands for this value.
    pub open spec fn flag(self) -> u32 {
        if self.anyone_can_pay {
            (base_code(self.base) + 0x80) as u32
        } else {
            base_code(self.base)
        }
    }

    /// The value with the given base mode and modifier.
    pub fn new(base: SighashBase, anyone_can_pay: bool) -> (ty: SighashType)
        ensures
            ty == (SighashType { base, anyone_can_pay }),
    {
        SighashType { base, anyone_can_pay }
    }

    /// The base mode.
    pub fn base_type(&self) -> (base: SighashBase)
        ensures
            base == self.base,
    {
        self.base
    }

    /// Whether the signature covers the signer's own input only.
    pub fn is_anyone_can_pay(&self) -> (flag: bool)
        ensures
            flag == self.anyone_can_pay,
    {
        self.anyone_can_pay
    }

    /// The flag that stands for this value. Decoding it gives the value back.
    pub fn encode(&self) -> (flag: u32)
        ensures
            flag == self.flag(),
            decode_flag(flag) == Ok::<SighashType, Error>(*self),
    {
        let code: u32 = match self.base {
            SighashBase::All => 1,
            SighashBase::NoOutputs => 2,
            SighashBase::Single => 3,
        };
        if self.anyone_can_pay {
            code + ANYONE_CAN_PAY_FLAG
        } else {
            code
        }
    }

    /// Reads a flag. The six flags that name a base mode, with or without the
    /// modifier bit, are accepted; every other number is rejected.
    pub fn decode(flag: u32) -> (res: Result<SighashType, Error>)
        ensures
            res == decode_flag(flag),
    {
        let anyone_can_pay = flag >= ANYONE_CAN_PAY_FLAG;
        let code: u32 = if anyone_can_pay {
            flag - ANYONE_CAN_PAY_FLAG
        } else {
            flag
        };
        if code == 1 {
            Ok(SighashType { base: SighashBase::All, anyone_can_pay })
        } else if code == 2 {
            Ok(SighashType { base: SighashBase::NoOutputs, anyone_can_pay })
        } else if code == 3 {
            Ok(SighashType { base: SighashBase::Single, anyone_can_pay })
        } else {
            Err(Error::UnsupportedSighashCombination)
        }
    }

    /// Whether `scheme` defines a digest for this value.
    pub fn is_legal_for(&self, scheme: SigningScheme) -> (legal: bool)
        ensures
            legal == legal_under(scheme, *self),
    {
        match scheme {
            SigningScheme::Legacy => true,
            SigningScheme::SegwitV0 => true,
            SigningScheme::Taproot => {
                !self.anyone_can_pay && match self.base {
                    SighashBase::Single => false,
                    _ => true,
                }
            },
        }
    }

    /// Checks this value against `scheme`: an error where the scheme defines
    /// no digest for it.
    pub fn check_legal_for(&self, scheme: SigningScheme) -> (res: Result<(), Error>)
        ensures
            res == (if legal_under(scheme, *self) {
                Ok::<(), Error>(())
            } else {
                Err::<(), Error>(Error::UnsupportedSighashCombination)
            }),
    {
        if self.is_legal_for(scheme) {
            Ok(())
        } else {
            Err(Error::UnsupportedSighashCombination)
        }
    }
}

/// Decoding the flag of a sighash type gives that type back, for each of the
/// six types.
pub proof fn lemma_decode_encode_round_trip(ty: SighashType)
    ensures
        decode_flag(ty.flag()) == Ok::<SighashType, Error>(ty),
{
}

/// A flag that decodes is the flag of the type it decodes to.
pub proof fn lemma_encode_decode_round_trip(flag: u32)
    requires
        decode_flag(flag) is Ok,
    ensures
        decode_flag(flag)->Ok_0.flag() == flag,
{
}

} // verus!
