use utxo_engine::error::Error;
use utxo_engine::sighash::{SighashBase, SighashType, SigningScheme};

#[test]
fn sighash_type_round_trips_through_its_flag() {
    for base in [SighashBase::All, SighashBase::NoOutputs, SighashBase::Single] {
        for acp in [false, true] {
            let ty = SighashType::new(base, acp);
            assert_eq!(SighashType::decode(ty.encode()), Ok(ty));
            assert_eq!(ty.base_type(), base);
            assert_eq!(ty.is_anyone_can_pay(), acp);
        }
    }
}

#[test]
fn sighash_type_flags_have_their_known_values() {
    assert_eq!(SighashType::new(SighashBase::All, false).encode(), 0x01);
    assert_eq!(SighashType::new(SighashBase::NoOutputs, false).encode(), 0x02);
    assert_eq!(SighashType::new(SighashBase::Single, false).encode(), 0x03);
    assert_eq!(SighashType::new(SighashBase::All, true).encode(), 0x81);
    assert_eq!(SighashType::new(SighashBase::NoOutputs, true).encode(), 0x82);
    assert_eq!(SighashType::new(SighashBase::Single, true).encode(), 0x83);
}

#[test]
fn sighash_type_flag_round_trips_through_its_value() {
    for flag in [0x01u32, 0x02, 0x03, 0x81, 0x82, 0x83] {
        assert_eq!(SighashType::decode(flag).unwrap().encode(), flag);
    }
}

#[test]
fn sighash_type_rejects_other_flags() {
    for flag in [0x00u32, 0x04, 0x1f, 0x80, 0x84, 0xff, 0x100, 0x101, 0x181, u32::MAX] {
        assert_eq!(SighashType::decode(flag), Err(Error::UnsupportedSighashCombination));
    }
}

#[test]
fn sighash_type_legality_depends_on_the_scheme() {
    for base in [SighashBase::All, SighashBase::NoOutputs, SighashBase::Single] {
        for acp in [false, true] {
            let ty = SighashType::new(base, acp);
            assert!(ty.is_legal_for(SigningScheme::Legacy));
            assert!(ty.is_legal_for(SigningScheme::SegwitV0));
            assert_eq!(ty.check_legal_for(SigningScheme::Legacy), Ok(()));
            let covered = !acp && base != SighashBase::Single;
            assert_eq!(ty.is_legal_for(SigningScheme::Taproot), covered);
            assert_eq!(
                ty.check_legal_for(SigningScheme::Taproot),
                if covered { Ok(()) } else { Err(Error::UnsupportedSighashCombination) }
            );
        }
    }
}
