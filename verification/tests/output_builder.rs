use utxo_engine::error::Error;
use utxo_engine::output_builder::{
    pubkey_hash_from_proto, tap_tweak, witness_pubkey_hash_from_proto, Brc20Inscribe, Output,
    OutputBuilder, OutputBuilderVariant, PublicKeyOrHash, Recipient, TaprootScriptPath,
};

const OB_KEY: &str = "0279be667ef9dcbbac55a06295ce870b07029bfcdb2dce28d959f2815b16f81798";
const OB_KEY_UNCOMPRESSED: &str = "0479be667ef9dcbbac55a06295ce870b07029bfcdb2dce28d959f2815b16f81798483ada7726a3c4655da4fbfc0e1108a8fd17b448a68554199c47d08ffb10d4b8";
const OB_KEY_HASH: &str = "751e76e8199196d454941c45d1b3a323f1433bd6";
const OB_KEY_UNCOMPRESSED_HASH: &str = "91b24bf9f5288532960ac687abb035127b1d28a5";
const OB_OTHER_KEY: &str = "030f209b6ada5edb42c77fd2bc64ad650ae38314c8f451f3e36d80bc8e26f132cb";

fn ob_hex(s: &str) -> Vec<u8> {
    (0..s.len() / 2).map(|i| u8::from_str_radix(&s[2 * i..2 * i + 2], 16).unwrap()).collect()
}

fn ob_build(amount: u64, variant: OutputBuilderVariant) -> Result<utxo_engine::output_builder::TxOut, Error> {
    OutputBuilder::utxo_from_proto(&Output { amount, to_recipient: Recipient::Builder(variant) })
}

fn ob_bitcoin_key(key: &str) -> bitcoin::PublicKey {
    bitcoin::PublicKey::from_slice(&ob_hex(key)).unwrap()
}

#[test]
fn output_raw_script_is_passed_through() {
    let script = ob_hex("6a0b68656c6c6f20776f726c64");
    let out = OutputBuilder::utxo_from_proto(&Output {
        amount: 1234,
        to_recipient: Recipient::ScriptPubkey(script.clone()),
    })
    .unwrap();
    assert_eq!(out.value, 1234);
    assert_eq!(out.script_pubkey, script);
    assert_eq!(out.control_block, None);
    let empty = OutputBuilder::utxo_from_proto(&Output {
        amount: 0,
        to_recipient: Recipient::ScriptPubkey(Vec::new()),
    })
    .unwrap();
    assert_eq!(empty.script_pubkey, Vec::<u8>::new());
}

#[test]
fn output_p2pkh_from_public_key_has_the_known_script() {
    let out = ob_build(
        5000,
        OutputBuilderVariant::P2pkh(PublicKeyOrHash::Pubkey(ob_hex(OB_KEY))),
    )
    .unwrap();
    assert_eq!(out.value, 5000);
    assert_eq!(out.script_pubkey, ob_hex("76a914751e76e8199196d454941c45d1b3a323f1433bd688ac"));
    assert_eq!(out.control_block, None);
    let theirs = bitcoin::ScriptBuf::new_p2pkh(&ob_bitcoin_key(OB_KEY).pubkey_hash());
    assert_eq!(out.script_pubkey, theirs.to_bytes());
}

#[test]
fn output_p2pkh_from_uncompressed_key_hashes_all_65_bytes() {
    let out = ob_build(
        1,
        OutputBuilderVariant::P2pkh(PublicKeyOrHash::Pubkey(ob_hex(OB_KEY_UNCOMPRESSED))),
    )
    .unwrap();
    let theirs =
        bitcoin::ScriptBuf::new_p2pkh(&ob_bitcoin_key(OB_KEY_UNCOMPRESSED).pubkey_hash());
    assert_eq!(out.script_pubkey, theirs.to_bytes());
    assert_eq!(
        out.script_pubkey,
        ob_hex(&format!("76a914{}88ac", OB_KEY_UNCOMPRESSED_HASH))
    );
}

#[test]
fn output_p2pkh_from_hash_has_the_known_script() {
    let out = ob_build(
        5000,
        OutputBuilderVariant::P2pkh(PublicKeyOrHash::Hash(ob_hex(OB_KEY_HASH))),
    )
    .unwrap();
    assert_eq!(out.script_pubkey, ob_hex("76a914751e76e8199196d454941c45d1b3a323f1433bd688ac"));
}

#[test]
fn output_p2wpkh_from_public_key_has_the_known_script() {
    let out = ob_build(
        5000,
        OutputBuilderVariant::P2wpkh(PublicKeyOrHash::Pubkey(ob_hex(OB_KEY))),
    )
    .unwrap();
    assert_eq!(out.script_pubkey, ob_hex("0014751e76e8199196d454941c45d1b3a323f1433bd6"));
    assert_eq!(out.control_block, None);
    let theirs =
        bitcoin::ScriptBuf::new_v0_p2wpkh(&ob_bitcoin_key(OB_KEY).wpubkey_hash().unwrap());
    assert_eq!(out.script_pubkey, theirs.to_bytes());
    let from_hash = ob_build(
        5000,
        OutputBuilderVariant::P2wpkh(PublicKeyOrHash::Hash(ob_hex(OB_KEY_HASH))),
    )
    .unwrap();
    assert_eq!(from_hash.script_pubkey, out.script_pubkey);
}

#[test]
fn output_p2wpkh_rejects_an_uncompressed_key() {
    assert_eq!(
        witness_pubkey_hash_from_proto(&PublicKeyOrHash::Pubkey(ob_hex(OB_KEY_UNCOMPRESSED))),
        Err(Error::InvalidKeyOrHashFormat)
    );
    assert!(pubkey_hash_from_proto(&PublicKeyOrHash::Pubkey(ob_hex(OB_KEY_UNCOMPRESSED))).is_ok());
}

#[test]
fn output_hash_helpers_give_the_hash() {
    assert_eq!(
        pubkey_hash_from_proto(&PublicKeyOrHash::Pubkey(ob_hex(OB_KEY))),
        Ok(ob_hex(OB_KEY_HASH))
    );
    assert_eq!(
        witness_pubkey_hash_from_proto(&PublicKeyOrHash::Pubkey(ob_hex(OB_KEY))),
        Ok(ob_hex(OB_KEY_HASH))
    );
    assert_eq!(
        pubkey_hash_from_proto(&PublicKeyOrHash::Hash(ob_hex(OB_KEY_HASH))),
        Ok(ob_hex(OB_KEY_HASH))
    );
}

#[test]
fn output_rejects_malformed_keys_and_hashes() {
    let mut not_on_curve = ob_hex(OB_KEY);
    not_on_curve[32] ^= 0x01;
    let mut bad_prefix = ob_hex(OB_KEY);
    bad_prefix[0] = 0x05;
    let mut hybrid = ob_hex(OB_KEY_UNCOMPRESSED);
    hybrid[0] = 0x06;
    for key in [Vec::new(), ob_hex(OB_KEY)[..32].to_vec(), ob_hex(OB_KEY_HASH), bad_prefix, hybrid] {
        assert_eq!(
            pubkey_hash_from_proto(&PublicKeyOrHash::Pubkey(key.clone())),
            Err(Error::InvalidKeyOrHashFormat)
        );
        assert_eq!(
            witness_pubkey_hash_from_proto(&PublicKeyOrHash::Pubkey(key.clone())),
            Err(Error::InvalidKeyOrHashFormat)
        );
        assert_eq!(
            ob_build(1, OutputBuilderVariant::P2trKeyPath(key.clone())).unwrap_err(),
            Error::InvalidKeyOrHashFormat
        );
    }
    assert_eq!(
        bitcoin::PublicKey::from_slice(&not_on_curve).is_ok(),
        pubkey_hash_from_proto(&PublicKeyOrHash::Pubkey(not_on_curve)).is_ok()
    );
    for hash in [Vec::new(), vec![0u8; 19], vec![0u8; 21], vec![0u8; 32]] {
        assert_eq!(
            pubkey_hash_from_proto(&PublicKeyOrHash::Hash(hash.clone())),
            Err(Error::InvalidKeyOrHashFormat)
        );
        assert_eq!(
            witness_pubkey_hash_from_proto(&PublicKeyOrHash::Hash(hash)),
            Err(Error::InvalidKeyOrHashFormat)
        );
    }
}

#[test]
fn output_p2tr_key_path_matches_an_independent_tweak() {
    for key in [OB_KEY, OB_OTHER_KEY, OB_KEY_UNCOMPRESSED] {
        let out = ob_build(7, OutputBuilderVariant::P2trKeyPath(ob_hex(key))).unwrap();
        let secp = secp256k1::Secp256k1::new();
        let xonly = secp256k1::XOnlyPublicKey::from(ob_bitcoin_key(key).inner);
        let theirs = bitcoin::ScriptBuf::new_v1_p2tr(&secp, xonly, None);
        assert_eq!(out.script_pubkey, theirs.to_bytes());
        assert_eq!(out.script_pubkey.len(), 34);
        assert_eq!(&out.script_pubkey[..2], &[0x51, 0x20]);
        assert_ne!(&out.script_pubkey[2..], &ob_hex(key)[1..33]);
        assert_eq!(out.control_block, None);
    }
}

#[test]
fn output_p2tr_key_path_of_the_generator_has_the_known_script() {
    let out = ob_build(7, OutputBuilderVariant::P2trKeyPath(ob_hex(OB_KEY))).unwrap();
    assert_eq!(
        out.script_pubkey,
        ob_hex("5120da4710964f7852695de2da025290e24af6d8c281de5a0b902b7135fd9fd74d21")
    );
}

#[test]
fn output_p2tr_script_path_commits_to_the_root() {
    let root = [0x42u8; 32];
    let out = ob_build(
        7,
        OutputBuilderVariant::P2trScriptPath(TaprootScriptPath {
            public_key: ob_hex(OB_KEY),
            node_hash: root.to_vec(),
        }),
    )
    .unwrap();
    let secp = secp256k1::Secp256k1::new();
    let xonly = secp256k1::XOnlyPublicKey::from(ob_bitcoin_key(OB_KEY).inner);
    let node = <bitcoin::taproot::TapNodeHash as bitcoin::hashes::Hash>::from_byte_array(root);
    let theirs = bitcoin::ScriptBuf::new_v1_p2tr(&secp, xonly, Some(node));
    assert_eq!(out.script_pubkey, theirs.to_bytes());
    assert_eq!(out.control_block, None);
    let key_path = ob_build(7, OutputBuilderVariant::P2trKeyPath(ob_hex(OB_KEY))).unwrap();
    assert_ne!(out.script_pubkey, key_path.script_pubkey);
}

#[test]
fn output_p2tr_script_path_rejects_a_root_of_the_wrong_length() {
    for len in [0usize, 20, 31, 33] {
        let res = ob_build(
            7,
            OutputBuilderVariant::P2trScriptPath(TaprootScriptPath {
                public_key: ob_hex(OB_KEY),
                node_hash: vec![1u8; len],
            }),
        );
        assert_eq!(res.unwrap_err(), Error::InvalidKeyOrHashFormat);
    }
    let res = ob_build(
        7,
        OutputBuilderVariant::P2trScriptPath(TaprootScriptPath {
            public_key: ob_hex(OB_KEY_HASH),
            node_hash: vec![1u8; 32],
        }),
    );
    assert_eq!(res.unwrap_err(), Error::InvalidKeyOrHashFormat);
}

#[test]
fn output_tap_tweak_gives_key_and_parity() {
    for key in [OB_KEY, OB_OTHER_KEY] {
        let (odd, tweaked) = tap_tweak(&ob_hex(key), None).unwrap();
        let secp = secp256k1::Secp256k1::new();
        let xonly = secp256k1::XOnlyPublicKey::from(ob_bitcoin_key(key).inner);
        let (theirs, parity) = bitcoin::key::TapTweak::tap_tweak(xonly, &secp, None);
        assert_eq!(tweaked, theirs.to_inner().serialize().to_vec());
        assert_eq!(odd, parity == secp256k1::Parity::Odd);
    }
}

#[test]
fn output_unfinished_templates_are_rejected() {
    for variant in [
        OutputBuilderVariant::P2sh(vec![1, 2, 3]),
        OutputBuilderVariant::P2wsh(vec![1, 2, 3]),
        OutputBuilderVariant::Unset,
        OutputBuilderVariant::P2pkh(PublicKeyOrHash::Unset),
        OutputBuilderVariant::P2wpkh(PublicKeyOrHash::Unset),
    ] {
        assert_eq!(ob_build(1, variant).unwrap_err(), Error::UnimplementedTemplate);
    }
    for recipient in [Recipient::FromAddress(b"bc1qw508d6qejxtdg4y5r3zarvary0c5xw7kv8f3t4".to_vec()), Recipient::Unset] {
        let res = OutputBuilder::utxo_from_proto(&Output { amount: 1, to_recipient: recipient });
        assert_eq!(res.unwrap_err(), Error::UnimplementedTemplate);
    }
}

fn ob_bitcoin_inscription(key: &str, payload: &[u8]) -> (Vec<u8>, Vec<u8>, Vec<u8>) {
    let secp = secp256k1::Secp256k1::new();
    let xonly = secp256k1::XOnlyPublicKey::from(ob_bitcoin_key(key).inner);
    let mut data = bitcoin::script::PushBytesBuf::new();
    data.extend_from_slice(payload).unwrap();
    let script = bitcoin::script::Builder::new()
        .push_slice(xonly.serialize())
        .push_opcode(bitcoin::opcodes::all::OP_CHECKSIG)
        .push_opcode(bitcoin::opcodes::OP_FALSE)
        .push_opcode(bitcoin::opcodes::all::OP_IF)
        .push_slice(b"ord")
        .push_opcode(bitcoin::opcodes::all::OP_PUSHBYTES_1)
        .push_opcode(bitcoin::opcodes::all::OP_PUSHBYTES_1)
        .push_slice(b"text/plain;charset=utf-8")
        .push_opcode(bitcoin::opcodes::all::OP_PUSHBYTES_0)
        .push_slice(data)
        .push_opcode(bitcoin::opcodes::all::OP_ENDIF)
        .into_script();
    let info = bitcoin::taproot::TaprootBuilder::new()
        .add_leaf(0, script.clone())
        .unwrap()
        .finalize(&secp, xonly)
        .unwrap();
    let block = info
        .control_block(&(script.clone(), bitcoin::taproot::LeafVersion::TapScript))
        .unwrap()
        .serialize();
    let spk = bitcoin::ScriptBuf::new_v1_p2tr(&secp, xonly, info.merkle_root());
    (script.to_bytes(), spk.to_bytes(), block)
}

#[test]
fn output_brc20_matches_the_tree_of_the_bitcoin_crate() {
    for key in [OB_KEY, OB_OTHER_KEY] {
        let out = ob_build(
            546,
            OutputBuilderVariant::Brc20Inscribe(Brc20Inscribe {
                inscribe_to: ob_hex(key),
                ticker: b"oadf".to_vec(),
                transfer_amount: 20,
            }),
        )
        .unwrap();
        let payload = br#"{"p":"brc-20","op":"transfer","tick":"oadf","amt":"20"}"#;
        let (_, spk, block) = ob_bitcoin_inscription(key, payload);
        assert_eq!(out.value, 546);
        assert_eq!(out.script_pubkey, spk);
        assert_eq!(out.control_block, Some(block));
    }
}

#[test]
fn output_brc20_control_block_names_the_internal_key() {
    let out = ob_build(
        546,
        OutputBuilderVariant::Brc20Inscribe(Brc20Inscribe {
            inscribe_to: ob_hex(OB_OTHER_KEY),
            ticker: b"oadf".to_vec(),
            transfer_amount: 20,
        }),
    )
    .unwrap();
    let block = out.control_block.unwrap();
    assert_eq!(block.len(), 33);
    assert!(block[0] == 0xc0 || block[0] == 0xc1);
    assert_eq!(&block[1..], &ob_hex(OB_OTHER_KEY)[1..]);
}

#[test]
fn output_brc20_rejects_bad_ticker_and_key() {
    for ticker in [&b""[..], &b"abc"[..], &b"abcde"[..]] {
        let res = ob_build(
            546,
            OutputBuilderVariant::Brc20Inscribe(Brc20Inscribe {
                inscribe_to: ob_hex(OB_KEY),
                ticker: ticker.to_vec(),
                transfer_amount: 20,
            }),
        );
        assert_eq!(res.unwrap_err(), Error::InvalidKeyOrHashFormat);
    }
    let res = ob_build(
        546,
        OutputBuilderVariant::Brc20Inscribe(Brc20Inscribe {
            inscribe_to: ob_hex(OB_KEY_HASH),
            ticker: b"oadf".to_vec(),
            transfer_amount: 20,
        }),
    );
    assert_eq!(res.unwrap_err(), Error::InvalidKeyOrHashFormat);
}
