use utxo_engine::brc20::{new_envelope_script, new_transfer_payload};
use utxo_engine::encode::Stream;
use utxo_engine::hashing::{sha256d_bytes, tagged_hash_bytes, Hasher};
use utxo_engine::keys::x_only_bytes;
use utxo_engine::script::{
    append_push_bytes, new_p2pkh, new_single_leaf_control_block, new_v0_p2wpkh,
    new_v1_p2tr_tweaked, tap_leaf_hash_bytes, tap_tweak_hash_bytes,
};

fn tp_hex(s: &str) -> Vec<u8> {
    (0..s.len() / 2).map(|i| u8::from_str_radix(&s[2 * i..2 * i + 2], 16).unwrap()).collect()
}

#[test]
fn stream_encodes_integers_least_significant_byte_first() {
    let mut s = Stream::new();
    s.append_u8(0xab);
    s.append_u16(0x1234);
    s.append_u32(0x89ab_cdef);
    s.append_u64(0x0102_0304_0506_0708);
    assert_eq!(s.out(), tp_hex("ab3412efcdab890807060504030201"));
}

#[test]
fn stream_encodes_counts_in_their_shortest_form() {
    let cases: [(u64, &str); 9] = [
        (0, "00"),
        (252, "fc"),
        (253, "fdfd00"),
        (0xffff, "fdffff"),
        (0x1_0000, "fe00000100"),
        (0xffff_ffff, "feffffffff"),
        (0x1_0000_0000, "ff0000000001000000"),
        (u64::MAX, "ffffffffffffffffff"),
        (515, "fd0302"),
    ];
    for (n, expected) in cases {
        let mut s = Stream::new();
        s.append_compact_size(n);
        assert_eq!(s.out(), tp_hex(expected));
    }
}

#[test]
fn stream_writes_byte_strings_behind_their_length() {
    let mut s = Stream::new();
    s.append_var_bytes(&[]);
    s.append_var_bytes(&[1, 2, 3]);
    s.append_raw_slice(&[9, 9]);
    assert_eq!(s.out(), tp_hex("00030102030909"));
    let long = vec![7u8; 300];
    let mut s = Stream::new();
    s.append_var_bytes(&long);
    let out = s.out();
    assert_eq!(&out[..3], &[0xfd, 0x2c, 0x01]);
    assert_eq!(&out[3..], &long[..]);
}

#[test]
fn hasher_gives_the_known_digests() {
    assert_eq!(
        Hasher::Sha256.hash(b"abc"),
        tp_hex("ba7816bf8f01cfea414140de5dae2223b00361a396177a9cb410ff61f20015ad")
    );
    assert_eq!(
        Hasher::Sha256.hash(b""),
        tp_hex("e3b0c44298fc1c149afbf4c8996fb92427ae41e4649b934ca495991b7852b855")
    );
    assert_eq!(
        Hasher::Sha256d.hash(b"abc"),
        tp_hex("4f8b42c22dd3729b519ba6f68d2da7cc5b2d606d05daed5ad5128cc03e6c6358")
    );
    assert_eq!(sha256d_bytes(b"abc"), Hasher::Sha256d.hash(b"abc"));
}

#[test]
fn tagged_hash_matches_the_bitcoin_crate() {
    let msg = b"some message";
    let ours = tagged_hash_bytes(b"TapLeaf", msg);
    let theirs = <bitcoin::taproot::TapLeafHash as bitcoin::hashes::Hash>::hash(msg);
    assert_eq!(ours, <bitcoin::taproot::TapLeafHash as bitcoin::hashes::Hash>::to_byte_array(theirs).to_vec());
    let ours = tagged_hash_bytes(b"TapSighash", msg);
    let theirs = <bitcoin::sighash::TapSighash as bitcoin::hashes::Hash>::hash(msg);
    assert_eq!(ours, <bitcoin::sighash::TapSighash as bitcoin::hashes::Hash>::to_byte_array(theirs).to_vec());
}

#[test]
fn push_uses_the_shortest_length_marker() {
    for len in [0usize, 1, 75, 76, 255, 256, 65535, 65536] {
        let data = vec![0x5au8; len];
        let mut s = Stream::new();
        append_push_bytes(&mut s, &data);
        let mut buf = bitcoin::script::PushBytesBuf::new();
        buf.extend_from_slice(&data).unwrap();
        let theirs = bitcoin::script::Builder::new().push_slice(buf).into_script();
        assert_eq!(s.out(), theirs.to_bytes());
    }
    let mut s = Stream::new();
    append_push_bytes(&mut s, &[1]);
    assert_eq!(s.out(), vec![0x01, 0x01]);
    let mut s = Stream::new();
    append_push_bytes(&mut s, &vec![3u8; 76]);
    assert_eq!(&s.out()[..3], &[0x4c, 76, 3]);
    let mut s = Stream::new();
    append_push_bytes(&mut s, &vec![3u8; 256]);
    assert_eq!(&s.out()[..4], &[0x4d, 0x00, 0x01, 3]);
    let mut s = Stream::new();
    append_push_bytes(&mut s, &vec![3u8; 65536]);
    assert_eq!(&s.out()[..6], &[0x4e, 0x00, 0x00, 0x01, 0x00, 3]);
}

#[test]
fn templates_have_their_fixed_layout() {
    let hash = tp_hex("751e76e8199196d454941c45d1b3a323f1433bd6");
    assert_eq!(new_p2pkh(&hash), tp_hex("76a914751e76e8199196d454941c45d1b3a323f1433bd688ac"));
    assert_eq!(new_v0_p2wpkh(&hash), tp_hex("0014751e76e8199196d454941c45d1b3a323f1433bd6"));
    let key = [0x11u8; 32];
    let mut expected = vec![0x51, 0x20];
    expected.extend_from_slice(&key);
    assert_eq!(new_v1_p2tr_tweaked(&key), expected);
}

#[test]
fn x_only_key_is_the_x_coordinate() {
    for key in [
        "0279be667ef9dcbbac55a06295ce870b07029bfcdb2dce28d959f2815b16f81798",
        "030f209b6ada5edb42c77fd2bc64ad650ae38314c8f451f3e36d80bc8e26f132cb",
        "0479be667ef9dcbbac55a06295ce870b07029bfcdb2dce28d959f2815b16f81798483ada7726a3c4655da4fbfc0e1108a8fd17b448a68554199c47d08ffb10d4b8",
    ] {
        let bytes = tp_hex(key);
        let theirs = bitcoin::PublicKey::from_slice(&bytes).unwrap();
        let xonly = secp256k1::XOnlyPublicKey::from(theirs.inner);
        assert_eq!(x_only_bytes(&bytes), xonly.serialize().to_vec());
        assert_eq!(theirs.to_bytes(), bytes);
    }
}

#[test]
fn tap_hashes_match_the_bitcoin_crate() {
    let key = tp_hex("79be667ef9dcbbac55a06295ce870b07029bfcdb2dce28d959f2815b16f81798");
    let xonly = secp256k1::XOnlyPublicKey::from_slice(&key).unwrap();
    let root = [0x42u8; 32];
    let node = <bitcoin::taproot::TapNodeHash as bitcoin::hashes::Hash>::from_byte_array(root);
    let without = bitcoin::taproot::TapTweakHash::from_key_and_tweak(xonly, None);
    let with = bitcoin::taproot::TapTweakHash::from_key_and_tweak(xonly, Some(node));
    assert_eq!(
        tap_tweak_hash_bytes(&key, None),
        <bitcoin::taproot::TapTweakHash as bitcoin::hashes::Hash>::to_byte_array(without).to_vec()
    );
    assert_eq!(
        tap_tweak_hash_bytes(&key, Some(&root)),
        <bitcoin::taproot::TapTweakHash as bitcoin::hashes::Hash>::to_byte_array(with).to_vec()
    );
    for len in [0usize, 1, 100, 252, 253, 300] {
        let script = bitcoin::ScriptBuf::from_bytes(vec![0x51u8; len]);
        let leaf = bitcoin::taproot::TapLeafHash::from_script(
            &script,
            bitcoin::taproot::LeafVersion::TapScript,
        );
        assert_eq!(
            tap_leaf_hash_bytes(script.as_bytes()),
            <bitcoin::taproot::TapLeafHash as bitcoin::hashes::Hash>::to_byte_array(leaf).to_vec()
        );
    }
}

#[test]
fn control_block_carries_parity_and_key() {
    let key = [0x33u8; 32];
    let even = new_single_leaf_control_block(false, &key);
    let odd = new_single_leaf_control_block(true, &key);
    assert_eq!(even[0], 0xc0);
    assert_eq!(odd[0], 0xc1);
    assert_eq!(&even[1..], &key);
    assert_eq!(&odd[1..], &key);
}

#[test]
fn transfer_payload_is_the_known_record() {
    assert_eq!(
        new_transfer_payload(b"oadf", 20),
        br#"{"p":"brc-20","op":"transfer","tick":"oadf","amt":"20"}"#.to_vec()
    );
    assert_eq!(
        new_transfer_payload(b"ordi", 0),
        br#"{"p":"brc-20","op":"transfer","tick":"ordi","amt":"0"}"#.to_vec()
    );
    assert_eq!(
        new_transfer_payload(b"sats", u64::MAX),
        br#"{"p":"brc-20","op":"transfer","tick":"sats","amt":"18446744073709551615"}"#.to_vec()
    );
    assert_eq!(
        new_transfer_payload(b"a\"\\\n", 1009),
        br#"{"p":"brc-20","op":"transfer","tick":"a\"\\\n","amt":"1009"}"#.to_vec()
    );
    assert_eq!(
        new_transfer_payload(&[0x08, 0x0c, 0x1f, 0x7f], 10),
        b"{\"p\":\"brc-20\",\"op\":\"transfer\",\"tick\":\"\\b\\f\\u001f\x7f\",\"amt\":\"10\"}".to_vec()
    );
    assert_eq!(
        new_transfer_payload(&[0x09, 0x0d, 0x00, 0x1a], 10),
        b"{\"p\":\"brc-20\",\"op\":\"transfer\",\"tick\":\"\\t\\r\\u0000\\u001a\",\"amt\":\"10\"}".to_vec()
    );
}

#[test]
fn envelope_script_is_the_known_script() {
    let key = tp_hex("e8b706a97732e705e22ae7710703e7f589ed13c636324461afa443016134cc05");
    let payload = new_transfer_payload(b"oadf", 20);
    assert_eq!(
        new_envelope_script(&key, &payload),
        tp_hex("20e8b706a97732e705e22ae7710703e7f589ed13c636324461afa443016134cc05ac0063036f7264010118746578742f706c61696e3b636861727365743d7574662d3800377b2270223a226272632d3230222c226f70223a227472616e73666572222c227469636b223a226f616466222c22616d74223a223230227d68")
    );
}
