use cita_ed25519::{pubkey_to_address, CodecError, Error, KeyPair, Message, PrivKey, Signature};

const MESSAGE: [u8; 32] = [
    0x01, 0x02, 0x03, 0x04, 0x19, 0xab, 0xfe, 0x39, 0x6f, 0x28, 0x79, 0x00, 0x08, 0xdf, 0x9a, 0xef,
    0xfb, 0x77, 0x42, 0xae, 0xad, 0xfc, 0xcf, 0x12, 0x24, 0x45, 0x29, 0x89, 0x29, 0x45, 0x3f, 0xf8,
];

fn from_hex(s: &str) -> Vec<u8> {
    (0..s.len())
        .step_by(2)
        .map(|i| u8::from_str_radix(&s[i..i + 2], 16).unwrap())
        .collect()
}

/// A fixed key pair: seed of sevens, with the public key derived from it.
fn fixed_privkey() -> PrivKey {
    let pk = from_hex("ea4a6c63e29c520abef5507b132ec5f9954776aebebe7b92421eea691446d22c");
    let mut sk = [7u8; 64];
    sk[32..].copy_from_slice(&pk);
    sk
}

fn fixed_message() -> Message {
    let mut m = [0u8; 32];
    m[31] = 0x01;
    m
}

#[test]
fn test_sign_verify() {
    let keypair = KeyPair::gen_keypair();
    let msg: Message = MESSAGE;
    let sig = Signature::sign(keypair.privkey(), &msg).unwrap();
    assert!(sig.verify_public(keypair.pubkey(), &msg).unwrap());
}

#[test]
fn test_verify_address() {
    let keypair = KeyPair::gen_keypair();
    let address = pubkey_to_address(keypair.pubkey());
    let msg: Message = MESSAGE;
    let sig = Signature::sign(keypair.privkey(), &msg).unwrap();
    assert!(sig.verify_address(&address, &msg).unwrap());
}

#[test]
fn test_recover() {
    let keypair = KeyPair::gen_keypair();
    let msg: Message = MESSAGE;
    let sig = Signature::sign(keypair.privkey(), &msg).unwrap();
    assert_eq!(keypair.pubkey(), &sig.recover(&msg).unwrap());
}

#[test]
fn test_into_slice() {
    let keypair = KeyPair::gen_keypair();
    let msg: Message = MESSAGE;
    let sig = Signature::sign(keypair.privkey(), &msg).unwrap();
    let sig = &sig;
    let slice: &[u8] = sig.as_slice();
    assert!(Signature::from_slice(slice) == *sig);
}

#[test]
fn test_de_serialize() {
    let keypair = KeyPair::gen_keypair();
    let msg: Message = MESSAGE;
    let sig = Signature::sign(keypair.privkey(), &msg).unwrap();
    let se_result = bincode::serialize(&sig.to_elements()).unwrap();
    let elems: Vec<u8> = bincode::deserialize(&se_result).unwrap();
    let de_result = Signature::from_elements(&elems).unwrap();
    assert!(sig == de_result);
}

#[test]
fn sign_matches_known_vector() {
    let sk = fixed_privkey();
    let sig = Signature::sign(&sk, &fixed_message()).unwrap();
    assert_eq!(
        sig.sig(),
        &from_hex(
            "d128aec95b21e1bf3f92c940625086b9cfe92bfc9a08712d83734b9c20a285cb\
             647185bf2a6b2b8211db1b6c29e0a3f7a17239601db731c374b5dc4fbf4eaf0c"
        )[..]
    );
    assert_eq!(sig.pk(), &sk[32..]);
    assert_eq!(sig.verify_public(&sig.pk().try_into().unwrap(), &fixed_message()), Ok(true));
}

#[test]
fn address_is_tail_of_blake2b_digest() {
    let pk: [u8; 32] = from_hex("ea4a6c63e29c520abef5507b132ec5f9954776aebebe7b92421eea691446d22c")
        .try_into()
        .unwrap();
    let addr = pubkey_to_address(&pk);
    assert_eq!(&addr[..], &from_hex("c5e38c003b66b889f5c80032fb81ebc3f44f45a3")[..]);
    let kp = KeyPair::from_privkey(fixed_privkey()).unwrap();
    assert_eq!(kp.address(), addr);
}

#[test]
fn from_privkey_reads_public_half() {
    let generated = KeyPair::gen_keypair();
    let rebuilt = KeyPair::from_privkey(*generated.privkey()).unwrap();
    assert_eq!(rebuilt.pubkey(), generated.pubkey());
    assert_eq!(&rebuilt.pubkey()[..], &generated.privkey()[32..]);
}

#[test]
fn sign_is_deterministic() {
    let kp = KeyPair::gen_keypair();
    let a = Signature::sign(kp.privkey(), &MESSAGE).unwrap();
    let b = Signature::sign(kp.privkey(), &MESSAGE).unwrap();
    assert!(a == b);
}

#[test]
fn scenario_sign_and_check_keys() {
    let k = KeyPair::gen_keypair();
    let m = fixed_message();
    let s = Signature::sign(k.privkey(), &m).unwrap();
    assert_eq!(s.sig().len(), 64);
    assert_eq!(s.pk(), &k.pubkey()[..]);
    assert_eq!(s.verify_public(k.pubkey(), &m), Ok(true));
    let other = KeyPair::gen_keypair();
    assert_eq!(s.verify_public(other.pubkey(), &m), Err(Error::InvalidPubKey));
}

#[test]
fn flipped_signature_bits_are_rejected() {
    let k = KeyPair::gen_keypair();
    let s = Signature::sign(k.privkey(), &MESSAGE).unwrap();
    for bit in [0usize, 7, 100, 255, 300, 511] {
        let mut bytes = s.clone().into_bytes();
        bytes[bit / 8] ^= 1 << (bit % 8);
        let t = Signature::from(bytes);
        assert_eq!(t.verify_public(k.pubkey(), &MESSAGE), Err(Error::InvalidSignature));
        assert_eq!(t.recover(&MESSAGE), Err(Error::InvalidSignature));
        assert_eq!(t.verify_address(&k.address(), &MESSAGE), Err(Error::InvalidSignature));
    }
}

#[test]
fn flipped_message_bits_are_rejected() {
    let k = KeyPair::gen_keypair();
    let s = Signature::sign(k.privkey(), &MESSAGE).unwrap();
    for bit in [0usize, 9, 128, 255] {
        let mut m = MESSAGE;
        m[bit / 8] ^= 1 << (bit % 8);
        assert_eq!(s.verify_public(k.pubkey(), &m), Err(Error::InvalidSignature));
    }
}

#[test]
fn wrong_address_is_false_not_error() {
    let k = KeyPair::gen_keypair();
    let s = Signature::sign(k.privkey(), &MESSAGE).unwrap();
    let mut addr = k.address();
    addr[0] ^= 0xff;
    assert_eq!(s.verify_address(&addr, &MESSAGE), Ok(false));
}

#[test]
fn mismatched_key_is_rejected_even_for_garbage() {
    let s = Signature::from([0u8; 96]);
    assert_eq!(s.verify_public(&[1u8; 32], &MESSAGE), Err(Error::InvalidPubKey));
    assert_eq!(s.verify_public(&[0u8; 32], &MESSAGE), Err(Error::InvalidSignature));
}

#[test]
fn rlp_encoding_is_one_byte_string() {
    let mut raw = [0u8; 96];
    for (i, b) in raw.iter_mut().enumerate() {
        *b = i as u8;
    }
    let s = Signature::from(raw);
    let enc = s.rlp_encode();
    assert_eq!(enc.len(), 98);
    assert_eq!(&enc[..2], &[0xb8, 0x60]);
    assert_eq!(&enc[2..], &raw[..]);
    assert!(Signature::rlp_decode(&enc).unwrap() == s);
}

#[test]
fn rlp_round_trip_of_signed_value() {
    let k = KeyPair::gen_keypair();
    let s = Signature::sign(k.privkey(), &MESSAGE).unwrap();
    assert!(Signature::rlp_decode(&s.rlp_encode()).unwrap() == s);
}

#[test]
fn rlp_decode_rejects_other_lengths() {
    let mut enc = vec![0xb8u8, 97];
    enc.extend(std::iter::repeat(5u8).take(97));
    assert_eq!(Signature::rlp_decode(&enc), Err(CodecError::InvalidLength(97)));
    assert_eq!(Signature::rlp_decode(&[]), Err(CodecError::Malformed));
    assert_eq!(Signature::rlp_decode(&[0xb8, 0x60, 1, 2]), Err(CodecError::Malformed));
    assert_eq!(Signature::from_rlp_payload(&[1u8; 95]), Err(CodecError::InvalidLength(95)));
}

#[test]
fn element_decoding_rejects_other_lengths() {
    assert_eq!(Signature::from_elements(&[3u8; 95]), Err(CodecError::LengthMismatch(95)));
    assert_eq!(Signature::from_elements(&[]), Err(CodecError::LengthMismatch(0)));
    assert_eq!(Signature::from_elements(&[3u8; 97]), Err(CodecError::LengthMismatch(96)));
    let s = Signature::from_elements(&[3u8; 96]).unwrap();
    assert_eq!(s.to_elements(), vec![3u8; 96]);
}

#[test]
fn hex_renderings() {
    let mut raw = [0u8; 96];
    raw[0] = 0xab;
    raw[63] = 0x0f;
    raw[64] = 0x10;
    raw[95] = 0xff;
    let s = Signature::from(raw);
    let full = s.to_hex_string();
    assert_eq!(full.len(), 192);
    assert!(full.starts_with("ab00"));
    assert!(full.ends_with("00ff"));
    assert_eq!(&full[126..130], "0f10");
    assert_eq!(s.sig_hex(), full[..128].to_string());
    assert_eq!(s.pk_hex(), full[128..].to_string());
}

#[test]
fn default_is_all_zero_and_equality_is_bytewise() {
    let d = Signature::default();
    assert_eq!(d.as_bytes(), &[0u8; 96]);
    let mut raw = [0u8; 96];
    raw[95] = 1;
    assert!(Signature::from(raw) != d);
    assert!(d.clone() == d);
    assert_eq!(Error::InvalidSignature.description(), "invalid signature");
}
