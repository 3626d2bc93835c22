use rand::rngs::StdRng;
use rand::SeedableRng;
use sha3::Digest;
use sui_admission::base_types::SuiAddress;
use sui_admission::crypto::{
    get_key_pair_from_bytes, random_key_pair_by_type_from_rng, Ed25519SuiSignature, PublicKey, Secp256k1SuiSignature,
    Signature, SuiKeyPair,
};
use sui_admission::derivation::{derive_key_pair_from_path, validate_path, DerivationPath};
use sui_admission::encoding::{sha3_hash, Foo};
use sui_admission::error::SuiError;
use sui_admission::obligation::VerificationObligation;
use sui_admission::scheme::SignatureScheme;

fn key_pair(scheme: SignatureScheme, seed: u64) -> (SuiAddress, SuiKeyPair) {
    let mut rng = StdRng::seed_from_u64(seed);
    random_key_pair_by_type_from_rng(scheme, &mut rng).unwrap()
}

fn message(text: &str) -> Foo {
    Foo(text.to_string())
}

#[test]
fn scheme_flags() {
    assert_eq!(SignatureScheme::ED25519.flag(), 0x00);
    assert_eq!(SignatureScheme::Secp256k1.flag(), 0x01);
    assert_eq!(SignatureScheme::BLS12381.flag(), 0xff);
    assert_eq!(SignatureScheme::from_flag("0"), Ok(SignatureScheme::ED25519));
    assert_eq!(SignatureScheme::from_flag("1"), Ok(SignatureScheme::Secp256k1));
    assert_eq!(SignatureScheme::from_flag("+1"), Ok(SignatureScheme::Secp256k1));
    assert_eq!(SignatureScheme::from_flag("2"), Err(SuiError::KeyConversionError));
    assert_eq!(SignatureScheme::from_flag("255"), Err(SuiError::KeyConversionError));
    assert_eq!(SignatureScheme::from_flag("x"), Err(SuiError::KeyConversionError));
    assert_eq!(SignatureScheme::from_flag(""), Err(SuiError::KeyConversionError));
}

#[test]
fn scheme_names() {
    for s in [SignatureScheme::ED25519, SignatureScheme::Secp256k1, SignatureScheme::BLS12381] {
        assert_eq!(SignatureScheme::from_str(&s.to_string()), Ok(s));
    }
    assert_eq!(SignatureScheme::Secp256k1.to_string(), "secp256k1");
    assert_eq!(SignatureScheme::from_str("rsa"), Err(SuiError::KeyConversionError));
}

#[test]
fn public_key_round_trip() {
    for (scheme, len) in [(SignatureScheme::ED25519, 32), (SignatureScheme::Secp256k1, 33)] {
        let (_, kp) = key_pair(scheme, 1);
        let pk = kp.public();
        let bytes = pk.encode();
        assert_eq!(bytes.len(), 1 + len);
        assert_eq!(bytes[0], scheme.flag());
        assert!(PublicKey::decode(&bytes).unwrap() == pk);
        assert!(PublicKey::decode_base64(&pk.encode_base64()).unwrap() == pk);
        assert!(PublicKey::try_from_bytes(scheme, &pk.as_bytes()).unwrap() == pk);
    }
}

#[test]
fn public_key_decoding_errors() {
    let (_, kp) = key_pair(SignatureScheme::ED25519, 2);
    let bytes = kp.public().encode();
    assert!(matches!(PublicKey::decode(&[]), Err(SuiError::InvalidDecoding)));
    assert!(matches!(PublicKey::decode(&bytes[..20]), Err(SuiError::InvalidDecoding)));
    let mut other = bytes.clone();
    other[0] = 0x05;
    assert!(matches!(PublicKey::decode(&other), Err(SuiError::UnsupportedScheme)));
    assert!(matches!(PublicKey::try_from_bytes(SignatureScheme::BLS12381, &bytes[1..]), Err(SuiError::UnsupportedScheme)));
    assert!(matches!(PublicKey::decode_base64("!!"), Err(SuiError::InvalidDecoding)));
}

#[test]
fn address_is_digest_of_flag_and_key() {
    for scheme in [SignatureScheme::ED25519, SignatureScheme::Secp256k1] {
        let (address, kp) = key_pair(scheme, 3);
        let digest = sha3::Sha3_256::digest(kp.public().encode());
        assert_eq!(address.0[..], digest[..20]);
        assert_eq!(SuiAddress::from_public_key(&kp.public()), address);
    }
}

#[test]
fn sha3_of_known_input() {
    let h = sha3_hash(&b"abc".to_vec());
    assert_eq!(
        h.to_vec(),
        vec![
            0x3a, 0x98, 0x5d, 0xa7, 0x4f, 0xe2, 0x25, 0xb2, 0x04, 0x5c, 0x17, 0x2d, 0x6b, 0xd3, 0x90, 0xbd, 0x85, 0x5f,
            0x08, 0x6e, 0x3e, 0x9d, 0x52, 0x5b, 0x46, 0xbf, 0xe2, 0x45, 0x11, 0x43, 0x15, 0x32
        ]
    );
}

#[test]
fn signatures_verify_and_round_trip() {
    for (scheme, len) in [(SignatureScheme::ED25519, 97), (SignatureScheme::Secp256k1, 98)] {
        let (address, kp) = key_pair(scheme, 4);
        let msg = message("pay");
        let sig = Signature::new(&msg, &kp);
        assert_eq!(sig.scheme(), scheme);
        assert_eq!(sig.as_bytes().len(), len);
        assert_eq!(sig.public_key_bytes(), kp.public().as_bytes());
        assert_eq!(sig.signature_bytes().len(), 64);
        assert_eq!(sig.verify(&msg, address), Ok(()));
        assert_eq!(sig.verify(&message("steal"), address), Err(SuiError::InvalidSignature));
        let other = SuiAddress([1; 20]);
        assert_eq!(sig.verify(&msg, other), Err(SuiError::IncorrectSigner { expected: other, given: address }));
        assert!(Signature::from_bytes(&sig.as_bytes()).unwrap() == sig);
    }
}

#[test]
fn signature_decoding_errors() {
    let (_, kp) = key_pair(SignatureScheme::ED25519, 5);
    let bytes = Signature::new(&message("x"), &kp).as_bytes();
    assert_eq!(Signature::from_bytes(&[]).err(), Some(SuiError::InvalidDecoding));
    assert_eq!(Signature::from_bytes(&bytes[..96]).err(), Some(SuiError::InvalidDecoding));
    let mut wrong = bytes.clone();
    wrong[0] = 0x02;
    assert_eq!(Signature::from_bytes(&wrong).err(), Some(SuiError::UnsupportedScheme));
    // an Ed25519 body under the Secp256k1 flag has the wrong length
    wrong[0] = 0x01;
    assert_eq!(Signature::from_bytes(&wrong).err(), Some(SuiError::InvalidDecoding));
}

#[test]
fn account_signature_falls_back_to_direct_check() {
    let (address, kp) = key_pair(SignatureScheme::Secp256k1, 6);
    let msg = message("batch");
    let mut obligation = VerificationObligation::new();
    let idx = obligation.add_message(&msg);
    let sig = Signature::new(&msg, &kp);
    assert_eq!(sig.add_to_verification_obligation_or_verify(address, &mut obligation, idx), Ok(()));
    assert!(obligation.public_keys[idx].is_empty());
    let wrong = Signature::new(&message("other"), &kp);
    assert_eq!(wrong.add_to_verification_obligation_or_verify(address, &mut obligation, idx), Err(SuiError::InvalidSignature));
}

#[test]
fn key_pair_text_round_trip() {
    for scheme in [SignatureScheme::ED25519, SignatureScheme::Secp256k1] {
        let (_, kp) = key_pair(scheme, 7);
        let back = SuiKeyPair::decode_base64(&kp.encode_base64()).unwrap();
        assert_eq!(back.scheme(), scheme);
        assert_eq!(back.private_bytes(), kp.private_bytes());
        assert!(back.public() == kp.public());
    }
    assert!(matches!(SuiKeyPair::decode(&[0x07, 1, 2]), Err(SuiError::UnsupportedScheme)));
    assert!(matches!(SuiKeyPair::decode(&[0x00, 1, 2]), Err(SuiError::InvalidDecoding)));
}

#[test]
fn key_pair_from_bytes_checks_public_key() {
    let (address, kp) = key_pair(SignatureScheme::ED25519, 8);
    let mut bytes = kp.private_bytes();
    bytes.extend_from_slice(&kp.public().as_bytes());
    let (a, back) = get_key_pair_from_bytes(SignatureScheme::ED25519, &bytes).unwrap();
    assert_eq!(a, address);
    assert_eq!(back.private_bytes(), kp.private_bytes());
    let last = bytes.len() - 1;
    bytes[last] ^= 1;
    assert!(matches!(get_key_pair_from_bytes(SignatureScheme::ED25519, &bytes), Err(SuiError::InvalidAddress)));
    assert!(matches!(get_key_pair_from_bytes(SignatureScheme::ED25519, &bytes[..10]), Err(SuiError::InvalidPrivateKey)));
}

#[test]
fn bls_is_no_account_scheme() {
    let mut rng = StdRng::seed_from_u64(9);
    assert!(matches!(
        random_key_pair_by_type_from_rng(SignatureScheme::BLS12381, &mut rng),
        Err(SuiError::UnsupportedScheme)
    ));
    assert!(matches!(SuiKeyPair::from_private_bytes(SignatureScheme::BLS12381, vec![1; 32]), Err(SuiError::UnsupportedScheme)));
}

const HARD: u32 = 0x8000_0000;

#[test]
fn derivation_paths_are_validated() {
    let default = validate_path(&SignatureScheme::ED25519, None).unwrap();
    assert_eq!(default.0, vec![44 | HARD, 784 | HARD, HARD, HARD, HARD]);
    let default = validate_path(&SignatureScheme::Secp256k1, None).unwrap();
    assert_eq!(default.0, vec![54 | HARD, 784 | HARD, HARD, 0, 0]);
    let parsed = DerivationPath::parse("m/44'/784'/0'/0'/1'").unwrap();
    assert_eq!(parsed.0, vec![44 | HARD, 784 | HARD, HARD, HARD, 1 | HARD]);
    assert!(validate_path(&SignatureScheme::ED25519, Some(parsed.clone())).is_ok());
    assert!(matches!(validate_path(&SignatureScheme::Secp256k1, Some(parsed)), Err(SuiError::SignatureKeyGenError)));
    let secp = DerivationPath::parse("m/54'/784'/0'/0/0").unwrap();
    assert!(validate_path(&SignatureScheme::Secp256k1, Some(secp.clone())).is_ok());
    assert!(matches!(validate_path(&SignatureScheme::ED25519, Some(secp)), Err(SuiError::SignatureKeyGenError)));
    let short = DerivationPath::parse("m/44'/784'/0'").unwrap();
    assert!(matches!(validate_path(&SignatureScheme::ED25519, Some(short)), Err(SuiError::SignatureKeyGenError)));
    assert!(matches!(validate_path(&SignatureScheme::BLS12381, None), Err(SuiError::UnsupportedFeatureError)));
    assert!(DerivationPath::parse("44/784").is_none());
}

#[test]
fn derived_keys_are_deterministic() {
    let seed = [3u8; 64];
    for scheme in [SignatureScheme::ED25519, SignatureScheme::Secp256k1] {
        let (a1, k1) = derive_key_pair_from_path(&seed, None, &scheme).unwrap();
        let (a2, k2) = derive_key_pair_from_path(&seed, None, &scheme).unwrap();
        assert_eq!(a1, a2);
        assert_eq!(k1.private_bytes(), k2.private_bytes());
        assert_eq!(SuiAddress::from_public_key(&k1.public()), a1);
        let other = DerivationPath::parse(if scheme == SignatureScheme::ED25519 {
            "m/44'/784'/0'/0'/1'"
        } else {
            "m/54'/784'/0'/0/1"
        })
        .unwrap();
        let (a3, _) = derive_key_pair_from_path(&seed, Some(other), &scheme).unwrap();
        assert_ne!(a1, a3);
    }
    assert!(matches!(
        derive_key_pair_from_path(&seed, None, &SignatureScheme::BLS12381),
        Err(SuiError::UnsupportedFeatureError)
    ));
}

#[test]
fn slip10_derivation_is_used() {
    // the key is the one SLIP-0010 derives along the given path
    let seed: Vec<u8> = (0u8..16).collect();
    let path = DerivationPath(vec![44 | HARD, 784 | HARD, HARD, HARD, HARD]);
    let (_, kp) = derive_key_pair_from_path(&seed, Some(path), &SignatureScheme::ED25519).unwrap();
    let expected = slip10_ed25519::derive_ed25519_private_key(&seed, &[44 | HARD, 784 | HARD, HARD, HARD, HARD]);
    assert_eq!(kp.private_bytes(), expected.to_vec());
}

#[test]
fn scheme_specific_signature_bytes() {
    let (_, kp) = key_pair(SignatureScheme::ED25519, 10);
    let bytes = Signature::new(&message("e"), &kp).as_bytes();
    let ed = Ed25519SuiSignature::from_bytes(&bytes).unwrap();
    assert_eq!(ed.as_bytes(), bytes);
    assert_eq!(Ed25519SuiSignature::from_bytes(&bytes[..96]).err(), Some(SuiError::InvalidDecoding));
    assert_eq!(Secp256k1SuiSignature::from_bytes(&bytes).err(), Some(SuiError::InvalidDecoding));
    let (_, kp) = key_pair(SignatureScheme::Secp256k1, 11);
    let bytes = Signature::new(&message("s"), &kp).as_bytes();
    assert_eq!(Secp256k1SuiSignature::from_bytes(&bytes).unwrap().as_bytes(), bytes);
    let mut wrong = bytes.clone();
    wrong[0] = 0x00;
    assert_eq!(Secp256k1SuiSignature::from_bytes(&wrong).err(), Some(SuiError::InvalidDecoding));
}

#[test]
fn fallback_names_the_wrong_signer() {
    let (address, kp) = key_pair(SignatureScheme::ED25519, 12);
    let msg = message("who");
    let mut obligation = VerificationObligation::new();
    let idx = obligation.add_message(&msg);
    let sig = Signature::new(&msg, &kp);
    let other = SuiAddress([9; 20]);
    assert_eq!(
        sig.add_to_verification_obligation_or_verify(other, &mut obligation, idx),
        Err(SuiError::IncorrectSigner { expected: other, given: address })
    );
}
