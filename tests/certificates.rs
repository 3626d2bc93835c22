use rand::rngs::StdRng;
use rand::SeedableRng;
use roaring::RoaringBitmap;
use sui_admission::authority::{
    add_to_verification_obligation_and_verify, generate_proof_of_possession, random_key_pairs, AuthorityKeyPair,
    AuthoritySignInfoKind,
};
use sui_admission::base_types::{AuthorityPublicKeyBytes, SuiAddress};
use sui_admission::certificates::{
    AuthorityQuorumSignInfo, AuthoritySignInfo, AuthorityStrongQuorumSignInfo, AuthorityWeakQuorumSignInfo,
    EmptySignInfo,
};
use sui_admission::committee::Committee;
use sui_admission::encoding::{signable_bytes, Bar, Foo, SignableBytes};
use sui_admission::error::SuiError;
use sui_admission::obligation::{get_obligation_input, AuthoritySignature, ObligationSignature, VerificationObligation};

/// Four validators, ascending by key, each with weight one.
fn validators(seed: u64) -> Vec<AuthorityKeyPair> {
    let mut rng = StdRng::seed_from_u64(seed);
    let mut keys = random_key_pairs(4, &mut rng);
    keys.sort_by(|a, b| a.public().0.cmp(&b.public().0));
    keys
}

fn committee_of(keys: &[AuthorityKeyPair], epoch: u64) -> Committee {
    Committee::new(epoch, keys.iter().map(|k| (k.public(), 1u64)).collect()).unwrap()
}

fn message(text: &str) -> Foo {
    Foo(text.to_string())
}

fn signed(keys: &[AuthorityKeyPair], msg: &Foo) -> Vec<(AuthorityPublicKeyBytes, AuthoritySignature)> {
    keys.iter().map(|k| (k.public(), AuthoritySignature::new(msg, k))).collect()
}

#[test]
fn committee_thresholds() {
    let keys = validators(1);
    let c = committee_of(&keys, 0);
    assert_eq!(c.total_votes(), 4);
    assert_eq!(c.quorum_threshold(), 3);
    assert_eq!(c.validity_threshold(), 2);
    let c = Committee::new(0, keys.iter().enumerate().map(|(i, k)| (k.public(), [1u64, 2, 3, 4][i])).collect()).unwrap();
    assert_eq!(c.quorum_threshold(), 7);
    assert_eq!(c.validity_threshold(), 4);
    assert_eq!(c.weight(&keys[2].public()), 3);
    assert_eq!(c.authority_index(&keys[3].public()), Some(3));
    assert_eq!(c.authority_by_index(1), Some(keys[1].public()));
    assert_eq!(c.authority_by_index(4), None);
}

#[test]
fn committee_rejects_bad_members() {
    let keys = validators(2);
    assert!(matches!(Committee::new(0, vec![]), Err(SuiError::InvalidCommittee)));
    assert!(matches!(Committee::new(0, vec![(keys[0].public(), 0)]), Err(SuiError::InvalidCommittee)));
    let unordered = vec![(keys[1].public(), 1), (keys[0].public(), 1)];
    assert!(matches!(Committee::new(0, unordered), Err(SuiError::InvalidCommittee)));
    let repeated = vec![(keys[0].public(), 1), (keys[0].public(), 1)];
    assert!(matches!(Committee::new(0, repeated), Err(SuiError::InvalidCommittee)));
    let overflow = vec![(keys[0].public(), u64::MAX), (keys[1].public(), 1)];
    assert!(matches!(Committee::new(0, overflow), Err(SuiError::InvalidCommittee)));
}

#[test]
fn single_attestation_verifies() {
    let keys = validators(3);
    let c = committee_of(&keys, 5);
    let msg = message("hello");
    let info = AuthoritySignInfo { epoch: 5, authority: keys[1].public(), signature: AuthoritySignature::new(&msg, &keys[1]) };
    assert_eq!(info.verify(&msg, &c), Ok(()));
    assert_eq!(info.verify(&message("other"), &c), Err(SuiError::InvalidSignature));
    let outsider = &validators(4)[0];
    let stranger = AuthoritySignInfo { epoch: 5, authority: outsider.public(), signature: AuthoritySignature::new(&msg, outsider) };
    assert_eq!(stranger.verify(&msg, &c), Err(SuiError::UnknownSigner));
}

#[test]
fn attestation_equality_ignores_signature() {
    let keys = validators(5);
    let a = AuthoritySignInfo { epoch: 1, authority: keys[0].public(), signature: AuthoritySignature::new(&message("a"), &keys[0]) };
    let b = AuthoritySignInfo { epoch: 1, authority: keys[0].public(), signature: AuthoritySignature::new(&message("b"), &keys[0]) };
    let c = AuthoritySignInfo { epoch: 2, authority: keys[0].public(), signature: AuthoritySignature::new(&message("a"), &keys[0]) };
    assert!(a == b);
    assert!(a != c);
}

#[test]
fn strong_quorum_needs_quorum_weight() {
    let keys = validators(6);
    let c = committee_of(&keys, 0);
    let msg = message("certified");
    let three = AuthorityStrongQuorumSignInfo::new_with_signatures(signed(&keys[..3], &msg), &c).unwrap();
    assert_eq!(three.len(), 3);
    assert_eq!(three.verify(&msg, &c), Ok(()));
    // without one signer the weight drops below the quorum threshold
    let two = AuthorityStrongQuorumSignInfo::new_with_signatures(signed(&keys[1..3], &msg), &c).unwrap();
    assert_eq!(two.verify(&msg, &c), Err(SuiError::CertificateRequiresQuorum));
}

#[test]
fn weak_passes_where_strong_fails() {
    let keys = validators(7);
    let c = committee_of(&keys, 0);
    let msg = message("weak");
    let sigs = signed(&keys[..2], &msg);
    let weak = AuthorityWeakQuorumSignInfo::new_with_signatures(sigs.clone(), &c).unwrap();
    let strong = AuthorityStrongQuorumSignInfo::new_with_signatures(sigs, &c).unwrap();
    assert_eq!(weak.verify(&msg, &c), Ok(()));
    assert_eq!(strong.verify(&msg, &c), Err(SuiError::CertificateRequiresQuorum));
    let one = AuthorityWeakQuorumSignInfo::new_with_signatures(signed(&keys[..1], &msg), &c).unwrap();
    assert_eq!(one.verify(&msg, &c), Err(SuiError::CertificateRequiresQuorum));
}

#[test]
fn certificate_of_another_epoch_is_refused() {
    let keys = validators(8);
    let c0 = committee_of(&keys, 0);
    let c1 = committee_of(&keys, 1);
    let msg = message("stale");
    let cert = AuthorityStrongQuorumSignInfo::new_with_signatures(signed(&keys, &msg), &c0).unwrap();
    assert_eq!(cert.verify(&msg, &c1), Err(SuiError::WrongEpoch { expected_epoch: 1 }));
}

#[test]
fn forged_certificate_fails_verification() {
    let keys = validators(9);
    let c = committee_of(&keys, 0);
    let msg = message("real");
    let cert = AuthorityStrongQuorumSignInfo::new_with_signatures(signed(&keys, &msg), &c).unwrap();
    assert_eq!(cert.verify(&message("fake"), &c), Err(SuiError::InvalidSignature));
}

#[test]
fn unknown_signer_in_bitmap_is_refused() {
    let keys = validators(10);
    let c = committee_of(&keys, 0);
    let msg = message("m");
    let mut cert = AuthorityStrongQuorumSignInfo::new_with_signatures(signed(&keys, &msg), &c).unwrap();
    cert.signers_map.insert(9);
    assert_eq!(cert.verify(&msg, &c), Err(SuiError::UnknownSigner));
    let outsider = &validators(11)[0];
    let r = AuthorityStrongQuorumSignInfo::new_with_signatures(signed(std::slice::from_ref(outsider), &msg), &c);
    assert!(matches!(r, Err(SuiError::UnknownSigner)));
}

#[test]
fn same_signatures_give_the_same_certificate() {
    let keys = validators(12);
    let c = committee_of(&keys, 0);
    let msg = message("order");
    let mut sigs = signed(&keys, &msg);
    let a = AuthorityStrongQuorumSignInfo::new_with_signatures(sigs.clone(), &c).unwrap();
    sigs.reverse();
    let b = AuthorityStrongQuorumSignInfo::new_with_signatures(sigs, &c).unwrap();
    assert_eq!(a.signature.0, b.signature.0);
    assert_eq!(a.signers_map, b.signers_map);
    let names: Vec<_> = a.authorities(&c).into_iter().map(|r| r.unwrap()).collect();
    assert_eq!(names, keys.iter().map(|k| k.public()).collect::<Vec<_>>());
}

#[test]
fn empty_certificate() {
    let cert = AuthorityQuorumSignInfo::<true>::new(3);
    assert!(cert.is_empty());
    assert_eq!(cert.len(), 0);
    assert_eq!(cert.signers_map, RoaringBitmap::new());
}

#[test]
fn batched_and_individual_verification_agree() {
    let keys = validators(13);
    let c = committee_of(&keys, 0);
    let msgs: Vec<Foo> = (0..4).map(|i| message(&format!("m{i}"))).collect();
    let infos: Vec<AuthoritySignInfo> = keys
        .iter()
        .zip(msgs.iter())
        .map(|(k, m)| AuthoritySignInfo { epoch: 0, authority: k.public(), signature: AuthoritySignature::new(m, k) })
        .collect();
    let mut obligation = VerificationObligation::new();
    for (info, m) in infos.iter().zip(msgs.iter()) {
        let idx = obligation.add_message(m);
        info.add_to_verification_obligation(&c, &mut obligation, idx).unwrap();
    }
    assert_eq!(obligation.verify_all(), Ok(()));
    assert!(infos.iter().zip(msgs.iter()).all(|(i, m)| i.verify(m, &c).is_ok()));

    // one signature over the wrong message: both ways fail, and only one by one names it
    let mut bad = infos.clone();
    bad[2].signature = AuthoritySignature::new(&message("wrong"), &keys[2]);
    let mut obligation = VerificationObligation::new();
    for (info, m) in bad.iter().zip(msgs.iter()) {
        let idx = obligation.add_message(m);
        info.add_to_verification_obligation(&c, &mut obligation, idx).unwrap();
    }
    let by_slot: Vec<usize> = (0..4).filter(|&i| obligation.verify_slot(i).is_err()).collect();
    assert_eq!(by_slot, vec![2]);
    assert_eq!(obligation.verify_all(), Err(SuiError::InvalidSignature));
    let failed: Vec<usize> = (0..4).filter(|&i| bad[i].verify(&msgs[i], &c).is_err()).collect();
    assert_eq!(failed, vec![2]);
}

#[test]
fn obligation_slots() {
    let keys = validators(14);
    let mut obligation = VerificationObligation::new();
    assert_eq!(obligation.add_message(&message("a")), 0);
    assert_eq!(obligation.add_message_bytes(vec![2]), 1);
    assert_eq!(obligation.messages[0], message("a").signable());
    let sig = AuthoritySignature::new(&message("a"), &keys[0]);
    let r = obligation.add_signature_and_public_key(ObligationSignature::AuthoritySig(sig.clone(), keys[0].public()), 5);
    assert_eq!(r, Err(SuiError::InvalidAuthenticator));
    assert_eq!(obligation.add_signature_and_public_key(ObligationSignature::Unbatchable, 0), Err(SuiError::SenderSigUnbatchable));
    let r = obligation.add_signature_and_public_key(ObligationSignature::AuthoritySig(sig, keys[0].public()), 0);
    assert_eq!(r, Ok(()));
    assert_eq!(obligation.public_keys[0], vec![keys[0].public()]);
    assert!(obligation.public_keys[1].is_empty());
    assert!(VerificationObligation::new().verify_all().is_ok());
}

#[test]
fn closed_set_of_attestations() {
    let keys = validators(15);
    let c = committee_of(&keys, 0);
    let msg = message("kinds");
    assert_eq!(add_to_verification_obligation_and_verify(&AuthoritySignInfoKind::Empty(EmptySignInfo {}), &msg, &c), Ok(()));
    let single = AuthoritySignInfo { epoch: 0, authority: keys[0].public(), signature: AuthoritySignature::new(&msg, &keys[0]) };
    assert_eq!(add_to_verification_obligation_and_verify(&AuthoritySignInfoKind::Single(single), &msg, &c), Ok(()));
    let strong = AuthorityStrongQuorumSignInfo::new_with_signatures(signed(&keys, &msg), &c).unwrap();
    assert_eq!(add_to_verification_obligation_and_verify(&AuthoritySignInfoKind::StrongQuorum(strong), &msg, &c), Ok(()));
    let weak = AuthorityWeakQuorumSignInfo::new_with_signatures(signed(&keys[..2], &msg), &c).unwrap();
    assert_eq!(add_to_verification_obligation_and_verify(&AuthoritySignInfoKind::WeakQuorum(weak), &msg, &c), Ok(()));
}

#[test]
fn proof_of_possession_verifies() {
    let keys = validators(16);
    let address = SuiAddress([7; 20]);
    let pop = generate_proof_of_possession(&keys[0], address);
    let mut expected = b"kosk".to_vec();
    expected.extend_from_slice(&keys[0].public().0);
    expected.extend_from_slice(&address.0);
    assert_eq!(pop.verify_bytes(&expected, keys[0].public()), Ok(()));
    assert_eq!(pop.verify_bytes(&expected, keys[1].public()), Err(SuiError::InvalidSignature));
    assert_eq!(pop.verify_bytes(&expected, AuthorityPublicKeyBytes([0; 96])), Err(SuiError::KeyConversionError));
}

#[test]
fn authority_key_pair_from_private_bytes() {
    let keys = validators(17);
    let again = AuthorityKeyPair::from_private_bytes(keys[0].private_bytes()).unwrap();
    assert_eq!(again.public(), keys[0].public());
    assert!(matches!(AuthorityKeyPair::from_private_bytes(vec![1, 2, 3]), Err(SuiError::InvalidPrivateKey)));
}

#[test]
fn canonical_encoding_is_tagged() {
    assert_eq!(signable_bytes(b"Bar", &[1, 2]), b"Bar::\x01\x02".to_vec());
    assert_eq!(message("hi").signable(), b"Foo::\x02hi".to_vec());
    assert_eq!(Bar("hi".to_string()).signable(), b"Bar::\x02hi".to_vec());
    let back = Foo::from_signable_bytes(&message("hi").signable()).unwrap();
    assert_eq!(back.0, "hi");
    let bar = Bar::from_signable_bytes(b"Bar::\x02hi").unwrap();
    assert_eq!(bar.0, "hi");
    assert!(Foo::decode(b"Foo::\x02hi").is_ok());
    assert!(matches!(Foo::from_signable_bytes(b"Bar::\x02hi"), Err(SuiError::InvalidDecoding)));
    assert!(matches!(Foo::from_signable_bytes(b"Fo"), Err(SuiError::InvalidDecoding)));
}

#[test]
fn validator_key_text() {
    let mut bytes = [0u8; 96];
    bytes[0] = 0xab;
    bytes[95] = 0x01;
    let key = AuthorityPublicKeyBytes::new(bytes);
    let text = key.to_hex_string();
    assert!(text.starts_with("k#ab00"));
    assert!(text.ends_with("0001"));
    assert_eq!(text.len(), 2 + 192);
    let hex = &text[2..];
    assert_eq!(AuthorityPublicKeyBytes::from_hex_str(hex).unwrap(), key);
    assert_eq!(AuthorityPublicKeyBytes::from_hex_str(&format!("0x{hex}")).unwrap(), key);
    assert_eq!(AuthorityPublicKeyBytes::from_hex_str(&hex.to_uppercase()).unwrap(), key);
    assert!(matches!(AuthorityPublicKeyBytes::from_hex_str("abcd"), Err(SuiError::InvalidDecoding)));
    assert!(matches!(AuthorityPublicKeyBytes::from_hex_str("xyz"), Err(SuiError::InvalidDecoding)));
    assert_eq!(AuthorityPublicKeyBytes::zero().0, [0u8; 96]);
}

#[test]
fn obligation_input_has_one_slot() {
    let (obligation, idx) = get_obligation_input(&message("slot"));
    assert_eq!(idx, 0);
    assert_eq!(obligation.messages, vec![message("slot").signable()]);
    assert!(obligation.public_keys[0].is_empty());
}
