use vstd::prelude::*;
use fastcrypto::bls12381::min_sig::{
    BLS12381AggregateSignature, BLS12381KeyPair, BLS12381PrivateKey, BLS12381PublicKey,
    BLS12381Signature,
};
use fastcrypto::traits::{AggregateAuthenticator, KeyPair, Signer, ToFromBytes, VerifyingKey};
use crate::base_types::AuthorityPublicKeyBytes;

verus! {

#[verifier::external_type_specification]
#[verifier::external_body]
pub struct ExStdRng(rand::rngs::StdRng);

/// Reads an optional byte vector as an optional byte sequence.
pub open spec fn opt_bytes(r: Option<Vec<u8>>) -> Option<Seq<u8>> {
    match r {
        Some(v) => Some(v@),
        None => None,
    }
}

/// The views of a list of byte vectors.
pub open spec fn byte_strings(v: Seq<Vec<u8>>) -> Seq<Seq<u8>> {
    v.map_values(|s: Vec<u8>| s@)
}

/// What folding the signature `signature` into the aggregate `aggregate` gives (both as
/// bytes), or `None` when either does not decode or the fold fails.
pub uninterp spec fn bls_add_signature_of(aggregate: Seq<u8>, signature: Seq<u8>) -> Option<Seq<u8>>;

/// What folding the aggregate `other` into the aggregate `aggregate` gives.
pub uninterp spec fn bls_add_aggregate_of(aggregate: Seq<u8>, other: Seq<u8>) -> Option<Seq<u8>>;

/// The aggregate of the signatures `signatures`, in that order.
pub uninterp spec fn bls_aggregate_of(signatures: Seq<Seq<u8>>) -> Option<Seq<u8>>;

/// Whether the aggregate `signature` is valid for `message` under all of `keys` together.
pub uninterp spec fn bls_aggregate_verifies(signature: Seq<u8>, keys: Seq<AuthorityPublicKeyBytes>, message: Seq<u8>) -> bool;

/// Whether `key` decodes as a validator public key.
pub uninterp spec fn bls_key_parses(key: Seq<u8>) -> bool;

/// Whether `signature` is a valid signature by `key` over `message`.
pub uninterp spec fn bls_verifies(key: Seq<u8>, message: Seq<u8>, signature: Seq<u8>) -> bool;

/// The signature that the private key `private_key` gives to `message`.
pub uninterp spec fn bls_signature_of(private_key: Seq<u8>, message: Seq<u8>) -> Option<Seq<u8>>;

/// The public key that belongs to the private key `private_key`.
pub uninterp spec fn bls_public_of(private_key: Seq<u8>) -> Option<Seq<u8>>;

/// The compressed point at infinity of G1: the aggregate of no signature.
pub open spec fn bls_infinity() -> Seq<u8> {
    seq![0xc0u8] + Seq::new(47, |i: int| 0u8)
}

/// Whether every slot has keys and its aggregate verifies on its own.
pub open spec fn each_slot_verifies(
    signatures: Seq<Vec<u8>>,
    public_keys: Seq<Vec<AuthorityPublicKeyBytes>>,
    messages: Seq<Vec<u8>>,
) -> bool {
    forall|i: int|
        0 <= i < signatures.len() ==> public_keys[i]@.len() > 0 && #[trigger] bls_aggregate_verifies(
            signatures[i]@,
            public_keys[i]@,
            messages[i]@,
        )
}

/// Relies on fastcrypto's `Default` for the BLS12-381 aggregate signature: the aggregate of
/// no signature, the infinity point, whose compressed form is 0xc0 then 47 zero bytes.
#[verifier::external_body]
pub(crate) fn bls_empty_aggregate() -> (r: Vec<u8>)
    ensures
        r@ == bls_infinity(),
{
    BLS12381AggregateSignature::default().as_ref().to_vec()
}

/// Relies on fastcrypto's `AggregateAuthenticator::add_signature` (BLS12-381, min-sig), after
/// `ToFromBytes::from_bytes` on both inputs.
#[verifier::external_body]
pub(crate) fn bls_add_signature(aggregate: &Vec<u8>, signature: &Vec<u8>) -> (r: Option<Vec<u8>>)
    ensures
        opt_bytes(r) == bls_add_signature_of(aggregate@, signature@),
{
    let mut agg = BLS12381AggregateSignature::from_bytes(aggregate).ok()?;
    let sig = BLS12381Signature::from_bytes(signature).ok()?;
    agg.add_signature(sig).ok()?;
    Some(agg.as_ref().to_vec())
}

/// Relies on fastcrypto's `AggregateAuthenticator::add_aggregate` (BLS12-381, min-sig), after
/// `ToFromBytes::from_bytes` on both inputs.
#[verifier::external_body]
pub(crate) fn bls_add_aggregate(aggregate: &Vec<u8>, other: &Vec<u8>) -> (r: Option<Vec<u8>>)
    ensures
        opt_bytes(r) == bls_add_aggregate_of(aggregate@, other@),
{
    let mut agg = BLS12381AggregateSignature::from_bytes(aggregate).ok()?;
    let more = BLS12381AggregateSignature::from_bytes(other).ok()?;
    agg.add_aggregate(more).ok()?;
    Some(agg.as_ref().to_vec())
}

/// Relies on fastcrypto's `AggregateAuthenticator::aggregate` (BLS12-381, min-sig), after
/// `ToFromBytes::from_bytes` on each signature.
#[verifier::external_body]
pub(crate) fn bls_aggregate(signatures: &Vec<Vec<u8>>) -> (r: Option<Vec<u8>>)
    ensures
        opt_bytes(r) == bls_aggregate_of(byte_strings(signatures@)),
{
    let sigs = signatures
        .iter()
        .map(|s| BLS12381Signature::from_bytes(s))
        .collect::<Result<Vec<_>, _>>()
        .ok()?;
    let agg = BLS12381AggregateSignature::aggregate(&sigs).ok()?;
    Some(agg.as_ref().to_vec())
}

/// Relies on fastcrypto's `ToFromBytes::from_bytes` for the BLS12-381 public key.
#[verifier::external_body]
pub(crate) fn bls_public_key_parses(key: &AuthorityPublicKeyBytes) -> (r: bool)
    ensures
        r == bls_key_parses(key.0@),
{
    BLS12381PublicKey::from_bytes(&key.0).is_ok()
}

/// Relies on fastcrypto's `VerifyingKey::verify` (BLS12-381, min-sig), after
/// `ToFromBytes::from_bytes` on the key and the signature.
#[verifier::external_body]
pub(crate) fn bls_verify(key: &AuthorityPublicKeyBytes, message: &Vec<u8>, signature: &Vec<u8>) -> (r: bool)
    ensures
        r == bls_verifies(key.0@, message@, signature@),
{
    match (BLS12381PublicKey::from_bytes(&key.0), BLS12381Signature::from_bytes(signature)) {
        (Ok(pk), Ok(sig)) => pk.verify(message, &sig).is_ok(),
        _ => false,
    }
}

/// Relies on fastcrypto's `AggregateAuthenticator::verify` (BLS12-381, min-sig), after
/// `ToFromBytes::from_bytes` on the aggregate and every key.
#[verifier::external_body]
pub(crate) fn bls_aggregate_verify(
    signature: &Vec<u8>,
    keys: &Vec<AuthorityPublicKeyBytes>,
    message: &Vec<u8>,
) -> (r: bool)
    ensures
        r == bls_aggregate_verifies(signature@, keys@, message@),
{
    let sig = match BLS12381AggregateSignature::from_bytes(signature) { Ok(s) => s, Err(_) => return false };
    let pks: Result<Vec<_>, _> = keys.iter().map(|k| BLS12381PublicKey::from_bytes(&k.0)).collect();
    match pks {
        Ok(pks) => sig.verify(&pks, message).is_ok(),
        Err(_) => false,
    }
}

/// Relies on fastcrypto's `Signer::sign` for the BLS12-381 key pair made from the private key
/// bytes (`ToFromBytes::from_bytes`, then `From`); that decoding is the one of `bls_public`.
/// A signature it makes verifies under the key that belongs to the private key.
#[verifier::external_body]
pub(crate) fn bls_sign(private_key: &Vec<u8>, message: &Vec<u8>) -> (r: Option<Vec<u8>>)
    ensures
        opt_bytes(r) == bls_signature_of(private_key@, message@),
        r is Some <==> bls_public_of(private_key@) is Some,
        r matches Some(s) ==> (bls_public_of(private_key@) matches Some(k) && bls_verifies(
            k,
            message@,
            s@,
        )),
{
    let kp = BLS12381KeyPair::from(BLS12381PrivateKey::from_bytes(private_key).ok()?);
    Some(kp.sign(message).as_ref().to_vec())
}

/// Relies on fastcrypto's `From<&BLS12381PrivateKey>` for the public key, after
/// `ToFromBytes::from_bytes` on the private key; the key it gives decodes again.
#[verifier::external_body]
pub(crate) fn bls_public(private_key: &Vec<u8>) -> (r: Option<[u8; 96]>)
    ensures
        r is Some <==> bls_public_of(private_key@) is Some,
        r matches Some(k) ==> bls_public_of(private_key@) == Some(k@) && bls_key_parses(k@),
{
    let sk = BLS12381PrivateKey::from_bytes(private_key).ok()?;
    <[u8; 96]>::try_from(BLS12381PublicKey::from(&sk).as_ref()).ok()
}

/// Relies on fastcrypto's `KeyPair::generate` for BLS12-381: a fresh key pair drawn from
/// `rng`, as its private key bytes and its public key bytes.
#[verifier::external_body]
pub(crate) fn bls_generate(rng: &mut rand::rngs::StdRng) -> (r: (Vec<u8>, [u8; 96]))
    ensures
        bls_public_of(r.0@) == Some(r.1@),
        bls_key_parses(r.1@),
{
    let kp = BLS12381KeyPair::generate(rng);
    let public = <[u8; 96]>::try_from(kp.public().as_ref()).unwrap();
    (kp.private().as_ref().to_vec(), public)
}

/// Relies on fastcrypto's `AggregateAuthenticator::batch_verify` (BLS12-381, min-sig), after
/// `ToFromBytes::from_bytes` on every aggregate and key. It weighs the checks with random
/// non-zero scalars, so only what holds of every draw is stated: when every slot verifies on
/// its own, the weighted check holds too.
#[verifier::external_body]
pub(crate) fn bls_batch_verify(
    signatures: &Vec<Vec<u8>>,
    public_keys: &Vec<Vec<AuthorityPublicKeyBytes>>,
    messages: &Vec<Vec<u8>>,
) -> (r: bool)
    ensures
        signatures@.len() != public_keys@.len() || signatures@.len() != messages@.len() ==> !r,
        signatures@.len() == 0 && public_keys@.len() == 0 && messages@.len() == 0 ==> r,
        signatures@.len() == public_keys@.len() && signatures@.len() == messages@.len()
            && each_slot_verifies(signatures@, public_keys@, messages@) ==> r,
{
    let sigs: Result<Vec<_>, _> = signatures.iter().map(|s| BLS12381AggregateSignature::from_bytes(s)).collect();
    let keys: Result<Vec<Vec<_>>, _> =
        public_keys.iter().map(|ks| ks.iter().map(|k| BLS12381PublicKey::from_bytes(&k.0)).collect()).collect();
    let msgs: Vec<&[u8]> = messages.iter().map(Vec::as_slice).collect();
    match (sigs, keys) {
        (Ok(s), Ok(k)) => {
            BLS12381AggregateSignature::batch_verify(&s.iter().collect::<Vec<_>>(), k.iter().map(|x| x.iter()).collect(), &msgs).is_ok()
        },
        _ => false,
    }
}

} // verus!
