use vstd::prelude::*;
use fastcrypto::ed25519::{Ed25519KeyPair, Ed25519PrivateKey, Ed25519PublicKey, Ed25519Signature};
use fastcrypto::secp256k1::{Secp256k1KeyPair, Secp256k1PrivateKey, Secp256k1PublicKey, Secp256k1Signature};
use fastcrypto::traits::{KeyPair, Signer, ToFromBytes, VerifyingKey};
use crate::base_types::{append_bytes, clone_bytes, SuiAddress};
use crate::bls::opt_bytes;
use crate::encoding::{base64_decode, base64_decoded_of, base64_encode, base64_of, sha3_256, sha3_256_of, slice_from};
use crate::encoding::Signable;
use crate::error::SuiError;
use crate::obligation::{ObligationSignature, VerificationObligation};
use crate::scheme::SignatureScheme;

verus! {

/// Whether `key` decodes as an Ed25519 public key.
pub uninterp spec fn ed25519_key_parses(key: Seq<u8>) -> bool;

/// Whether `key` decodes as a Secp256k1 public key.
pub uninterp spec fn secp256k1_key_parses(key: Seq<u8>) -> bool;

/// Whether `signature` is a valid Ed25519 signature by `key` over `message`.
pub uninterp spec fn ed25519_verifies(key: Seq<u8>, message: Seq<u8>, signature: Seq<u8>) -> bool;

/// Whether `signature` is a valid Secp256k1 signature by `key` over `message`.
pub uninterp spec fn secp256k1_verifies(key: Seq<u8>, message: Seq<u8>, signature: Seq<u8>) -> bool;

/// The Ed25519 signature that `private_key` gives to `message`.
pub uninterp spec fn ed25519_signature_of(private_key: Seq<u8>, message: Seq<u8>) -> Option<Seq<u8>>;

/// The Secp256k1 signature that `private_key` gives to `message`.
pub uninterp spec fn secp256k1_signature_of(private_key: Seq<u8>, message: Seq<u8>) -> Option<Seq<u8>>;

/// The Ed25519 public key of `private_key`.
pub uninterp spec fn ed25519_public_of(private_key: Seq<u8>) -> Option<Seq<u8>>;

/// The Secp256k1 public key of `private_key`.
pub uninterp spec fn secp256k1_public_of(private_key: Seq<u8>) -> Option<Seq<u8>>;

/// Relies on fastcrypto's `ToFromBytes::from_bytes` for `Ed25519PublicKey`.
#[verifier::external_body]
fn ed25519_public_key_parses(key: &[u8]) -> (r: bool)
    ensures
        r == ed25519_key_parses(key@),
{
    Ed25519PublicKey::from_bytes(key).is_ok()
}

/// Relies on fastcrypto's `ToFromBytes::from_bytes` for `Secp256k1PublicKey`.
#[verifier::external_body]
fn secp256k1_public_key_parses(key: &[u8]) -> (r: bool)
    ensures
        r == secp256k1_key_parses(key@),
{
    Secp256k1PublicKey::from_bytes(key).is_ok()
}

/// Relies on fastcrypto's `VerifyingKey::verify` for Ed25519, after `ToFromBytes::from_bytes`
/// on the key and the signature.
#[verifier::external_body]
fn ed25519_verify(key: &[u8], message: &[u8], signature: &[u8]) -> (r: bool)
    ensures
        r == ed25519_verifies(key@, message@, signature@),
{
    match (Ed25519PublicKey::from_bytes(key), Ed25519Signature::from_bytes(signature)) {
        (Ok(pk), Ok(sig)) => pk.verify(message, &sig).is_ok(),
        _ => false,
    }
}

/// Relies on fastcrypto's `VerifyingKey::verify` for Secp256k1, after
/// `ToFromBytes::from_bytes` on the key and the signature.
#[verifier::external_body]
fn secp256k1_verify(key: &[u8], message: &[u8], signature: &[u8]) -> (r: bool)
    ensures
        r == secp256k1_verifies(key@, message@, signature@),
{
    match (Secp256k1PublicKey::from_bytes(key), Secp256k1Signature::from_bytes(signature)) {
        (Ok(pk), Ok(sig)) => pk.verify(message, &sig).is_ok(),
        _ => false,
    }
}

/// Relies on fastcrypto's `Signer::sign` for the Ed25519 key pair of the private key bytes
/// (`ToFromBytes::from_bytes`, then `From`): a 64-byte signature, which verifies under the
/// key pair's public key.
#[verifier::external_body]
fn ed25519_sign(private_key: &Vec<u8>, message: &Vec<u8>) -> (r: Option<Vec<u8>>)
    ensures
        opt_bytes(r) == ed25519_signature_of(private_key@, message@),
        r is Some <==> ed25519_public_of(private_key@) is Some,
        r matches Some(s) ==> s@.len() == 64,
        r matches Some(s) ==> (ed25519_public_of(private_key@) matches Some(k) && ed25519_verifies(
            k,
            message@,
            s@,
        )),
{
    let kp = Ed25519KeyPair::from(Ed25519PrivateKey::from_bytes(private_key).ok()?);
    Some(kp.sign(message).as_ref().to_vec())
}

/// Relies on fastcrypto's `Signer::sign` for the Secp256k1 key pair of the private key bytes
/// (`ToFromBytes::from_bytes`, then `From`): a 64-byte signature, which verifies under the
/// key pair's public key.
#[verifier::external_body]
fn secp256k1_sign(private_key: &Vec<u8>, message: &Vec<u8>) -> (r: Option<Vec<u8>>)
    ensures
        opt_bytes(r) == secp256k1_signature_of(private_key@, message@),
        r is Some <==> secp256k1_public_of(private_key@) is Some,
        r matches Some(s) ==> s@.len() == 64,
        r matches Some(s) ==> (secp256k1_public_of(private_key@) matches Some(k) && secp256k1_verifies(
            k,
            message@,
            s@,
        )),
{
    let kp = Secp256k1KeyPair::from(Secp256k1PrivateKey::from_bytes(private_key).ok()?);
    Some(kp.sign(message).as_ref().to_vec())
}

/// Relies on fastcrypto's `From<Ed25519PrivateKey>` for the key pair, after
/// `ToFromBytes::from_bytes`: the 32-byte public key, which decodes again.
#[verifier::external_body]
fn ed25519_public(private_key: &Vec<u8>) -> (r: Option<Vec<u8>>)
    ensures
        opt_bytes(r) == ed25519_public_of(private_key@),
        r matches Some(k) ==> k@.len() == 32 && ed25519_key_parses(k@),
{
    let kp = Ed25519KeyPair::from(Ed25519PrivateKey::from_bytes(private_key).ok()?);
    Some(kp.public().as_ref().to_vec())
}

/// Relies on fastcrypto's `From<Secp256k1PrivateKey>` for the key pair, after
/// `ToFromBytes::from_bytes`: the 33-byte compressed public key, which decodes again.
#[verifier::external_body]
fn secp256k1_public(private_key: &Vec<u8>) -> (r: Option<Vec<u8>>)
    ensures
        opt_bytes(r) == secp256k1_public_of(private_key@),
        r matches Some(k) ==> k@.len() == 33 && secp256k1_key_parses(k@),
{
    let kp = Secp256k1KeyPair::from(Secp256k1PrivateKey::from_bytes(private_key).ok()?);
    Some(kp.public().as_ref().to_vec())
}

/// Relies on fastcrypto's `KeyPair::generate` for Ed25519: a fresh key pair drawn from `rng`,
/// as its private key bytes and its public key bytes.
#[verifier::external_body]
fn ed25519_generate(rng: &mut rand::rngs::StdRng) -> (r: (Vec<u8>, Vec<u8>))
    ensures
        ed25519_public_of(r.0@) == Some(r.1@),
        r.1@.len() == 32 && ed25519_key_parses(r.1@),
{
    let kp = Ed25519KeyPair::generate(rng);
    let public = kp.public().as_ref().to_vec();
    (kp.private().as_ref().to_vec(), public)
}

/// Relies on fastcrypto's `KeyPair::generate` for Secp256k1: a fresh key pair drawn from
/// `rng`, as its private key bytes and its public key bytes.
#[verifier::external_body]
fn secp256k1_generate(rng: &mut rand::rngs::StdRng) -> (r: (Vec<u8>, Vec<u8>))
    ensures
        secp256k1_public_of(r.0@) == Some(r.1@),
        r.1@.len() == 33 && secp256k1_key_parses(r.1@),
{
    let kp = Secp256k1KeyPair::generate(rng);
    let public = kp.public().as_ref().to_vec();
    (kp.private().as_ref().to_vec(), public)
}

/// The schemes that accounts may use.
pub open spec fn is_account_scheme(s: SignatureScheme) -> bool {
    s is ED25519 || s is Secp256k1
}

/// The length of a public key of scheme `s`.
pub open spec fn public_key_length(s: SignatureScheme) -> nat {
    match s {
        SignatureScheme::ED25519 => 32,
        SignatureScheme::Secp256k1 => 33,
        SignatureScheme::BLS12381 => 96,
    }
}

/// The length of an account signature, in both account schemes.
pub const SIGNATURE_LENGTH: usize = 64;

pub open spec fn key_parses(s: SignatureScheme, key: Seq<u8>) -> bool {
    match s {
        SignatureScheme::ED25519 => ed25519_key_parses(key),
        SignatureScheme::Secp256k1 => secp256k1_key_parses(key),
        SignatureScheme::BLS12381 => false,
    }
}

pub open spec fn verifies(s: SignatureScheme, key: Seq<u8>, message: Seq<u8>, signature: Seq<u8>) -> bool {
    match s {
        SignatureScheme::ED25519 => ed25519_verifies(key, message, signature),
        SignatureScheme::Secp256k1 => secp256k1_verifies(key, message, signature),
        SignatureScheme::BLS12381 => false,
    }
}

pub open spec fn public_of(s: SignatureScheme, private_key: Seq<u8>) -> Option<Seq<u8>> {
    match s {
        SignatureScheme::ED25519 => ed25519_public_of(private_key),
        SignatureScheme::Secp256k1 => secp256k1_public_of(private_key),
        SignatureScheme::BLS12381 => None,
    }
}

pub open spec fn signature_of(s: SignatureScheme, private_key: Seq<u8>, message: Seq<u8>) -> Option<Seq<u8>> {
    match s {
        SignatureScheme::ED25519 => ed25519_signature_of(private_key, message),
        SignatureScheme::Secp256k1 => secp256k1_signature_of(private_key, message),
        SignatureScheme::BLS12381 => None,
    }
}

/// A valid account public key: an account scheme, and bytes of its length that decode.
pub open spec fn public_key_wf(s: SignatureScheme, key: Seq<u8>) -> bool {
    is_account_scheme(s) && key.len() == public_key_length(s) && key_parses(s, key)
}

fn parses(s: SignatureScheme, key: &[u8]) -> (r: bool)
    ensures
        r == key_parses(s, key@),
{
    match s {
        SignatureScheme::ED25519 => ed25519_public_key_parses(key),
        SignatureScheme::Secp256k1 => secp256k1_public_key_parses(key),
        SignatureScheme::BLS12381 => false,
    }
}

fn verify_with(s: SignatureScheme, key: &[u8], message: &[u8], signature: &[u8]) -> (r: bool)
    ensures
        r == verifies(s, key@, message@, signature@),
{
    match s {
        SignatureScheme::ED25519 => ed25519_verify(key, message, signature),
        SignatureScheme::Secp256k1 => secp256k1_verify(key, message, signature),
        SignatureScheme::BLS12381 => false,
    }
}

/// An account public key: its scheme and its bytes.
pub struct PublicKey {
    scheme: SignatureScheme,
    bytes: Vec<u8>,
}

impl View for PublicKey {
    type V = (SignatureScheme, Seq<u8>);

    closed spec fn view(&self) -> (SignatureScheme, Seq<u8>) {
        (self.scheme, self.bytes@)
    }
}

impl PartialEq for PublicKey {
    fn eq(&self, o: &PublicKey) -> (r: bool) {
        self.scheme == o.scheme && bytes_equal(&self.bytes, &o.bytes)
    }
}

impl vstd::std_specs::cmp::PartialEqSpecImpl for PublicKey {
    open spec fn obeys_eq_spec() -> bool {
        true
    }

    open spec fn eq_spec(&self, o: &PublicKey) -> bool {
        self@ == o@
    }
}

impl Eq for PublicKey {}

/// Whether two byte vectors hold the same bytes.
pub fn bytes_equal(a: &Vec<u8>, b: &Vec<u8>) -> (r: bool)
    ensures
        r == (a@ == b@),
{
    if a.len() != b.len() {
        return false;
    }
    let mut i: usize = 0;
    while i < a.len()
        invariant
            a@.len() == b@.len(),
            i <= a@.len(),
            forall|k: int| 0 <= k < i ==> a@[k] == b@[k],
        decreases a@.len() - i,
    {
        if a[i] != b[i] {
            return false;
        }
        i = i + 1;
    }
    assert(a@ =~= b@);
    true
}

/// The byte form of an account public key: its flag, then its bytes.
pub open spec fn encode_public_key(v: (SignatureScheme, Seq<u8>)) -> Seq<u8> {
    seq![v.0.flag_spec()] + v.1
}

/// Reads the byte form of an account public key.
pub open spec fn decode_public_key(b: Seq<u8>) -> Result<(SignatureScheme, Seq<u8>), SuiError> {
    if b.len() == 0 {
        Err(SuiError::InvalidDecoding)
    } else {
        match crate::scheme::scheme_of_flag(b[0]) {
            None => Err(SuiError::UnsupportedScheme),
            Some(s) => if public_key_wf(s, b.skip(1)) {
                Ok((s, b.skip(1)))
            } else {
                Err(SuiError::InvalidDecoding)
            },
        }
    }
}

impl PublicKey {
    #[verifier::type_invariant]
    spec fn inv(self) -> bool {
        public_key_wf(self.scheme, self.bytes@)
    }

    /// The key of scheme `curve` with bytes `key_bytes`. BLS12-381 keys are not account keys;
    /// bytes of the wrong length, or that do not decode, are refused.
    pub fn try_from_bytes(curve: SignatureScheme, key_bytes: &[u8]) -> (r: Result<PublicKey, SuiError>)
        ensures
            curve is BLS12381 ==> r == Err::<PublicKey, SuiError>(SuiError::UnsupportedScheme),
            !(curve is BLS12381) ==> if public_key_wf(curve, key_bytes@) {
                r matches Ok(pk) && pk@ == (curve, key_bytes@)
            } else {
                r == Err::<PublicKey, SuiError>(SuiError::InvalidDecoding)
            },
    {
        let expected: usize = match curve {
            SignatureScheme::ED25519 => 32,
            SignatureScheme::Secp256k1 => 33,
            SignatureScheme::BLS12381 => {
                return Err(SuiError::UnsupportedScheme);
            },
        };
        if key_bytes.len() != expected || !parses(curve, key_bytes) {
            return Err(SuiError::InvalidDecoding);
        }
        let mut bytes: Vec<u8> = Vec::new();
        append_bytes(&mut bytes, key_bytes);
        assert(bytes@ =~= key_bytes@);
        Ok(PublicKey { scheme: curve, bytes })
    }

    /// Every key satisfies the invariant of keys.
    pub fn wf(&self) -> (r: bool)
        ensures
            r,
            public_key_wf(self@.0, self@.1),
    {
        proof {
            use_type_invariant(self);
        }
        true
    }

    pub fn scheme(&self) -> (r: SignatureScheme)
        ensures
            r == self@.0,
    {
        self.scheme
    }

    pub fn flag(&self) -> (r: u8)
        ensures
            r == self@.0.flag_spec(),
    {
        self.scheme.flag()
    }

    pub fn as_bytes(&self) -> (r: Vec<u8>)
        ensures
            r@ == self@.1,
    {
        clone_bytes(&self.bytes)
    }

    /// The byte form: flag, then key bytes.
    pub fn encode(&self) -> (r: Vec<u8>)
        ensures
            r@ == encode_public_key(self@),
    {
        let mut r: Vec<u8> = Vec::new();
        r.push(self.flag());
        append_bytes(&mut r, self.bytes.as_slice());
        proof {
            assert(r@ =~= encode_public_key(self@));
        }
        r
    }

    /// Reads the byte form of a key.
    pub fn decode(bytes: &[u8]) -> (r: Result<PublicKey, SuiError>)
        ensures
            match decode_public_key(bytes@) {
                Ok(v) => r matches Ok(pk) && pk@ == v,
                Err(e) => r == Err::<PublicKey, SuiError>(e),
            },
    {
        if bytes.len() == 0 {
            return Err(SuiError::InvalidDecoding);
        }
        let scheme = match SignatureScheme::from_flag_byte(bytes[0]) {
            Ok(s) => s,
            Err(_) => {
                return Err(SuiError::UnsupportedScheme);
            },
        };
        let rest = slice_from(bytes, 1);
        PublicKey::try_from_bytes(scheme, rest.as_slice())
    }

    /// The Base64 text of the byte form.
    pub fn encode_base64(&self) -> (r: String)
        ensures
            r@ == base64_of(encode_public_key(self@)),
            base64_decoded_of(r@) == Some(encode_public_key(self@)),
    {
        let bytes = self.encode();
        base64_encode(bytes.as_slice())
    }

    /// Reads the Base64 text of the byte form of a key.
    pub fn decode_base64(value: &str) -> (r: Result<PublicKey, SuiError>)
        ensures
            match base64_decoded_of(value@) {
                None => r == Err::<PublicKey, SuiError>(SuiError::InvalidDecoding),
                Some(b) => match decode_public_key(b) {
                    Ok(v) => r matches Ok(pk) && pk@ == v,
                    Err(e) => r == Err::<PublicKey, SuiError>(e),
                },
            },
    {
        match base64_decode(value) {
            Some(bytes) => PublicKey::decode(bytes.as_slice()),
            None => Err(SuiError::InvalidDecoding),
        }
    }
}

/// The address of the account key `key` of scheme `s`: the first 20 bytes of the SHA3-256
/// digest of its flag and its bytes.
pub open spec fn is_address_of(a: SuiAddress, s: SignatureScheme, key: Seq<u8>) -> bool {
    a.0@ == sha3_256_of(seq![s.flag_spec()] + key).take(20)
}

/// The address that a key of scheme `s` with bytes `key` controls.
pub fn address_of_key(s: SignatureScheme, key: &[u8]) -> (r: SuiAddress)
    ensures
        is_address_of(r, s, key@),
{
    let mut data: Vec<u8> = Vec::new();
    data.push(s.flag());
    append_bytes(&mut data, key);
    let digest = sha3_256(data.as_slice());
    let mut a: [u8; 20] = [0u8; 20];
    let mut i: usize = 0;
    while i < 20
        invariant
            i <= 20,
            digest@.len() == 32,
            a@.len() == 20,
            forall|k: int| 0 <= k < i ==> a@[k] == digest@[k],
        decreases 20 - i,
    {
        a.set(i, digest[i]);
        i = i + 1;
    }
    proof {
        assert(data@ =~= seq![s.flag_spec()] + key@);
        assert(a@ =~= digest@.take(20));
    }
    SuiAddress(a)
}

impl SuiAddress {
    /// The address that the account key `pk` controls.
    pub fn from_public_key(pk: &PublicKey) -> (r: SuiAddress)
        ensures
            is_address_of(r, pk@.0, pk@.1),
    {
        address_of_key(pk.scheme, pk.bytes.as_slice())
    }
}

/// Copies exactly `N` bytes into an array.
fn array_of<const N: usize>(b: &[u8]) -> (r: [u8; N])
    requires
        b@.len() == N,
    ensures
        r@ == b@,
{
    let mut a: [u8; N] = [0u8; N];
    let mut i: usize = 0;
    while i < N
        invariant
            i <= N,
            b@.len() == N,
            a@.len() == N,
            forall|k: int| 0 <= k < i ==> a@[k] == b@[k],
        decreases N - i,
    {
        a.set(i, b[i]);
        i = i + 1;
    }
    assert(a@ =~= b@);
    a
}

/// The 97 bytes of an Ed25519 account signature: flag 0, signature, public key.
#[derive(Debug, Clone, Copy)]
pub struct Ed25519SuiSignature([u8; 97]);

/// The 98 bytes of a Secp256k1 account signature: flag 1, signature, public key.
#[derive(Debug, Clone, Copy)]
pub struct Secp256k1SuiSignature([u8; 98]);

impl Ed25519SuiSignature {
    #[verifier::type_invariant]
    spec fn inv(self) -> bool {
        self.0@[0] == 0x00
    }

    pub closed spec fn bytes(self) -> Seq<u8> {
        self.0@
    }

    /// Reads the 97 bytes of such a signature; fails for any other length or flag.
    pub fn from_bytes(bytes: &[u8]) -> (r: Result<Ed25519SuiSignature, SuiError>)
        ensures
            r is Ok <==> bytes@.len() == 97 && bytes@[0] == 0x00,
            r matches Ok(sig) ==> sig.bytes() == bytes@,
            r matches Err(e) ==> e == SuiError::InvalidDecoding,
    {
        if bytes.len() != 97 || bytes[0] != 0x00 {
            return Err(SuiError::InvalidDecoding);
        }
        Ok(Ed25519SuiSignature(array_of::<97>(bytes)))
    }

    /// The bytes: flag, signature, public key.
    pub fn as_bytes(&self) -> (r: Vec<u8>)
        ensures
            r@ == self.bytes(),
            r@.len() == 97,
            r@[0] == 0x00,
    {
        proof {
            use_type_invariant(self);
        }
        let mut r: Vec<u8> = Vec::new();
        append_bytes(&mut r, self.0.as_slice());
        r
    }
}

impl Secp256k1SuiSignature {
    #[verifier::type_invariant]
    spec fn inv(self) -> bool {
        self.0@[0] == 0x01
    }

    pub closed spec fn bytes(self) -> Seq<u8> {
        self.0@
    }

    /// Reads the 98 bytes of such a signature; fails for any other length or flag.
    pub fn from_bytes(bytes: &[u8]) -> (r: Result<Secp256k1SuiSignature, SuiError>)
        ensures
            r is Ok <==> bytes@.len() == 98 && bytes@[0] == 0x01,
            r matches Ok(sig) ==> sig.bytes() == bytes@,
            r matches Err(e) ==> e == SuiError::InvalidDecoding,
    {
        if bytes.len() != 98 || bytes[0] != 0x01 {
            return Err(SuiError::InvalidDecoding);
        }
        Ok(Secp256k1SuiSignature(array_of::<98>(bytes)))
    }

    /// The bytes: flag, signature, public key.
    pub fn as_bytes(&self) -> (r: Vec<u8>)
        ensures
            r@ == self.bytes(),
            r@.len() == 98,
            r@[0] == 0x01,
    {
        proof {
            use_type_invariant(self);
        }
        let mut r: Vec<u8> = Vec::new();
        append_bytes(&mut r, self.0.as_slice());
        r
    }
}

/// An account signature of one of the account schemes, with the key that made it.
#[derive(Debug, Clone, Copy)]
pub enum Signature {
    Ed25519SuiSignature(Ed25519SuiSignature),
    Secp256k1SuiSignature(Secp256k1SuiSignature),
}

/// The bytes of an account signature: a known flag, then a signature and a public key of
/// the lengths that its scheme fixes.
pub open spec fn signature_bytes_wf(b: Seq<u8>) -> bool {
    b.len() > 0 && match crate::scheme::scheme_of_flag(b[0]) {
        Some(s) => b.len() == 1 + 64 + public_key_length(s),
        None => false,
    }
}

/// Reads the bytes of an account signature.
pub open spec fn decode_signature(b: Seq<u8>) -> Result<Seq<u8>, SuiError> {
    if b.len() == 0 {
        Err(SuiError::InvalidDecoding)
    } else if crate::scheme::scheme_of_flag(b[0]) is None {
        Err(SuiError::UnsupportedScheme)
    } else if signature_bytes_wf(b) {
        Ok(b)
    } else {
        Err(SuiError::InvalidDecoding)
    }
}

/// The scheme that the flag of signature bytes `b` names.
pub open spec fn signature_scheme_of(b: Seq<u8>) -> SignatureScheme {
    if b[0] == 0x00 {
        SignatureScheme::ED25519
    } else {
        SignatureScheme::Secp256k1
    }
}

/// The signature part of signature bytes.
pub open spec fn signature_part(b: Seq<u8>) -> Seq<u8> {
    b.subrange(1, 65)
}

/// The public key part of signature bytes.
pub open spec fn key_part(b: Seq<u8>) -> Seq<u8> {
    b.skip(65)
}

impl View for Signature {
    type V = Seq<u8>;

    closed spec fn view(&self) -> Seq<u8> {
        match self {
            Signature::Ed25519SuiSignature(s) => s.0@,
            Signature::Secp256k1SuiSignature(s) => s.0@,
        }
    }
}

impl PartialEq for Signature {
    fn eq(&self, o: &Signature) -> (r: bool) {
        let a = self.as_bytes();
        let b = o.as_bytes();
        bytes_equal(&a, &b)
    }
}

impl vstd::std_specs::cmp::PartialEqSpecImpl for Signature {
    open spec fn obeys_eq_spec() -> bool {
        true
    }

    open spec fn eq_spec(&self, o: &Signature) -> bool {
        self@ == o@
    }
}

impl Eq for Signature {}

impl Signature {
    /// Reads the bytes of an account signature.
    pub fn from_bytes(bytes: &[u8]) -> (r: Result<Signature, SuiError>)
        ensures
            match decode_signature(bytes@) {
                Ok(v) => r matches Ok(s) && s@ == v,
                Err(e) => r == Err::<Signature, SuiError>(e),
            },
    {
        if bytes.len() == 0 {
            return Err(SuiError::InvalidDecoding);
        }
        if bytes[0] == 0x00 {
            if bytes.len() != 97 {
                return Err(SuiError::InvalidDecoding);
            }
            Ok(Signature::Ed25519SuiSignature(Ed25519SuiSignature(array_of::<97>(bytes))))
        } else if bytes[0] == 0x01 {
            if bytes.len() != 98 {
                return Err(SuiError::InvalidDecoding);
            }
            Ok(Signature::Secp256k1SuiSignature(Secp256k1SuiSignature(array_of::<98>(bytes))))
        } else {
            Err(SuiError::UnsupportedScheme)
        }
    }

    /// The bytes: flag, signature, public key.
    pub fn as_bytes(&self) -> (r: Vec<u8>)
        ensures
            r@ == self@,
            signature_bytes_wf(self@),
    {
        let mut r: Vec<u8> = Vec::new();
        match self {
            Signature::Ed25519SuiSignature(s) => {
                proof {
                    use_type_invariant(s);
                }
                append_bytes(&mut r, s.0.as_slice());
            },
            Signature::Secp256k1SuiSignature(s) => {
                proof {
                    use_type_invariant(s);
                }
                append_bytes(&mut r, s.0.as_slice());
            },
        }
        proof {
            assert(r@ =~= self@);
        }
        r
    }

    pub fn scheme(&self) -> (r: SignatureScheme)
        ensures
            r == signature_scheme_of(self@),
            is_account_scheme(r),
    {
        match self {
            Signature::Ed25519SuiSignature(s) => {
                proof {
                    use_type_invariant(s);
                }
                SignatureScheme::ED25519
            },
            Signature::Secp256k1SuiSignature(s) => {
                proof {
                    use_type_invariant(s);
                }
                SignatureScheme::Secp256k1
            },
        }
    }

    /// The signature part.
    pub fn signature_bytes(&self) -> (r: Vec<u8>)
        ensures
            r@ == signature_part(self@),
    {
        let b = self.as_bytes();
        let mut r: Vec<u8> = Vec::new();
        let mut i: usize = 1;
        while i < 65
            invariant
                1 <= i <= 65,
                b@.len() >= 97,
                r@ == b@.subrange(1, i as int),
            decreases 65 - i,
        {
            r.push(b[i]);
            i = i + 1;
            assert(r@ =~= b@.subrange(1, i as int));
        }
        r
    }

    /// The public key part.
    pub fn public_key_bytes(&self) -> (r: Vec<u8>)
        ensures
            r@ == key_part(self@),
            signature_bytes_wf(self@),
    {
        let b = self.as_bytes();
        slice_from(b.as_slice(), 65)
    }

    /// The signature and the key to check it with, provided the key decodes and controls
    /// `author`.
    pub fn get_verification_inputs(&self, author: SuiAddress) -> (r: Result<(Vec<u8>, PublicKey), SuiError>)
        ensures
            !key_parses(signature_scheme_of(self@), key_part(self@)) ==> r == Err::<
                (Vec<u8>, PublicKey),
                SuiError,
            >(SuiError::KeyConversionError),
            key_parses(signature_scheme_of(self@), key_part(self@)) && !is_address_of(
                author,
                signature_scheme_of(self@),
                key_part(self@),
            ) ==> (r matches Err(SuiError::IncorrectSigner { expected, given }) && expected
                == author && is_address_of(given, signature_scheme_of(self@), key_part(self@))),
            key_parses(signature_scheme_of(self@), key_part(self@)) && is_address_of(
                author,
                signature_scheme_of(self@),
                key_part(self@),
            ) ==> (r matches Ok((sig, pk)) && sig@ == signature_part(self@) && pk@ == (
                signature_scheme_of(self@),
                key_part(self@),
            )),
    {
        let scheme = self.scheme();
        let key = self.public_key_bytes();
        let pk = match PublicKey::try_from_bytes(scheme, key.as_slice()) {
            Ok(pk) => pk,
            Err(_) => {
                return Err(SuiError::KeyConversionError);
            },
        };
        let received = SuiAddress::from_public_key(&pk);
        proof {
            broadcast use vstd::array::axiom_array_ext_equal;

            if is_address_of(author, scheme, key@) {
                assert(received.0 =~= author.0);
            }
        }
        if !(received == author) {
            return Err(SuiError::IncorrectSigner { expected: author, given: received });
        }
        Ok((self.signature_bytes(), pk))
    }

    /// Checks this signature over the canonical encoding of `value`, made by the key that
    /// controls `author`.
    pub fn verify<T: Signable>(&self, value: &T, author: SuiAddress) -> (r: Result<(), SuiError>)
        requires
            value.encodable(),
        ensures
            r is Ok <==> key_parses(signature_scheme_of(self@), key_part(self@)) && is_address_of(
                author,
                signature_scheme_of(self@),
                key_part(self@),
            ) && verifies(
                signature_scheme_of(self@),
                key_part(self@),
                value.signable_spec(),
                signature_part(self@),
            ),
            !key_parses(signature_scheme_of(self@), key_part(self@)) ==> r == Err::<(), SuiError>(
                SuiError::KeyConversionError,
            ),
            key_parses(signature_scheme_of(self@), key_part(self@)) && !is_address_of(
                author,
                signature_scheme_of(self@),
                key_part(self@),
            ) ==> (r matches Err(SuiError::IncorrectSigner { expected, given }) && expected
                == author && is_address_of(given, signature_scheme_of(self@), key_part(self@))),
            key_parses(signature_scheme_of(self@), key_part(self@)) && is_address_of(
                author,
                signature_scheme_of(self@),
                key_part(self@),
            ) && !verifies(
                signature_scheme_of(self@),
                key_part(self@),
                value.signable_spec(),
                signature_part(self@),
            ) ==> r == Err::<(), SuiError>(SuiError::InvalidSignature),
    {
        let mut message: Vec<u8> = Vec::new();
        value.write(&mut message);
        assert(message@ =~= value.signable_spec());
        self.verify_bytes(&message, author)
    }

    /// Checks this signature over the bytes `value`, made by the key that controls `author`.
    pub fn verify_bytes(&self, value: &Vec<u8>, author: SuiAddress) -> (r: Result<(), SuiError>)
        ensures
            r is Ok <==> key_parses(signature_scheme_of(self@), key_part(self@)) && is_address_of(
                author,
                signature_scheme_of(self@),
                key_part(self@),
            ) && verifies(
                signature_scheme_of(self@),
                key_part(self@),
                value@,
                signature_part(self@),
            ),
            !key_parses(signature_scheme_of(self@), key_part(self@)) ==> r == Err::<(), SuiError>(
                SuiError::KeyConversionError,
            ),
            key_parses(signature_scheme_of(self@), key_part(self@)) && !is_address_of(
                author,
                signature_scheme_of(self@),
                key_part(self@),
            ) ==> (r matches Err(SuiError::IncorrectSigner { expected, given }) && expected
                == author && is_address_of(given, signature_scheme_of(self@), key_part(self@))),
            key_parses(signature_scheme_of(self@), key_part(self@)) && is_address_of(
                author,
                signature_scheme_of(self@),
                key_part(self@),
            ) && !verifies(
                signature_scheme_of(self@),
                key_part(self@),
                value@,
                signature_part(self@),
            ) ==> r == Err::<(), SuiError>(SuiError::InvalidSignature),
    {
        let (sig, pk) = match self.get_verification_inputs(author) {
            Ok(p) => p,
            Err(e) => {
                return Err(e);
            },
        };
        if verify_with(pk.scheme, pk.bytes.as_slice(), value.as_slice(), sig.as_slice()) {
            Ok(())
        } else {
            Err(SuiError::InvalidSignature)
        }
    }

    /// Account signatures cannot join a batch: this checks the signature over the message of
    /// slot `idx` at once.
    pub fn add_to_verification_obligation_or_verify(
        &self,
        author: SuiAddress,
        obligation: &mut VerificationObligation,
        idx: usize,
    ) -> (r: Result<(), SuiError>)
        requires
            old(obligation).wf(),
            idx < old(obligation).messages@.len(),
        ensures
            *final(obligation) == *old(obligation),
            r is Ok <==> key_parses(signature_scheme_of(self@), key_part(self@)) && is_address_of(
                author,
                signature_scheme_of(self@),
                key_part(self@),
            ) && verifies(
                signature_scheme_of(self@),
                key_part(self@),
                old(obligation).messages@[idx as int]@,
                signature_part(self@),
            ),
            !key_parses(signature_scheme_of(self@), key_part(self@)) ==> r == Err::<(), SuiError>(
                SuiError::KeyConversionError,
            ),
            key_parses(signature_scheme_of(self@), key_part(self@)) && !is_address_of(
                author,
                signature_scheme_of(self@),
                key_part(self@),
            ) ==> (r matches Err(SuiError::IncorrectSigner { expected, given }) && expected
                == author && is_address_of(given, signature_scheme_of(self@), key_part(self@))),
            key_parses(signature_scheme_of(self@), key_part(self@)) && is_address_of(
                author,
                signature_scheme_of(self@),
                key_part(self@),
            ) && !verifies(
                signature_scheme_of(self@),
                key_part(self@),
                old(obligation).messages@[idx as int]@,
                signature_part(self@),
            ) ==> r == Err::<(), SuiError>(SuiError::InvalidSignature),
    {
        let (sig, pk) = match self.get_verification_inputs(author) {
            Ok(p) => p,
            Err(e) => {
                return Err(e);
            },
        };
        match obligation.add_signature_and_public_key(ObligationSignature::Unbatchable, idx) {
            Ok(()) => Ok(()),
            Err(_) => {
                let message = obligation.messages[idx].as_slice();
                if verify_with(pk.scheme, pk.bytes.as_slice(), message, sig.as_slice()) {
                    Ok(())
                } else {
                    Err(SuiError::InvalidSignature)
                }
            },
        }
    }

    /// Signs the canonical encoding of `value` with `secret`.
    pub fn new<T: Signable>(value: &T, secret: &SuiKeyPair) -> (r: Signature)
        requires
            value.encodable(),
        ensures
            signature_of(secret@.0, secret@.1, value.signable_spec()) == Some(signature_part(r@)),
            signature_scheme_of(r@) == secret@.0,
            key_part(r@) == secret.public_key_bytes(),
            public_key_wf(secret@.0, key_part(r@)),
            verifies(secret@.0, key_part(r@), value.signable_spec(), signature_part(r@)),
    {
        let mut message: Vec<u8> = Vec::new();
        value.write(&mut message);
        assert(message@ =~= value.signable_spec());
        secret.try_sign(&message)
    }
}

/// The byte form of an account key pair: flag, public key, then private key.
pub open spec fn encode_key_pair(s: SignatureScheme, public: Seq<u8>, private: Seq<u8>) -> Seq<u8> {
    seq![s.flag_spec()] + public + private
}

/// Reads the byte form of an account key pair as its scheme and private key; the public key
/// is not read but rebuilt from the private key.
pub open spec fn decode_key_pair(b: Seq<u8>) -> Result<(SignatureScheme, Seq<u8>), SuiError> {
    if b.len() == 0 {
        Err(SuiError::InvalidDecoding)
    } else {
        match crate::scheme::scheme_of_flag(b[0]) {
            None => Err(SuiError::UnsupportedScheme),
            Some(s) => if b.len() < 1 + public_key_length(s) {
                Err(SuiError::InvalidDecoding)
            } else if public_of(s, b.skip(1 + public_key_length(s) as int)) is None {
                Err(SuiError::InvalidPrivateKey)
            } else {
                Ok((s, b.skip(1 + public_key_length(s) as int)))
            },
        }
    }
}

/// An account key pair: its scheme, private key bytes, and the public key that belongs to
/// them.
pub struct SuiKeyPair {
    scheme: SignatureScheme,
    private: Vec<u8>,
    public: Vec<u8>,
}

impl View for SuiKeyPair {
    type V = (SignatureScheme, Seq<u8>);

    /// The scheme and the private key.
    closed spec fn view(&self) -> (SignatureScheme, Seq<u8>) {
        (self.scheme, self.private@)
    }
}

impl SuiKeyPair {
    #[verifier::type_invariant]
    spec fn inv(self) -> bool {
        &&& public_of(self.scheme, self.private@) == Some(self.public@)
        &&& public_key_wf(self.scheme, self.public@)
    }

    pub closed spec fn public_key_bytes(&self) -> Seq<u8> {
        self.public@
    }

    /// The key pair of scheme `scheme` with the private key `bytes`.
    pub fn from_private_bytes(scheme: SignatureScheme, bytes: Vec<u8>) -> (r: Result<SuiKeyPair, SuiError>)
        ensures
            scheme is BLS12381 ==> r == Err::<SuiKeyPair, SuiError>(SuiError::UnsupportedScheme),
            !(scheme is BLS12381) ==> match public_of(scheme, bytes@) {
                None => r == Err::<SuiKeyPair, SuiError>(SuiError::InvalidPrivateKey),
                Some(p) => r matches Ok(kp) && kp@ == (scheme, bytes@) && kp.public_key_bytes() == p,
            },
    {
        let public = match scheme {
            SignatureScheme::ED25519 => ed25519_public(&bytes),
            SignatureScheme::Secp256k1 => secp256k1_public(&bytes),
            SignatureScheme::BLS12381 => {
                return Err(SuiError::UnsupportedScheme);
            },
        };
        match public {
            Some(public) => Ok(SuiKeyPair { scheme, private: bytes, public }),
            None => Err(SuiError::InvalidPrivateKey),
        }
    }

    pub fn scheme(&self) -> (r: SignatureScheme)
        ensures
            r == self@.0,
    {
        self.scheme
    }

    pub fn public(&self) -> (r: PublicKey)
        ensures
            r@ == (self@.0, self.public_key_bytes()),
            public_of(self@.0, self@.1) == Some(r@.1),
    {
        proof {
            use_type_invariant(self);
        }
        PublicKey { scheme: self.scheme, bytes: clone_bytes(&self.public) }
    }

    pub fn private_bytes(&self) -> (r: Vec<u8>)
        ensures
            r@ == self@.1,
    {
        clone_bytes(&self.private)
    }

    /// Signs `message`: flag, signature, then public key.
    pub fn try_sign(&self, message: &Vec<u8>) -> (r: Signature)
        ensures
            signature_of(self@.0, self@.1, message@) == Some(signature_part(r@)),
            signature_scheme_of(r@) == self@.0,
            key_part(r@) == self.public_key_bytes(),
            public_key_wf(self@.0, key_part(r@)),
            verifies(self@.0, key_part(r@), message@, signature_part(r@)),
    {
        proof {
            use_type_invariant(self);
        }
        let sig = match self.scheme {
            SignatureScheme::ED25519 => ed25519_sign(&self.private, message),
            SignatureScheme::Secp256k1 => secp256k1_sign(&self.private, message),
            SignatureScheme::BLS12381 => None,
        };
        let sig = match sig {
            Some(s) => s,
            None => Vec::new(),
        };
        let mut bytes: Vec<u8> = Vec::new();
        bytes.push(self.scheme.flag());
        append_bytes(&mut bytes, sig.as_slice());
        append_bytes(&mut bytes, self.public.as_slice());
        let ghost b = bytes@;
        proof {
            assert(b.subrange(1, 65) =~= sig@);
            assert(b.skip(65) =~= self.public@);
        }
        match self.scheme {
            SignatureScheme::ED25519 => Signature::Ed25519SuiSignature(Ed25519SuiSignature(array_of::<97>(bytes.as_slice()))),
            _ => Signature::Secp256k1SuiSignature(Secp256k1SuiSignature(array_of::<98>(bytes.as_slice()))),
        }
    }

    /// The byte form: flag, public key, private key.
    pub fn encode(&self) -> (r: Vec<u8>)
        ensures
            r@ == encode_key_pair(self@.0, self.public_key_bytes(), self@.1),
    {
        let mut r: Vec<u8> = Vec::new();
        r.push(self.scheme.flag());
        append_bytes(&mut r, self.public.as_slice());
        append_bytes(&mut r, self.private.as_slice());
        proof {
            assert(r@ =~= encode_key_pair(self@.0, self.public_key_bytes(), self@.1));
        }
        r
    }

    /// Reads the byte form of a key pair: the key pair is rebuilt from the private key.
    pub fn decode(bytes: &[u8]) -> (r: Result<SuiKeyPair, SuiError>)
        ensures
            match decode_key_pair(bytes@) {
                Ok(v) => r matches Ok(kp) && kp@ == v && public_of(v.0, v.1) == Some(
                    kp.public_key_bytes(),
                ),
                Err(e) => r == Err::<SuiKeyPair, SuiError>(e),
            },
    {
        if bytes.len() == 0 {
            return Err(SuiError::InvalidDecoding);
        }
        let scheme = match SignatureScheme::from_flag_byte(bytes[0]) {
            Ok(s) => s,
            Err(_) => {
                return Err(SuiError::UnsupportedScheme);
            },
        };
        let key_length: usize = match scheme {
            SignatureScheme::ED25519 => 32,
            _ => 33,
        };
        if bytes.len() < 1 + key_length {
            return Err(SuiError::InvalidDecoding);
        }
        let private = slice_from(bytes, 1 + key_length);
        SuiKeyPair::from_private_bytes(scheme, private)
    }

    /// The Base64 text of the byte form.
    pub fn encode_base64(&self) -> (r: String)
        ensures
            r@ == base64_of(encode_key_pair(self@.0, self.public_key_bytes(), self@.1)),
            base64_decoded_of(r@) == Some(encode_key_pair(self@.0, self.public_key_bytes(), self@.1)),
    {
        let bytes = self.encode();
        base64_encode(bytes.as_slice())
    }

    /// Reads the Base64 text of the byte form of a key pair.
    pub fn decode_base64(value: &str) -> (r: Result<SuiKeyPair, SuiError>)
        ensures
            match base64_decoded_of(value@) {
                None => r == Err::<SuiKeyPair, SuiError>(SuiError::InvalidDecoding),
                Some(b) => match decode_key_pair(b) {
                    Ok(v) => r matches Ok(kp) && kp@ == v && public_of(v.0, v.1) == Some(
                        kp.public_key_bytes(),
                    ),
                    Err(e) => r == Err::<SuiKeyPair, SuiError>(e),
                },
            },
    {
        match base64_decode(value) {
            Some(bytes) => SuiKeyPair::decode(bytes.as_slice()),
            None => Err(SuiError::InvalidDecoding),
        }
    }
}

/// A fresh account key pair of scheme `key_scheme` drawn from `rng`, with its address.
pub fn random_key_pair_by_type_from_rng(key_scheme: SignatureScheme, csprng: &mut rand::rngs::StdRng) -> (r:
    Result<(SuiAddress, SuiKeyPair), SuiError>)
    ensures
        key_scheme is BLS12381 <==> r is Err,
        r matches Err(e) ==> e == SuiError::UnsupportedScheme,
        r matches Ok((a, kp)) ==> kp@.0 == key_scheme && is_address_of(a, key_scheme, kp.public_key_bytes()),
{
    let (private, public) = match key_scheme {
        SignatureScheme::ED25519 => ed25519_generate(csprng),
        SignatureScheme::Secp256k1 => secp256k1_generate(csprng),
        SignatureScheme::BLS12381 => {
            return Err(SuiError::UnsupportedScheme);
        },
    };
    let address = address_of_key(key_scheme, public.as_slice());
    Ok((address, SuiKeyPair { scheme: key_scheme, private, public }))
}

/// Reads a key pair of scheme `key_scheme` from its private key (32 bytes) followed by its
/// public key, and returns it with its address; the public key must be the one that belongs
/// to the private key.
pub fn get_key_pair_from_bytes(key_scheme: SignatureScheme, bytes: &[u8]) -> (r: Result<(SuiAddress, SuiKeyPair), SuiError>)
    ensures
        key_scheme is BLS12381 ==> r == Err::<(SuiAddress, SuiKeyPair), SuiError>(
            SuiError::UnsupportedScheme,
        ),
        !(key_scheme is BLS12381) ==> if bytes@.len() < 32 || public_of(key_scheme, bytes@.take(32)) is None {
            r == Err::<(SuiAddress, SuiKeyPair), SuiError>(SuiError::InvalidPrivateKey)
        } else if public_of(key_scheme, bytes@.take(32)) != Some(bytes@.skip(32)) {
            r == Err::<(SuiAddress, SuiKeyPair), SuiError>(SuiError::InvalidAddress)
        } else {
            r matches Ok((a, kp)) && kp@ == (key_scheme, bytes@.take(32)) && is_address_of(
                a,
                key_scheme,
                bytes@.skip(32),
            )
        },
{
    if key_scheme == SignatureScheme::BLS12381 {
        return Err(SuiError::UnsupportedScheme);
    }
    if bytes.len() < 32 {
        return Err(SuiError::InvalidPrivateKey);
    }
    let mut private: Vec<u8> = Vec::new();
    let mut i: usize = 0;
    while i < 32
        invariant
            i <= 32,
            bytes@.len() >= 32,
            private@ == bytes@.take(i as int),
        decreases 32 - i,
    {
        private.push(bytes[i]);
        i = i + 1;
        assert(private@ =~= bytes@.take(i as int));
    }
    let kp = match SuiKeyPair::from_private_bytes(key_scheme, private) {
        Ok(kp) => kp,
        Err(_) => {
            return Err(SuiError::InvalidPrivateKey);
        },
    };
    let given = slice_from(bytes, 32);
    let public = kp.public();
    let derived = public.as_bytes();
    if !bytes_equal(&derived, &given) {
        return Err(SuiError::InvalidAddress);
    }
    let address = SuiAddress::from_public_key(&public);
    Ok((address, kp))
}

/// Round trip of account keys and signatures: the byte form of every valid public key reads
/// back as that key, and bytes that read as a key are its byte form; likewise the bytes of
/// every valid signature read back as that signature.
pub proof fn lemma_round_trip(key: (SignatureScheme, Seq<u8>), b: Seq<u8>, sig: Seq<u8>)
    ensures
        public_key_wf(key.0, key.1) ==> decode_public_key(encode_public_key(key)) == Ok::<
            (SignatureScheme, Seq<u8>),
            SuiError,
        >(key),
        decode_public_key(b) matches Ok(v) ==> encode_public_key(v) == b,
        signature_bytes_wf(sig) ==> decode_signature(sig) == Ok::<Seq<u8>, SuiError>(sig),
        decode_signature(sig) matches Ok(v) ==> v == sig,
{
    if public_key_wf(key.0, key.1) {
        let e = encode_public_key(key);
        assert(e.skip(1) =~= key.1);
        assert(e[0] == key.0.flag_spec());
    }
    if decode_public_key(b) is Ok {
        assert(encode_public_key((crate::scheme::scheme_of_flag(b[0])->Some_0, b.skip(1))) =~= b);
    }
}

/// Round trip of account key pairs: the byte form of every key pair reads back as the same
/// scheme and private key, with the same public key.
pub proof fn lemma_key_pair_round_trip(s: SignatureScheme, public: Seq<u8>, private: Seq<u8>)
    requires
        public_of(s, private) == Some(public),
        public_key_wf(s, public),
    ensures
        decode_key_pair(encode_key_pair(s, public, private)) == Ok::<(SignatureScheme, Seq<u8>), SuiError>(
            (s, private),
        ),
{
    let e = encode_key_pair(s, public, private);
    assert(e[0] == s.flag_spec());
    assert(e.skip(1 + public_key_length(s) as int) =~= private);
}

/// A key controls one address only: two addresses of one key are equal.
pub proof fn lemma_address_unique(a: SuiAddress, b: SuiAddress, s: SignatureScheme, key: Seq<u8>)
    requires
        is_address_of(a, s, key),
        is_address_of(b, s, key),
    ensures
        a == b,
{
    broadcast use vstd::array::axiom_array_ext_equal;

    assert(a.0 =~= b.0);
}

} // verus!
