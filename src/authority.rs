use vstd::prelude::*;
use vstd::string::{StrSliceExecFns, StringExecFns};
use crate::base_types::{append_bytes, clone_bytes, AuthorityPublicKeyBytes, SuiAddress};
use crate::bls::{
    bls_generate, bls_key_parses, bls_public, bls_public_key_parses, bls_public_of, bls_sign,
    bls_signature_of, bls_verifies, bls_verify,
};
use crate::certificates::{
    quorum_verify_outcome, single_verify_outcome, AuthoritySignInfo, AuthorityStrongQuorumSignInfo,
    AuthorityWeakQuorumSignInfo, EmptySignInfo,
};
use crate::committee::Committee;
use crate::encoding::Signable;
use crate::error::SuiError;
use crate::obligation::AuthoritySignature;

verus! {

/// The domain tag of a proof of possession.
pub const PROOF_OF_POSSESSION_DOMAIN: [u8; 4] = [0x6b, 0x6f, 0x73, 0x6b];

/// A validator key pair: the private key bytes and the public key that belongs to them.
pub struct AuthorityKeyPair {
    private: Vec<u8>,
    public: AuthorityPublicKeyBytes,
}

impl AuthorityKeyPair {
    #[verifier::type_invariant]
    spec fn inv(self) -> bool {
        bls_public_of(self.private@) == Some(self.public.0@) && bls_key_parses(self.public.0@)
    }

    pub closed spec fn private_key(&self) -> Seq<u8> {
        self.private@
    }

    pub closed spec fn public_key(&self) -> AuthorityPublicKeyBytes {
        self.public
    }

    /// The key pair of the private key `bytes`; fails when they are no private key.
    pub fn from_private_bytes(bytes: Vec<u8>) -> (r: Result<AuthorityKeyPair, SuiError>)
        ensures
            r is Err <==> bls_public_of(bytes@) is None,
            r matches Err(e) ==> e == SuiError::InvalidPrivateKey,
            r matches Ok(kp) ==> kp.private_key() == bytes@ && bls_public_of(bytes@) == Some(
                kp.public_key().0@,
            ),
    {
        match bls_public(&bytes) {
            Some(public) => Ok(AuthorityKeyPair { private: bytes, public: AuthorityPublicKeyBytes(public) }),
            None => Err(SuiError::InvalidPrivateKey),
        }
    }

    /// A fresh key pair drawn from `rng`.
    pub fn generate(rng: &mut rand::rngs::StdRng) -> (r: AuthorityKeyPair)
        ensures
            bls_public_of(r.private_key()) == Some(r.public_key().0@),
    {
        let (private, public) = bls_generate(rng);
        AuthorityKeyPair { private, public: AuthorityPublicKeyBytes(public) }
    }

    pub fn public(&self) -> (r: AuthorityPublicKeyBytes)
        ensures
            r == self.public_key(),
            bls_public_of(self.private_key()) == Some(r.0@),
            bls_key_parses(r.0@),
    {
        proof {
            use_type_invariant(self);
        }
        self.public
    }

    pub fn private_bytes(&self) -> (r: Vec<u8>)
        ensures
            r@ == self.private_key(),
    {
        clone_bytes(&self.private)
    }

    /// Signs the bytes `message`; the signature verifies under the public key.
    pub fn sign(&self, message: &Vec<u8>) -> (r: AuthoritySignature)
        ensures
            bls_signature_of(self.private_key(), message@) == Some(r.0@),
            bls_verifies(self.public_key().0@, message@, r.0@),
            bls_key_parses(self.public_key().0@),
    {
        proof {
            use_type_invariant(self);
        }
        match bls_sign(&self.private, message) {
            Some(sig) => AuthoritySignature(sig),
            None => AuthoritySignature(Vec::new()),
        }
    }
}

/// `n` fresh validator key pairs drawn from `rng`.
pub fn random_key_pairs(num: usize, rng: &mut rand::rngs::StdRng) -> (r: Vec<AuthorityKeyPair>)
    ensures
        r@.len() == num,
        forall|k: int|
            0 <= k < num ==> bls_public_of(#[trigger] r@[k].private_key()) == Some(
                r@[k].public_key().0@,
            ),
{
    let mut r: Vec<AuthorityKeyPair> = Vec::new();
    let mut i: usize = 0;
    while i < num
        invariant
            i <= num,
            r@.len() == i,
            forall|k: int|
                0 <= k < i ==> bls_public_of(#[trigger] r@[k].private_key()) == Some(
                    r@[k].public_key().0@,
                ),
        decreases num - i,
    {
        r.push(AuthorityKeyPair::generate(rng));
        i = i + 1;
    }
    r
}

/// The message of a proof of possession: the domain tag, the public key, then the address.
pub open spec fn proof_of_possession_message(key: AuthorityPublicKeyBytes, address: SuiAddress) -> Seq<u8> {
    PROOF_OF_POSSESSION_DOMAIN@ + key.0@ + address.0@
}

/// Proves that the holder of `keypair` has its private key, bound to `address`.
pub fn generate_proof_of_possession(keypair: &AuthorityKeyPair, address: SuiAddress) -> (r: AuthoritySignature)
    ensures
        bls_signature_of(
            keypair.private_key(),
            proof_of_possession_message(keypair.public_key(), address),
        ) == Some(r.0@),
        bls_verifies(
            keypair.public_key().0@,
            proof_of_possession_message(keypair.public_key(), address),
            r.0@,
        ),
{
    let mut message: Vec<u8> = Vec::new();
    let domain = PROOF_OF_POSSESSION_DOMAIN;
    append_bytes(&mut message, domain.as_slice());
    let public = keypair.public();
    append_bytes(&mut message, public.0.as_slice());
    append_bytes(&mut message, address.0.as_slice());
    proof {
        assert(message@ =~= proof_of_possession_message(keypair.public_key(), address));
    }
    keypair.sign(&message)
}

impl AuthoritySignature {
    /// Signs the canonical encoding of `value` with `secret`.
    pub fn new<T: Signable>(value: &T, secret: &AuthorityKeyPair) -> (r: AuthoritySignature)
        requires
            value.encodable(),
        ensures
            bls_signature_of(secret.private_key(), value.signable_spec()) == Some(r.0@),
            bls_verifies(secret.public_key().0@, value.signable_spec(), r.0@),
            bls_key_parses(secret.public_key().0@),
    {
        let mut message: Vec<u8> = Vec::new();
        value.write(&mut message);
        assert(message@ =~= value.signable_spec());
        secret.sign(&message)
    }

    /// Checks this signature over the canonical encoding of `value` against the key `author`.
    pub fn verify<T: Signable>(&self, value: &T, author: AuthorityPublicKeyBytes) -> (r: Result<(), SuiError>)
        requires
            value.encodable(),
        ensures
            r == if !bls_key_parses(author.0@) {
                Err::<(), SuiError>(SuiError::KeyConversionError)
            } else if bls_verifies(author.0@, value.signable_spec(), self.0@) {
                Ok(())
            } else {
                Err(SuiError::InvalidSignature)
            },
    {
        let mut message: Vec<u8> = Vec::new();
        value.write(&mut message);
        assert(message@ =~= value.signable_spec());
        self.verify_bytes(&message, author)
    }

    /// Checks this signature over the bytes `value` against the key `author`.
    pub fn verify_bytes(&self, value: &Vec<u8>, author: AuthorityPublicKeyBytes) -> (r: Result<(), SuiError>)
        ensures
            r == if !bls_key_parses(author.0@) {
                Err::<(), SuiError>(SuiError::KeyConversionError)
            } else if bls_verifies(author.0@, value@, self.0@) {
                Ok(())
            } else {
                Err(SuiError::InvalidSignature)
            },
    {
        if !bls_public_key_parses(&author) {
            return Err(SuiError::KeyConversionError);
        }
        if bls_verify(&author, value, &self.0) {
            Ok(())
        } else {
            Err(SuiError::InvalidSignature)
        }
    }
}

/// The closed set of ways in which a message can carry committee authority.
pub enum AuthoritySignInfoKind {
    Empty(EmptySignInfo),
    Single(AuthoritySignInfo),
    StrongQuorum(AuthorityStrongQuorumSignInfo),
    WeakQuorum(AuthorityWeakQuorumSignInfo),
}

/// Verifies the authority that `sig` carries over the canonical encoding of `data`.
pub fn add_to_verification_obligation_and_verify<T: Signable>(
    sig: &AuthoritySignInfoKind,
    data: &T,
    committee: &Committee,
) -> (r: Result<(), SuiError>)
    requires
        data.encodable(),
    ensures
        sig is Empty ==> r is Ok,
        sig matches AuthoritySignInfoKind::Single(s) ==> single_verify_outcome(
            committee@,
            s.epoch,
            s.authority,
            s.signature.0@,
            data.signable_spec(),
            r,
        ),
        sig matches AuthoritySignInfoKind::StrongQuorum(q) ==> quorum_verify_outcome(
            committee@,
            q.epoch,
            q.signature.0@,
            q.signers(),
            true,
            data.signable_spec(),
            r,
        ),
        sig matches AuthoritySignInfoKind::WeakQuorum(q) ==> quorum_verify_outcome(
            committee@,
            q.epoch,
            q.signature.0@,
            q.signers(),
            false,
            data.signable_spec(),
            r,
        ),
{
    match sig {
        AuthoritySignInfoKind::Empty(s) => s.verify(data, committee),
        AuthoritySignInfoKind::Single(s) => s.verify(data, committee),
        AuthoritySignInfoKind::StrongQuorum(q) => q.verify(data, committee),
        AuthoritySignInfoKind::WeakQuorum(q) => q.verify(data, committee),
    }
}

/// The lowercase hexadecimal digits.
pub open spec fn hex_digits() -> Seq<char> {
    seq!['0', '1', '2', '3', '4', '5', '6', '7', '8', '9', 'a', 'b', 'c', 'd', 'e', 'f']
}

/// Two lowercase hexadecimal digits per byte, high digit first.
pub open spec fn hex_encode_spec(b: Seq<u8>) -> Seq<char> {
    Seq::new(
        2 * b.len(),
        |i: int|
            if i % 2 == 0 {
                hex_digits()[b[i / 2] as int / 16]
            } else {
                hex_digits()[b[i / 2] as int % 16]
            },
    )
}

/// The value of a hexadecimal digit of either case.
pub open spec fn hex_value(c: char) -> Option<u8> {
    if '0' <= c <= '9' {
        Some((c as u32 - '0' as u32) as u8)
    } else if 'a' <= c <= 'f' {
        Some((c as u32 - 'a' as u32 + 10) as u8)
    } else if 'A' <= c <= 'F' {
        Some((c as u32 - 'A' as u32 + 10) as u8)
    } else {
        None
    }
}

/// The bytes that a hexadecimal text stands for: an even number of digits of either case.
pub open spec fn hex_decode_spec(s: Seq<char>) -> Option<Seq<u8>> {
    if s.len() % 2 == 0 && forall|i: int| 0 <= i < s.len() ==> #[trigger] hex_value(s[i]) is Some {
        Some(
            Seq::new(
                s.len() / 2,
                |i: int| (16 * hex_value(s[2 * i])->Some_0 + hex_value(s[2 * i + 1])->Some_0) as u8,
            ),
        )
    } else {
        None
    }
}

/// Relies on `hex::encode`.
#[verifier::external_body]
fn hex_encode(b: &[u8]) -> (r: String)
    ensures
        r@ == hex_encode_spec(b@),
{
    hex::encode(b)
}

/// Relies on `hex::decode`.
#[verifier::external_body]
fn hex_decode(s: &str) -> (r: Option<Vec<u8>>)
    ensures
        crate::bls::opt_bytes(r) == hex_decode_spec(s@),
{
    hex::decode(s).ok()
}

impl AuthorityPublicKeyBytes {
    /// The all-zero key, which names no validator.
    pub fn zero() -> (r: AuthorityPublicKeyBytes)
        ensures
            forall|i: int| 0 <= i < 96 ==> r.0@[i] == 0,
    {
        AuthorityPublicKeyBytes([0u8; 96])
    }

    /// The text form: `k#`, then the key in lowercase hexadecimal.
    pub fn to_hex_string(&self) -> (r: String)
        ensures
            r@ == "k#"@ + hex_encode_spec(self.0@),
    {
        let digits = hex_encode(self.0.as_slice());
        String::from_str("k#").concat(digits.as_str())
    }

    /// Reads a key written in hexadecimal, with or without a leading `0x`.
    pub fn from_hex_str(s: &str) -> (r: Result<AuthorityPublicKeyBytes, SuiError>)
        ensures
            ({
                let digits = if s@.len() >= 2 && s@[0] == '0' && s@[1] == 'x' {
                    s@.skip(2)
                } else {
                    s@
                };
                match hex_decode_spec(digits) {
                    Some(b) => if b.len() == 96 {
                        r matches Ok(k) && k.0@ == b
                    } else {
                        r == Err::<AuthorityPublicKeyBytes, SuiError>(SuiError::InvalidDecoding)
                    },
                    None => r == Err::<AuthorityPublicKeyBytes, SuiError>(SuiError::InvalidDecoding),
                }
            }),
    {
        let n = s.unicode_len();
        let digits = if n >= 2 && s.get_char(0) == '0' && s.get_char(1) == 'x' {
            let rest = s.substring_char(2, n);
            assert(rest@ =~= s@.skip(2));
            rest
        } else {
            s
        };
        let bytes = match hex_decode(digits) {
            Some(b) => b,
            None => {
                return Err(SuiError::InvalidDecoding);
            },
        };
        if bytes.len() != 96 {
            return Err(SuiError::InvalidDecoding);
        }
        let mut a: [u8; 96] = [0u8; 96];
        let mut i: usize = 0;
        while i < 96
            invariant
                i <= 96,
                bytes@.len() == 96,
                a@.len() == 96,
                forall|k: int| 0 <= k < i ==> a@[k] == bytes@[k],
            decreases 96 - i,
        {
            a.set(i, bytes[i]);
            i = i + 1;
        }
        assert(a@ =~= bytes@);
        Ok(AuthorityPublicKeyBytes(a))
    }
}

} // verus!
