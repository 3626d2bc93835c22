use vstd::prelude::*;
use bip32::{ChildNumber, XPrv};
use crate::base_types::SuiAddress;
use crate::crypto::{is_address_of, public_of, SuiKeyPair};
use crate::error::SuiError;
use crate::scheme::SignatureScheme;

verus! {

/// The flag that marks a hardened child number.
pub const HARDENED: u32 = 0x8000_0000;

/// The purpose level of Ed25519 account paths.
pub const DERIVATION_PATH_PURPOSE_ED25519: u32 = 44;

/// The purpose level of Secp256k1 account paths.
pub const DERIVATION_PATH_PURPOSE_SECP256K1: u32 = 54;

/// The coin type of the ledger.
pub const DERIVATION_PATH_COIN_TYPE: u32 = 784;

/// The child numbers of a key derivation path, each with its hardened flag.
#[derive(Debug, Clone)]
pub struct DerivationPath(pub Vec<u32>);

/// The child numbers of the text path `text` (`m/44'/784'/0'/0'/0'`), if it is one.
pub uninterp spec fn bip32_path_of(text: Seq<char>) -> Option<Seq<u32>>;

/// The Ed25519 private key that SLIP-0010 derives from `seed` along `indexes`.
pub uninterp spec fn slip10_ed25519_of(seed: Seq<u8>, indexes: Seq<u32>) -> Seq<u8>;

/// The Secp256k1 private key that BIP-32 derives from `seed` along `path`, if derivation
/// succeeds.
pub uninterp spec fn bip32_secp256k1_of(seed: Seq<u8>, path: Seq<u32>) -> Option<Seq<u8>>;

/// Relies on `FromStr` for `bip32::DerivationPath`, read as its raw child numbers.
#[verifier::external_body]
fn parse_bip32_path(text: &str) -> (r: Option<Vec<u32>>)
    ensures
        match r {
            Some(v) => bip32_path_of(text@) == Some(v@),
            None => bip32_path_of(text@) is None,
        },
{
    let path: bip32::DerivationPath = text.parse().ok()?;
    Some(path.into_iter().map(u32::from).collect())
}

/// Relies on `slip10_ed25519::derive_ed25519_private_key`.
#[verifier::external_body]
fn slip10_derive(seed: &[u8], indexes: &Vec<u32>) -> (r: Vec<u8>)
    ensures
        r@ == slip10_ed25519_of(seed@, indexes@),
{
    slip10_ed25519::derive_ed25519_private_key(seed, indexes).to_vec()
}

/// Relies on `bip32::XPrv::derive_from_path`, then the private key bytes of the result.
#[verifier::external_body]
fn bip32_derive(seed: &[u8], path: &Vec<u32>) -> (r: Option<Vec<u8>>)
    ensures
        match r {
            Some(v) => bip32_secp256k1_of(seed@, path@) == Some(v@),
            None => bip32_secp256k1_of(seed@, path@) is None,
        },
{
    let mut p = bip32::DerivationPath::default();
    p.extend(path.iter().map(|n| ChildNumber::from(*n)));
    let child = XPrv::derive_from_path(seed, &p).ok()?;
    Some(child.private_key().to_bytes().to_vec())
}

pub open spec fn is_hardened(n: u32) -> bool {
    n >= HARDENED
}

/// The paths that account keys of scheme `s` may be derived along: five levels, the purpose
/// of the scheme, the coin type, then all hardened (Ed25519) or hardened, plain, plain
/// (Secp256k1).
pub open spec fn path_valid(s: SignatureScheme, p: Seq<u32>) -> bool {
    p.len() == 5 && p[1] == DERIVATION_PATH_COIN_TYPE + HARDENED && is_hardened(p[2]) && match s {
        SignatureScheme::ED25519 => p[0] == DERIVATION_PATH_PURPOSE_ED25519 + HARDENED
            && is_hardened(p[3]) && is_hardened(p[4]),
        SignatureScheme::Secp256k1 => p[0] == DERIVATION_PATH_PURPOSE_SECP256K1 + HARDENED
            && !is_hardened(p[3]) && !is_hardened(p[4]),
        SignatureScheme::BLS12381 => false,
    }
}

/// The path used when none is given: the first account of the scheme.
pub open spec fn default_path(s: SignatureScheme) -> Seq<u32> {
    match s {
        SignatureScheme::Secp256k1 => seq![
            (DERIVATION_PATH_PURPOSE_SECP256K1 + HARDENED) as u32,
            (DERIVATION_PATH_COIN_TYPE + HARDENED) as u32,
            HARDENED,
            0u32,
            0u32,
        ],
        _ => seq![
            (DERIVATION_PATH_PURPOSE_ED25519 + HARDENED) as u32,
            (DERIVATION_PATH_COIN_TYPE + HARDENED) as u32,
            HARDENED,
            HARDENED,
            HARDENED,
        ],
    }
}

/// The private key that derivation gives for scheme `s` from `seed` along `path`.
pub open spec fn derived_private_key(s: SignatureScheme, seed: Seq<u8>, path: Seq<u32>) -> Option<Seq<u8>> {
    match s {
        SignatureScheme::ED25519 => Some(slip10_ed25519_of(seed, path)),
        SignatureScheme::Secp256k1 => bip32_secp256k1_of(seed, path),
        SignatureScheme::BLS12381 => None,
    }
}

/// The path that derivation follows: the given one, or the scheme's default.
pub open spec fn chosen_path(s: SignatureScheme, path: Option<DerivationPath>) -> Seq<u32> {
    match path {
        Some(p) => p.0@,
        None => default_path(s),
    }
}

impl DerivationPath {
    /// Reads a text path such as `m/44'/784'/0'/0'/0'`.
    pub fn parse(text: &str) -> (r: Option<DerivationPath>)
        ensures
            match bip32_path_of(text@) {
                Some(p) => r matches Some(d) && d.0@ == p,
                None => r is None,
            },
    {
        match parse_bip32_path(text) {
            Some(v) => Some(DerivationPath(v)),
            None => None,
        }
    }
}

/// The path to derive an account key of scheme `key_scheme` along: `path` when it fits the
/// scheme, the scheme's default path when none is given.
pub fn validate_path(key_scheme: &SignatureScheme, path: Option<DerivationPath>) -> (r: Result<
    DerivationPath,
    SuiError,
>)
    ensures
        *key_scheme is BLS12381 ==> r == Err::<DerivationPath, SuiError>(
            SuiError::UnsupportedFeatureError,
        ),
        !(*key_scheme is BLS12381) ==> match path {
            None => r matches Ok(d) && d.0@ == default_path(*key_scheme),
            Some(p) => if path_valid(*key_scheme, p.0@) {
                r matches Ok(d) && d.0@ == p.0@
            } else {
                r == Err::<DerivationPath, SuiError>(SuiError::SignatureKeyGenError)
            },
        },
{
    let (purpose, last_hardened) = match key_scheme {
        SignatureScheme::ED25519 => (DERIVATION_PATH_PURPOSE_ED25519, true),
        SignatureScheme::Secp256k1 => (DERIVATION_PATH_PURPOSE_SECP256K1, false),
        SignatureScheme::BLS12381 => {
            return Err(SuiError::UnsupportedFeatureError);
        },
    };
    match path {
        Some(p) => {
            if p.0.len() == 5 && p.0[0] == purpose + HARDENED && p.0[1] == DERIVATION_PATH_COIN_TYPE
                + HARDENED && p.0[2] >= HARDENED && (p.0[3] >= HARDENED) == last_hardened && (p.0[4]
                >= HARDENED) == last_hardened {
                Ok(p)
            } else {
                Err(SuiError::SignatureKeyGenError)
            }
        },
        None => {
            let mut v: Vec<u32> = Vec::new();
            v.push(purpose + HARDENED);
            v.push(DERIVATION_PATH_COIN_TYPE + HARDENED);
            v.push(HARDENED);
            if last_hardened {
                v.push(HARDENED);
                v.push(HARDENED);
            } else {
                v.push(0);
                v.push(0);
            }
            assert(v@ =~= default_path(*key_scheme));
            Ok(DerivationPath(v))
        },
    }
}

/// Derives the account key pair of scheme `key_scheme` from `seed` along the validated path:
/// SLIP-0010 for Ed25519 (every level hardened), BIP-32 for Secp256k1.
pub fn derive_key_pair_from_path(
    seed: &[u8],
    derivation_path: Option<DerivationPath>,
    key_scheme: &SignatureScheme,
) -> (r: Result<(SuiAddress, SuiKeyPair), SuiError>)
    ensures
        *key_scheme is BLS12381 ==> r == Err::<(SuiAddress, SuiKeyPair), SuiError>(
            SuiError::UnsupportedFeatureError,
        ),
        derivation_path matches Some(p) && !(*key_scheme is BLS12381) && !path_valid(
            *key_scheme,
            p.0@,
        ) ==> r == Err::<(SuiAddress, SuiKeyPair), SuiError>(SuiError::SignatureKeyGenError),
        !(*key_scheme is BLS12381) && (derivation_path matches Some(p) ==> path_valid(
            *key_scheme,
            p.0@,
        )) ==> match derived_private_key(*key_scheme, seed@, chosen_path(*key_scheme, derivation_path)) {
            None => r == Err::<(SuiAddress, SuiKeyPair), SuiError>(SuiError::SignatureKeyGenError),
            Some(k) => match public_of(*key_scheme, k) {
                None => r == Err::<(SuiAddress, SuiKeyPair), SuiError>(
                    SuiError::SignatureKeyGenError,
                ),
                Some(p) => r matches Ok((a, kp)) && kp@ == (*key_scheme, k) && kp.public_key_bytes()
                    == p && is_address_of(a, *key_scheme, p),
            },
        },
{
    let path = match validate_path(key_scheme, derivation_path) {
        Ok(p) => p,
        Err(e) => {
            return Err(e);
        },
    };
    let private = match key_scheme {
        SignatureScheme::ED25519 => slip10_derive(seed, &path.0),
        SignatureScheme::Secp256k1 => match bip32_derive(seed, &path.0) {
            Some(k) => k,
            None => {
                return Err(SuiError::SignatureKeyGenError);
            },
        },
        SignatureScheme::BLS12381 => {
            return Err(SuiError::UnsupportedFeatureError);
        },
    };
    let kp = match SuiKeyPair::from_private_bytes(*key_scheme, private) {
        Ok(kp) => kp,
        Err(_) => {
            return Err(SuiError::SignatureKeyGenError);
        },
    };
    let public = kp.public();
    let address = SuiAddress::from_public_key(&public);
    Ok((address, kp))
}

} // verus!
