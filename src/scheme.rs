use vstd::prelude::*;
use crate::error::SuiError;

verus! {

/// The signature schemes that keys and signatures of the ledger may use.
#[derive(Debug, Clone, Copy, PartialEq, Eq, Structural)]
pub enum SignatureScheme {
    ED25519,
    Secp256k1,
    BLS12381,
}

impl SignatureScheme {
    /// The one-byte tag that prefixes every encoded key and signature of this scheme.
    pub open spec fn flag_spec(self) -> u8 {
        match self {
            SignatureScheme::ED25519 => 0x00,
            SignatureScheme::Secp256k1 => 0x01,
            SignatureScheme::BLS12381 => 0xff,
        }
    }

    pub fn flag(&self) -> (r: u8)
        ensures
            r == self.flag_spec(),
    {
        match self {
            SignatureScheme::ED25519 => 0x00,
            SignatureScheme::Secp256k1 => 0x01,
            SignatureScheme::BLS12381 => 0xff,
        }
    }
}

/// The account scheme that a flag byte names: BLS12-381 keys are for validators only.
pub open spec fn scheme_of_flag(flag: u8) -> Option<SignatureScheme> {
    if flag == 0x00 {
        Some(SignatureScheme::ED25519)
    } else if flag == 0x01 {
        Some(SignatureScheme::Secp256k1)
    } else {
        None
    }
}

impl SignatureScheme {
    /// The account scheme of the flag byte `byte`.
    pub fn from_flag_byte(byte: u8) -> (r: Result<SignatureScheme, SuiError>)
        ensures
            match scheme_of_flag(byte) {
                Some(s) => r == Ok::<SignatureScheme, SuiError>(s),
                None => r == Err::<SignatureScheme, SuiError>(SuiError::KeyConversionError),
            },
    {
        if byte == 0x00 {
            Ok(SignatureScheme::ED25519)
        } else if byte == 0x01 {
            Ok(SignatureScheme::Secp256k1)
        } else {
            Err(SuiError::KeyConversionError)
        }
    }
}

/// The value of a string of decimal digits.
pub open spec fn decimal_value(s: Seq<char>) -> int
    decreases s.len(),
{
    if s.len() == 0 {
        0
    } else {
        decimal_value(s.drop_last()) * 10 + (s.last() as int - '0' as int)
    }
}

/// The digits of a decimal text: without its leading `+`, if any.
pub open spec fn unsigned_digits(s: Seq<char>) -> Seq<char> {
    if s.len() > 0 && s[0] == '+' {
        s.skip(1)
    } else {
        s
    }
}

/// Every character is a decimal digit.
pub open spec fn all_digits(d: Seq<char>) -> bool {
    forall|i: int| 0 <= i < d.len() ==> '0' <= #[trigger] d[i] <= '9'
}

/// What `u8::from_str` gives for `s`: an optional `+`, then at least one decimal digit, with
/// a value below 256.
pub open spec fn parse_u8_spec(s: Seq<char>) -> Option<u8> {
    let digits = unsigned_digits(s);
    if digits.len() > 0 && all_digits(digits) && decimal_value(digits) <= 255 {
        Some(decimal_value(digits) as u8)
    } else {
        None
    }
}

proof fn lemma_decimal_grows(s: Seq<char>, k: int)
    requires
        0 <= k <= s.len(),
        forall|i: int| 0 <= i < s.len() ==> '0' <= #[trigger] s[i] <= '9',
    ensures
        0 <= decimal_value(s.take(k)) <= decimal_value(s),
    decreases s.len() - k,
{
    if k < s.len() {
        lemma_decimal_grows(s, k + 1);
        assert(s.take(k + 1).drop_last() =~= s.take(k));
        assert(s.take(k + 1).last() == s[k]);
        lemma_decimal_nonneg(s.take(k));
    } else {
        assert(s.take(k) =~= s);
        lemma_decimal_nonneg(s);
    }
}

proof fn lemma_decimal_nonneg(s: Seq<char>)
    requires
        forall|i: int| 0 <= i < s.len() ==> '0' <= #[trigger] s[i] <= '9',
    ensures
        decimal_value(s) >= 0,
    decreases s.len(),
{
    if s.len() > 0 {
        let rest = s.drop_last();
        assert forall|i: int| 0 <= i < rest.len() implies '0' <= #[trigger] rest[i] <= '9' by {
            assert(rest[i] == s[i]);
        }
        lemma_decimal_nonneg(rest);
        assert(s.last() == s[s.len() - 1]);
    }
}

/// Reads a byte written in decimal, as `u8::from_str` does: an optional `+`, then digits.
fn parse_u8(s: &str) -> (r: Option<u8>)
    ensures
        r == parse_u8_spec(s@),
{
    let n = s.unicode_len();
    let start: usize = if n > 0 && s.get_char(0) == '+' {
        1
    } else {
        0
    };
    let ghost digits = unsigned_digits(s@);
    assert(digits =~= s@.skip(start as int));
    if start >= n {
        return None;
    }
    let mut value: u32 = 0;
    let mut i: usize = start;
    while i < n
        invariant
            start <= i <= n,
            start < n,
            n == s@.len(),
            digits =~= s@.skip(start as int),
            digits == unsigned_digits(s@),
            value == decimal_value(digits.take(i - start)),
            value <= 255,
            forall|k: int| 0 <= k < i - start ==> '0' <= #[trigger] digits[k] <= '9',
        decreases n - i,
    {
        let c = s.get_char(i);
        assert(c == digits[i - start]);
        if !('0' <= c && c <= '9') {
            proof {
                assert(!(forall|k: int| 0 <= k < digits.len() ==> '0' <= #[trigger] digits[k] <= '9'))
                    by {
                    assert(!('0' <= digits[i - start] <= '9'));
                }
                assert(!all_digits(digits));
            }
            return None;
        }
        proof {
            assert(digits.take(i - start + 1).drop_last() =~= digits.take(i - start));
            assert(digits.take(i - start + 1).last() == c);
        }
        value = value * 10 + (c as u32 - '0' as u32);
        assert(value == decimal_value(digits.take(i - start + 1)));
        if value > 255 {
            proof {
                if all_digits(digits) {
                    lemma_decimal_grows(digits, i - start + 1);
                    assert(decimal_value(digits) > 255);
                }
            }
            return None;
        }
        i = i + 1;
    }
    proof {
        assert(digits.take(n - start) =~= digits);
    }
    Some(value as u8)
}

impl SignatureScheme {
    /// The account scheme whose flag is written in decimal in `flag`.
    pub fn from_flag(flag: &str) -> (r: Result<SignatureScheme, SuiError>)
        ensures
            match parse_u8_spec(flag@) {
                Some(b) => match scheme_of_flag(b) {
                    Some(s) => r == Ok::<SignatureScheme, SuiError>(s),
                    None => r == Err::<SignatureScheme, SuiError>(SuiError::KeyConversionError),
                },
                None => r == Err::<SignatureScheme, SuiError>(SuiError::KeyConversionError),
            },
    {
        match parse_u8(flag) {
            Some(b) => SignatureScheme::from_flag_byte(b),
            None => Err(SuiError::KeyConversionError),
        }
    }

    /// The name of the scheme.
    pub fn to_string(&self) -> (r: String)
        ensures
            r@ == match self {
                SignatureScheme::ED25519 => "ed25519"@,
                SignatureScheme::Secp256k1 => "secp256k1"@,
                SignatureScheme::BLS12381 => "bls12381"@,
            },
    {
        match self {
            SignatureScheme::ED25519 => "ed25519".to_owned(),
            SignatureScheme::Secp256k1 => "secp256k1".to_owned(),
            SignatureScheme::BLS12381 => "bls12381".to_owned(),
        }
    }

    /// The scheme with the name `s`.
    pub fn from_str(s: &str) -> (r: Result<SignatureScheme, SuiError>)
        ensures
            s@ == "ed25519"@ ==> r == Ok::<SignatureScheme, SuiError>(SignatureScheme::ED25519),
            s@ == "secp256k1"@ ==> r == Ok::<SignatureScheme, SuiError>(SignatureScheme::Secp256k1),
            s@ == "bls12381"@ ==> r == Ok::<SignatureScheme, SuiError>(SignatureScheme::BLS12381),
            s@ != "ed25519"@ && s@ != "secp256k1"@ && s@ != "bls12381"@ ==> r == Err::<
                SignatureScheme,
                SuiError,
            >(SuiError::KeyConversionError),
    {
        proof {
            reveal_strlit("ed25519");
            reveal_strlit("secp256k1");
            reveal_strlit("bls12381");
            assert("secp256k1"@ != "ed25519"@ && "bls12381"@ != "ed25519"@ && "bls12381"@
                != "secp256k1"@) by {
                assert("ed25519"@.len() == 7);
                assert("secp256k1"@.len() == 9);
                assert("bls12381"@.len() == 8);
            }
        }
        let name = s.to_owned();
        if name == "ed25519".to_owned() {
            Ok(SignatureScheme::ED25519)
        } else if name == "secp256k1".to_owned() {
            Ok(SignatureScheme::Secp256k1)
        } else if name == "bls12381".to_owned() {
            Ok(SignatureScheme::BLS12381)
        } else {
            Err(SuiError::KeyConversionError)
        }
    }
}

} // verus!
