use vstd::prelude::*;
use base64ct::Encoding;
use sha3::Digest;
use crate::base_types::append_bytes;
use crate::bls::opt_bytes;
use crate::error::SuiError;

verus! {

/// The SHA3-256 digest of `data`.
pub uninterp spec fn sha3_256_of(data: Seq<u8>) -> Seq<u8>;

/// The padded standard Base64 text of `data`.
pub uninterp spec fn base64_of(data: Seq<u8>) -> Seq<char>;

/// The bytes that the padded standard Base64 text `text` stands for, if it is such a text.
pub uninterp spec fn base64_decoded_of(text: Seq<char>) -> Option<Seq<u8>>;

/// The BCS encoding of the string `s`.
pub uninterp spec fn bcs_of_string(s: Seq<char>) -> Seq<u8>;

/// The string whose BCS encoding `bytes` are, if they are one.
pub uninterp spec fn bcs_string_of(bytes: Seq<u8>) -> Option<Seq<char>>;

/// Relies on `sha3::Sha3_256`: the 32-byte digest of `data`.
#[verifier::external_body]
pub(crate) fn sha3_256(data: &[u8]) -> (r: [u8; 32])
    ensures
        r@ == sha3_256_of(data@),
{
    sha3::Sha3_256::digest(data).into()
}

/// Relies on `base64ct::Base64::encode_string`; decoding its text with
/// `base64ct::Base64::decode_vec` gives the bytes back.
#[verifier::external_body]
pub(crate) fn base64_encode(data: &[u8]) -> (r: String)
    ensures
        r@ == base64_of(data@),
        base64_decoded_of(r@) == Some(data@),
{
    base64ct::Base64::encode_string(data)
}

/// Relies on `base64ct::Base64::decode_vec`.
#[verifier::external_body]
pub(crate) fn base64_decode(text: &str) -> (r: Option<Vec<u8>>)
    ensures
        opt_bytes(r) == base64_decoded_of(text@),
{
    base64ct::Base64::decode_vec(text).ok()
}

/// Relies on `bcs::to_bytes` on a `String`: its length as ULEB128, then its UTF-8 bytes.
/// Strings longer than BCS allows are no input of it.
#[verifier::external_body]
fn bcs_string(s: &String) -> (r: Vec<u8>)
    requires
        s@.len() < 0x2000_0000,
    ensures
        r@ == bcs_of_string(s@),
        bcs_string_of(r@) == Some(s@),
{
    bcs::to_bytes(s).unwrap()
}

/// Relies on `bcs::from_bytes` for a `String`.
#[verifier::external_body]
fn bcs_parse_string(bytes: &[u8]) -> (r: Option<String>)
    ensures
        match r {
            Some(s) => bcs_string_of(bytes@) == Some(s@),
            None => bcs_string_of(bytes@) is None,
        },
{
    bcs::from_bytes::<String>(bytes).ok()
}

/// The separator between the name tag and the encoded value.
pub const NAME_SEPARATOR: [u8; 2] = [0x3a, 0x3a];

/// The canonical encoding of a value for signing and hashing: the name of its type, `::`,
/// then its serialization. Values of different types never share an encoding.
pub open spec fn signable_bytes_spec(name: Seq<u8>, payload: Seq<u8>) -> Seq<u8> {
    name + NAME_SEPARATOR@ + payload
}

/// Builds the canonical encoding of a value of the type named `name` whose serialization is
/// `payload`.
pub fn signable_bytes(name: &[u8], payload: &[u8]) -> (r: Vec<u8>)
    ensures
        r@ == signable_bytes_spec(name@, payload@),
{
    let mut r: Vec<u8> = Vec::new();
    append_bytes(&mut r, name);
    let sep = NAME_SEPARATOR;
    append_bytes(&mut r, sep.as_slice());
    append_bytes(&mut r, payload);
    proof {
        assert(r@ =~= signable_bytes_spec(name@, payload@));
    }
    r
}

/// The SHA3-256 digest of a canonical encoding.
pub fn sha3_hash(signable: &Vec<u8>) -> (r: [u8; 32])
    ensures
        r@ == sha3_256_of(signable@),
{
    sha3_256(signable.as_slice())
}

/// A value with a canonical, type-tagged encoding, for signing and hashing.
pub trait Signable {
    /// The canonical encoding.
    spec fn signable_spec(&self) -> Seq<u8>;

    /// Whether the value can be encoded.
    spec fn encodable(&self) -> bool;

    /// Appends the canonical encoding to `writer`.
    fn write(&self, writer: &mut Vec<u8>)
        requires
            self.encodable(),
        ensures
            final(writer)@ == old(writer)@ + self.signable_spec(),
    ;
}

/// A value that can be read back from its canonical encoding.
pub trait SignableBytes: Sized {
    fn from_signable_bytes(bytes: &[u8]) -> Result<Self, SuiError>;
}

/// Reads a string value from the canonical encoding `bytes` of a type named by `tag` (with
/// its separator).
fn string_from_signable_bytes(tag: &Vec<u8>, bytes: &[u8]) -> (r: Result<String, SuiError>)
    ensures
        r is Ok <==> bytes@.len() >= tag@.len() && bytes@.take(tag@.len() as int) == tag@
            && bcs_string_of(bytes@.skip(tag@.len() as int)) is Some,
        r matches Ok(s) ==> bcs_string_of(bytes@.skip(tag@.len() as int)) == Some(s@),
        r matches Err(e) ==> e == SuiError::InvalidDecoding,
{
    let n = tag.len();
    if bytes.len() < n {
        return Err(SuiError::InvalidDecoding);
    }
    let mut i: usize = 0;
    while i < n
        invariant
            n == tag@.len(),
            bytes@.len() >= n,
            i <= n,
            forall|k: int| 0 <= k < i ==> bytes@[k] == tag@[k],
        decreases n - i,
    {
        if bytes[i] != tag[i] {
            assert(bytes@.take(n as int)[i as int] != tag@[i as int]);
            return Err(SuiError::InvalidDecoding);
        }
        i = i + 1;
    }
    assert(bytes@.take(n as int) =~= tag@);
    let rest = slice_from(bytes, n);
    match bcs_parse_string(rest.as_slice()) {
        Some(s) => Ok(s),
        None => Err(SuiError::InvalidDecoding),
    }
}

/// The tag of a type named `name`: its name and the separator.
fn tag_of(name: &[u8]) -> (r: Vec<u8>)
    ensures
        r@ == name@ + NAME_SEPARATOR@,
{
    let mut r: Vec<u8> = Vec::new();
    append_bytes(&mut r, name);
    let sep = NAME_SEPARATOR;
    append_bytes(&mut r, sep.as_slice());
    r
}

/// The name tag of `Foo`.
pub const FOO_NAME: [u8; 3] = [0x46, 0x6f, 0x6f];

/// The name tag of `Bar`.
pub const BAR_NAME: [u8; 3] = [0x42, 0x61, 0x72];

/// A signable value that holds a string.
pub struct Foo(pub String);

/// Another signable value that holds a string: same contents as a `Foo`, another encoding.
pub struct Bar(pub String);

impl Signable for Foo {
    open spec fn signable_spec(&self) -> Seq<u8> {
        signable_bytes_spec(FOO_NAME@, bcs_of_string(self.0@))
    }

    open spec fn encodable(&self) -> bool {
        self.0@.len() < 0x2000_0000
    }

    fn write(&self, writer: &mut Vec<u8>) {
        let payload = bcs_string(&self.0);
        let name = FOO_NAME;
        let bytes = signable_bytes(name.as_slice(), payload.as_slice());
        append_bytes(writer, bytes.as_slice());
    }
}

impl Signable for Bar {
    open spec fn signable_spec(&self) -> Seq<u8> {
        signable_bytes_spec(BAR_NAME@, bcs_of_string(self.0@))
    }

    open spec fn encodable(&self) -> bool {
        self.0@.len() < 0x2000_0000
    }

    fn write(&self, writer: &mut Vec<u8>) {
        let payload = bcs_string(&self.0);
        let name = BAR_NAME;
        let bytes = signable_bytes(name.as_slice(), payload.as_slice());
        append_bytes(writer, bytes.as_slice());
    }
}

impl SignableBytes for Foo {
    fn from_signable_bytes(bytes: &[u8]) -> Result<Foo, SuiError> {
        let name = FOO_NAME;
        match string_from_signable_bytes(&tag_of(name.as_slice()), bytes) {
            Ok(s) => Ok(Foo(s)),
            Err(e) => Err(e),
        }
    }
}

impl SignableBytes for Bar {
    fn from_signable_bytes(bytes: &[u8]) -> Result<Bar, SuiError> {
        let name = BAR_NAME;
        match string_from_signable_bytes(&tag_of(name.as_slice()), bytes) {
            Ok(s) => Ok(Bar(s)),
            Err(e) => Err(e),
        }
    }
}

impl Foo {
    /// The canonical encoding: `Foo::` then the BCS encoding of the string.
    pub fn signable(&self) -> (r: Vec<u8>)
        requires
            self.encodable(),
        ensures
            r@ == self.signable_spec(),
    {
        let mut r: Vec<u8> = Vec::new();
        self.write(&mut r);
        assert(r@ =~= self.signable_spec());
        r
    }

    /// Reads a value back from its canonical encoding; fails unless it starts with the name
    /// tag and the rest is the BCS encoding of a string.
    pub fn decode(bytes: &[u8]) -> (r: Result<Foo, SuiError>)
        ensures
            r is Ok <==> bytes@.len() >= 5 && bytes@.take(5) == FOO_NAME@ + NAME_SEPARATOR@
                && bcs_string_of(bytes@.skip(5)) is Some,
            r matches Ok(f) ==> bcs_string_of(bytes@.skip(5)) == Some(f.0@),
            r matches Err(e) ==> e == SuiError::InvalidDecoding,
    {
        let name = FOO_NAME;
        match string_from_signable_bytes(&tag_of(name.as_slice()), bytes) {
            Ok(s) => Ok(Foo(s)),
            Err(e) => Err(e),
        }
    }
}

impl Bar {
    /// The canonical encoding: `Bar::` then the BCS encoding of the string.
    pub fn signable(&self) -> (r: Vec<u8>)
        requires
            self.encodable(),
        ensures
            r@ == self.signable_spec(),
    {
        let mut r: Vec<u8> = Vec::new();
        self.write(&mut r);
        assert(r@ =~= self.signable_spec());
        r
    }
}

/// The bytes of `b` from `start` on.
pub fn slice_from(b: &[u8], start: usize) -> (r: Vec<u8>)
    requires
        start <= b@.len(),
    ensures
        r@ == b@.skip(start as int),
{
    let mut r: Vec<u8> = Vec::new();
    let mut i: usize = start;
    while i < b.len()
        invariant
            start <= i <= b@.len(),
            r@ == b@.subrange(start as int, i as int),
        decreases b@.len() - i,
    {
        r.push(b[i]);
        i = i + 1;
        assert(r@ =~= b@.subrange(start as int, i as int));
    }
    assert(r@ =~= b@.skip(start as int));
    r
}

} // verus!
