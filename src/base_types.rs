use vstd::prelude::*;

verus! {

/// Number of an epoch: the period during which one committee is in charge.
pub type EpochId = u64;

/// Version of an object; it grows with every write of the object.
pub type SequenceNumber = u64;

/// The largest version; it marks objects that were wrapped and then deleted.
pub const SEQUENCE_NUMBER_MAX: SequenceNumber = 0x7fff_ffff_ffff_ffff;

/// Length of addresses and object ids.
pub const ADDRESS_LENGTH: usize = 20;

/// Length of the content digest of an object.
pub const DIGEST_LENGTH: usize = 32;

/// Length of the compressed public key of a validator.
pub const AUTHORITY_KEY_LENGTH: usize = 96;

/// Compares two byte arrays of the same length.
pub fn bytes_eq<const N: usize>(a: &[u8; N], b: &[u8; N]) -> (r: bool)
    ensures
        r == (*a == *b),
{
    let mut i: usize = 0;
    while i < N
        invariant
            i <= N,
            a@.len() == N,
            b@.len() == N,
            forall|k: int| 0 <= k < i ==> a[k] == b[k],
        decreases N - i,
    {
        if a[i] != b[i] {
            proof {
                broadcast use vstd::array::axiom_array_ext_equal;
                assert(!(*a =~= *b));
            }
            return false;
        }
        i = i + 1;
    }
    proof {
        broadcast use vstd::array::axiom_array_ext_equal;
        assert(*a =~= *b);
    }
    true
}

/// An account address: 20 bytes.
#[derive(Debug, Clone, Copy)]
pub struct SuiAddress(pub [u8; 20]);

impl PartialEq for SuiAddress {
    fn eq(&self, o: &SuiAddress) -> (r: bool) {
        bytes_eq(&self.0, &o.0)
    }
}

impl vstd::std_specs::cmp::PartialEqSpecImpl for SuiAddress {
    open spec fn obeys_eq_spec() -> bool {
        true
    }

    open spec fn eq_spec(&self, o: &SuiAddress) -> bool {
        self.0 == o.0
    }
}

impl Eq for SuiAddress {}

/// The identity of an object: 20 bytes, in the same space as addresses.
#[derive(Debug, Clone, Copy)]
pub struct ObjectID(pub [u8; 20]);

impl PartialEq for ObjectID {
    fn eq(&self, o: &ObjectID) -> (r: bool) {
        bytes_eq(&self.0, &o.0)
    }
}

impl vstd::std_specs::cmp::PartialEqSpecImpl for ObjectID {
    open spec fn obeys_eq_spec() -> bool {
        true
    }

    open spec fn eq_spec(&self, o: &ObjectID) -> bool {
        self.0 == o.0
    }
}

impl Eq for ObjectID {}

impl ObjectID {
    /// The address that an object id stands for, as an owner of other objects.
    pub open spec fn address_spec(self) -> SuiAddress {
        SuiAddress(self.0)
    }

    pub fn to_address(&self) -> (r: SuiAddress)
        ensures
            r == self.address_spec(),
    {
        SuiAddress(self.0)
    }
}

/// The content digest of an object: 32 bytes.
#[derive(Debug, Clone, Copy)]
pub struct ObjectDigest(pub [u8; 32]);

impl PartialEq for ObjectDigest {
    fn eq(&self, o: &ObjectDigest) -> (r: bool) {
        bytes_eq(&self.0, &o.0)
    }
}

impl vstd::std_specs::cmp::PartialEqSpecImpl for ObjectDigest {
    open spec fn obeys_eq_spec() -> bool {
        true
    }

    open spec fn eq_spec(&self, o: &ObjectDigest) -> bool {
        self.0 == o.0
    }
}

impl Eq for ObjectDigest {}

/// A reference to one version of an object: its id, version and content digest.
pub type ObjectRef = (ObjectID, SequenceNumber, ObjectDigest);

/// Lexicographic order on byte strings of one length.
pub open spec fn bytes_lt(a: Seq<u8>, b: Seq<u8>) -> bool {
    exists|k: int| 0 <= k < a.len() && k < b.len() && a.take(k) == b.take(k) && a[k] < b[k]
}

/// Whether `a` comes strictly before `b` in lexicographic order.
pub fn bytes_less<const N: usize>(a: &[u8; N], b: &[u8; N]) -> (r: bool)
    ensures
        r == bytes_lt(a@, b@),
{
    let mut i: usize = 0;
    while i < N
        invariant
            i <= N,
            a@.len() == N,
            b@.len() == N,
            forall|k: int| 0 <= k < i ==> a@[k] == b@[k],
        decreases N - i,
    {
        if a[i] != b[i] {
            assert(a@.take(i as int) =~= b@.take(i as int));
            if a[i] < b[i] {
                return true;
            } else {
                assert forall|k: int|
                    0 <= k < a@.len() && k < b@.len() && a@.take(k) == b@.take(k) implies !(a@[k]
                    < b@[k]) by {
                    if k > i {
                        assert(a@.take(k)[i as int] == a@[i as int]);
                        assert(b@.take(k)[i as int] == b@[i as int]);
                    }
                }
                return false;
            }
        }
        i = i + 1;
    }
    false
}

/// The compressed public key of a validator: 96 bytes. Validators are named by it.
#[derive(Debug, Clone, Copy)]
pub struct AuthorityPublicKeyBytes(pub [u8; 96]);

impl PartialEq for AuthorityPublicKeyBytes {
    fn eq(&self, o: &AuthorityPublicKeyBytes) -> (r: bool) {
        bytes_eq(&self.0, &o.0)
    }
}

impl vstd::std_specs::cmp::PartialEqSpecImpl for AuthorityPublicKeyBytes {
    open spec fn obeys_eq_spec() -> bool {
        true
    }

    open spec fn eq_spec(&self, o: &AuthorityPublicKeyBytes) -> bool {
        self.0 == o.0
    }
}

impl Eq for AuthorityPublicKeyBytes {}

impl AuthorityPublicKeyBytes {
    pub fn new(bytes: [u8; 96]) -> (r: AuthorityPublicKeyBytes)
        ensures
            r.0 == bytes,
    {
        AuthorityPublicKeyBytes(bytes)
    }
}

/// Validators are named by their public key.
pub type AuthorityName = AuthorityPublicKeyBytes;

/// A copy of a byte vector.
pub fn clone_bytes(v: &Vec<u8>) -> (r: Vec<u8>)
    ensures
        r@ == v@,
{
    let r = v.clone();
    assert(r@ =~= v@);
    r
}

/// Appends the bytes of `a` to `v`.
pub fn append_bytes(v: &mut Vec<u8>, a: &[u8])
    ensures
        final(v)@ == old(v)@ + a@,
{
    let mut i: usize = 0;
    while i < a.len()
        invariant
            i <= a@.len(),
            v@ == old(v)@ + a@.take(i as int),
        decreases a@.len() - i,
    {
        v.push(a[i]);
        i = i + 1;
        assert(v@ =~= old(v)@ + a@.take(i as int));
    }
    assert(a@.take(a@.len() as int) =~= a@);
}

} // verus!
