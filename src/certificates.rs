use vstd::prelude::*;
use roaring::RoaringBitmap;
use crate::base_types::{clone_bytes, AuthorityName, EpochId};
use crate::bls::{
    bls_add_aggregate, bls_add_aggregate_of, bls_add_signature_of, bls_aggregate, bls_aggregate_of,
    bls_aggregate_verifies, bls_infinity, byte_strings, each_slot_verifies,
};
use crate::committee::{
    index_of, is_member, lemma_member_at, members_wf, quorum_threshold_of, total_of,
    validity_threshold_of, Committee, CommitteeView, StakeUnit,
};
use crate::encoding::Signable;
use crate::error::SuiError;
use crate::obligation::{AggregateAuthoritySignature, AuthoritySignature, VerificationObligation};

verus! {

#[verifier::external_type_specification]
#[verifier::external_body]
pub struct ExRoaringBitmap(roaring::RoaringBitmap);

/// The values that a bitmap holds, in ascending order.
pub uninterp spec fn bitmap_values_of(b: RoaringBitmap) -> Seq<u32>;

/// Each value is smaller than the next.
pub open spec fn strictly_ascending(s: Seq<u32>) -> bool {
    forall|i: int, j: int| 0 <= i < j < s.len() ==> s[i] < s[j]
}

/// Relies on `RoaringBitmap::new`: an empty bitmap.
#[verifier::external_body]
fn bitmap_new() -> (r: RoaringBitmap)
    ensures
        bitmap_values_of(r) == Seq::<u32>::empty(),
{
    RoaringBitmap::new()
}

/// Relies on `RoaringBitmap::insert`: adds `value` to the set; says whether it was absent.
#[verifier::external_body]
fn bitmap_insert(b: &mut RoaringBitmap, value: u32) -> (r: bool)
    ensures
        bitmap_values_of(*final(b)).to_set() == bitmap_values_of(*old(b)).to_set().insert(value),
        strictly_ascending(bitmap_values_of(*final(b))),
        r == !bitmap_values_of(*old(b)).contains(value),
{
    b.insert(value)
}

/// Relies on `RoaringBitmap::iter`, which yields every value in ascending order.
#[verifier::external_body]
fn bitmap_values(b: &RoaringBitmap) -> (r: Vec<u32>)
    ensures
        r@ == bitmap_values_of(*b),
        strictly_ascending(r@),
{
    b.iter().collect()
}

/// Relies on `RoaringBitmap::len`: the number of values.
#[verifier::external_body]
fn bitmap_len(b: &RoaringBitmap) -> (r: u64)
    ensures
        r == bitmap_values_of(*b).len(),
{
    b.len()
}

/// The summed weight of the members at the indices `signers`; an index that names no member
/// adds nothing.
pub open spec fn signers_weight(m: Seq<(AuthorityName, StakeUnit)>, signers: Seq<u32>) -> int
    decreases signers.len(),
{
    if signers.len() == 0 {
        0
    } else {
        signers_weight(m, signers.drop_last()) + if (signers.last() as int) < m.len() {
            m[signers.last() as int].1 as int
        } else {
            0
        }
    }
}

/// Every index names a member.
pub open spec fn signers_known(m: Seq<(AuthorityName, StakeUnit)>, signers: Seq<u32>) -> bool {
    forall|k: int| 0 <= k < signers.len() ==> (#[trigger] signers[k] as int) < m.len()
}

/// The keys of the members at the indices `signers`, in that order.
pub open spec fn signer_keys(m: Seq<(AuthorityName, StakeUnit)>, signers: Seq<u32>) -> Seq<AuthorityName> {
    signers.map_values(|s: u32| m[s as int].0)
}

/// The weight a certificate needs: the quorum threshold for a strong one, the validity
/// threshold for a weak one.
pub open spec fn threshold_for(strong: bool, total: int) -> int {
    if strong {
        quorum_threshold_of(total)
    } else {
        validity_threshold_of(total)
    }
}

/// The committee part of the check of a certificate of `epoch` signed by the members at
/// `signers`: the epoch must be the committee's, every signer a member, and their weight at
/// least the threshold of the certificate's kind.
pub open spec fn quorum_check(c: CommitteeView, epoch: EpochId, signers: Seq<u32>, strong: bool) -> Result<(), SuiError> {
    if epoch != c.epoch {
        Err(SuiError::WrongEpoch { expected_epoch: c.epoch })
    } else if !signers_known(c.members, signers) {
        Err(SuiError::UnknownSigner)
    } else if signers_weight(c.members, signers) < threshold_for(strong, total_of(c.members)) {
        Err(SuiError::CertificateRequiresQuorum)
    } else {
        Ok(())
    }
}

/// What verifying one validator's signature `signature` (of `epoch`, by `authority`) over
/// `message` may return: `UnknownSigner` exactly for a signer without weight; otherwise success
/// or `InvalidSignature`, and success whenever the signature, folded into the empty aggregate,
/// verifies under the signer's key.
pub open spec fn single_verify_outcome(
    c: CommitteeView,
    epoch: EpochId,
    authority: AuthorityName,
    signature: Seq<u8>,
    message: Seq<u8>,
    r: Result<(), SuiError>,
) -> bool {
    if !is_member(c.members, authority) {
        r == Err::<(), SuiError>(SuiError::UnknownSigner)
    } else {
        &&& (r is Ok || r == Err::<(), SuiError>(SuiError::InvalidSignature))
        &&& (bls_add_signature_of(bls_infinity(), signature) matches Some(agg)
            && bls_aggregate_verifies(agg, seq![authority], message)) ==> r is Ok
    }
}

/// What verifying a certificate of `epoch` with aggregate `signature` and signer indices
/// `signers` over `message` may return: the epoch error for a stale certificate; the
/// signature error when the aggregate does not fold; otherwise the committee check's error
/// exactly, and when that check passes, success or `InvalidSignature`, and success whenever
/// the aggregate verifies under the signers' keys.
pub open spec fn quorum_verify_outcome(
    c: CommitteeView,
    epoch: EpochId,
    signature: Seq<u8>,
    signers: Seq<u32>,
    strong: bool,
    message: Seq<u8>,
    r: Result<(), SuiError>,
) -> bool {
    if epoch != c.epoch {
        r == Err::<(), SuiError>(SuiError::WrongEpoch { expected_epoch: c.epoch })
    } else {
        match bls_add_aggregate_of(bls_infinity(), signature) {
            None => r == Err::<(), SuiError>(SuiError::InvalidSignature),
            Some(agg) => match quorum_check(c, epoch, signers, strong) {
                Err(e) => r == Err::<(), SuiError>(e),
                Ok(_) => {
                    &&& (r is Ok || r == Err::<(), SuiError>(SuiError::InvalidSignature))
                    &&& bls_aggregate_verifies(agg, signer_keys(c.members, signers), message)
                        ==> r is Ok
                },
            },
        }
    }
}

/// The attestation of a message that needs no signature.
#[derive(Debug, Clone, Copy, PartialEq, Eq, Structural)]
pub struct EmptySignInfo {}

impl EmptySignInfo {
    pub fn verify<T: Signable>(&self, _data: &T, _committee: &Committee) -> (r: Result<(), SuiError>)
        ensures
            r is Ok,
    {
        Ok(())
    }

    pub fn add_to_verification_obligation(
        &self,
        _committee: &Committee,
        _obligation: &mut VerificationObligation,
        _message_index: usize,
    ) -> (r: Result<(), SuiError>)
        ensures
            r is Ok,
            *final(_obligation) == *old(_obligation),
    {
        Ok(())
    }
}

/// One validator's signature over a message, in an epoch. Two of them are equal when epoch
/// and validator are: a validator may sign one message more than once.
#[derive(Debug, Clone)]
pub struct AuthoritySignInfo {
    pub epoch: EpochId,
    pub authority: AuthorityName,
    pub signature: AuthoritySignature,
}

impl PartialEq for AuthoritySignInfo {
    fn eq(&self, o: &AuthoritySignInfo) -> (r: bool) {
        self.epoch == o.epoch && self.authority == o.authority
    }
}

impl vstd::std_specs::cmp::PartialEqSpecImpl for AuthoritySignInfo {
    open spec fn obeys_eq_spec() -> bool {
        true
    }

    open spec fn eq_spec(&self, o: &AuthoritySignInfo) -> bool {
        self.epoch == o.epoch && self.authority == o.authority
    }
}

impl Eq for AuthoritySignInfo {}

impl AuthoritySignInfo {
    /// Adds this signature and the signer's key to slot `message_index`. The signer must have
    /// weight in the committee.
    pub fn add_to_verification_obligation(
        &self,
        committee: &Committee,
        obligation: &mut VerificationObligation,
        message_index: usize,
    ) -> (r: Result<(), SuiError>)
        requires
            old(obligation).wf(),
        ensures
            final(obligation).wf(),
            final(obligation).messages == old(obligation).messages,
            !is_member(committee@.members, self.authority) ==> r == Err::<(), SuiError>(
                SuiError::UnknownSigner,
            ) && *final(obligation) == *old(obligation),
            is_member(committee@.members, self.authority) && message_index
                >= old(obligation).messages@.len() ==> r == Err::<(), SuiError>(
                SuiError::InvalidAddress,
            ) && *final(obligation) == *old(obligation),
            is_member(committee@.members, self.authority) && message_index
                < old(obligation).messages@.len() ==> {
                &&& final(obligation).public_keys@ == old(obligation).public_keys@.update(
                    message_index as int,
                    final(obligation).public_keys@[message_index as int],
                )
                &&& final(obligation).public_keys@[message_index as int]@ == old(
                    obligation,
                ).public_keys@[message_index as int]@.push(self.authority)
                &&& match bls_add_signature_of(old(obligation).signatures@[message_index as int]@, self.signature.0@) {
                    Some(agg) => r is Ok && final(obligation).signatures@ == old(
                        obligation,
                    ).signatures@.update(
                        message_index as int,
                        final(obligation).signatures@[message_index as int],
                    ) && final(obligation).signatures@[message_index as int]@ == agg,
                    None => r == Err::<(), SuiError>(SuiError::InvalidSignature)
                        && final(obligation).signatures == old(obligation).signatures,
                }
            },
    {
        let weight = committee.weight(&self.authority);
        if weight == 0 {
            return Err(SuiError::UnknownSigner);
        }
        if message_index >= obligation.public_keys.len() {
            return Err(SuiError::InvalidAddress);
        }
        let key = match committee.public_key(&self.authority) {
            Ok(k) => k,
            Err(e) => {
                return Err(e);
            },
        };
        let signature = AuthoritySignature(clone_bytes(&self.signature.0));
        obligation.add_signature_and_public_key(
            crate::obligation::ObligationSignature::AuthoritySig(signature, key),
            message_index,
        )
    }

    /// Verifies this signature over the canonical encoding of `data`: the signer must have
    /// weight in the committee and its key must verify the signature.
    pub fn verify<T: Signable>(&self, data: &T, committee: &Committee) -> (r: Result<(), SuiError>)
        requires
            data.encodable(),
        ensures
            single_verify_outcome(committee@, self.epoch, self.authority, self.signature.0@, data.signable_spec(), r),
    {
        let mut obligation = VerificationObligation::new();
        let idx = obligation.add_message(data);
        match self.add_to_verification_obligation(committee, &mut obligation, idx) {
            Ok(()) => {},
            Err(e) => {
                return Err(e);
            },
        }
        proof {
            assert(obligation.public_keys@[0]@ =~= seq![self.authority]);
            if bls_aggregate_verifies(
                obligation.signatures@[0]@,
                obligation.public_keys@[0]@,
                obligation.messages@[0]@,
            ) {
                assert(each_slot_verifies(obligation.signatures@, obligation.public_keys@, obligation.messages@));
            }
        }
        obligation.verify_all()
    }
}

/// A quorum of validator signatures over one message, as one aggregate signature and the
/// set of signer indices. A strong certificate (`STRONG_THRESHOLD`) needs the quorum
/// threshold of weight, a weak one the validity threshold.
///
/// It deliberately has no `==` or hashing: two valid certificates of one fact may differ in
/// their signers, so comparing them is for the caller to decide, on their bytes.
pub struct AuthorityQuorumSignInfo<const STRONG_THRESHOLD: bool> {
    pub epoch: EpochId,
    pub signature: AggregateAuthoritySignature,
    pub signers_map: RoaringBitmap,
}

pub type AuthorityStrongQuorumSignInfo = AuthorityQuorumSignInfo<true>;

pub type AuthorityWeakQuorumSignInfo = AuthorityQuorumSignInfo<false>;

/// The signatures of the members at `i` among `pairs` (of index and signature), in order.
pub open spec fn signatures_at(pairs: Seq<(int, Seq<u8>)>, i: int) -> Seq<Seq<u8>>
    decreases pairs.len(),
{
    if pairs.len() == 0 {
        Seq::empty()
    } else {
        let rest = signatures_at(pairs.drop_last(), i);
        if pairs.last().0 == i {
            rest.push(pairs.last().1)
        } else {
            rest
        }
    }
}

/// The signatures of `pairs` ordered by index, those of one index in their given order.
pub open spec fn signatures_by_index(pairs: Seq<(int, Seq<u8>)>, n: int) -> Seq<Seq<u8>>
    decreases n,
{
    if n <= 0 {
        Seq::empty()
    } else {
        signatures_by_index(pairs, n - 1) + signatures_at(pairs, n - 1)
    }
}

/// Each signature paired with the committee index of its signer.
pub open spec fn indexed_signatures(
    m: Seq<(AuthorityName, StakeUnit)>,
    signatures: Seq<(AuthorityName, AuthoritySignature)>,
) -> Seq<(int, Seq<u8>)> {
    signatures.map_values(|p: (AuthorityName, AuthoritySignature)| (index_of(m, p.0), p.1.0@))
}

proof fn lemma_signers_weight_bound(m: Seq<(AuthorityName, StakeUnit)>, signers: Seq<u32>)
    ensures
        0 <= signers_weight(m, signers) <= signers.len() * 0xffff_ffff_ffff_ffff,
    decreases signers.len(),
{
    if signers.len() > 0 {
        lemma_signers_weight_bound(m, signers.drop_last());
    }
}

impl<const STRONG_THRESHOLD: bool> AuthorityQuorumSignInfo<STRONG_THRESHOLD> {
    /// A certificate of `epoch` with no signer yet.
    pub fn new(epoch: EpochId) -> (r: Self)
        ensures
            r.epoch == epoch,
            bitmap_values_of(r.signers_map).len() == 0,
    {
        AuthorityQuorumSignInfo {
            epoch,
            signature: AggregateAuthoritySignature(crate::bls::bls_empty_aggregate()),
            signers_map: bitmap_new(),
        }
    }

    /// Builds the certificate of the committee's epoch from signatures by members: the signer
    /// set holds their indices, and the signatures are aggregated in ascending order of signer,
    /// so that the same signatures always give the same certificate.
    pub fn new_with_signatures(
        signatures: Vec<(AuthorityName, AuthoritySignature)>,
        committee: &Committee,
    ) -> (r: Result<Self, SuiError>)
        ensures
            (exists|k: int|
                0 <= k < signatures@.len() && !is_member(committee@.members, #[trigger] signatures@[k].0))
                ==> r == Err::<Self, SuiError>(SuiError::UnknownSigner),
            (forall|k: int|
                0 <= k < signatures@.len() ==> is_member(committee@.members, #[trigger] signatures@[k].0))
                ==> match bls_aggregate_of(
                signatures_by_index(
                    indexed_signatures(committee@.members, signatures@),
                    committee@.members.len() as int,
                ),
            ) {
                None => r == Err::<Self, SuiError>(SuiError::InvalidSignature),
                Some(agg) => r matches Ok(cert) && cert.epoch == committee@.epoch
                    && cert.signature.0@ == agg && cert.signers().to_set() == Set::new(
                    |i: u32|
                        exists|k: int|
                            0 <= k < signatures@.len() && index_of(
                                committee@.members,
                                #[trigger] signatures@[k].0,
                            ) == i,
                ),
            },
    {
        let ghost m = committee@.members;
        let n = committee.num_members();
        let mut map = bitmap_new();
        let mut indices: Vec<u32> = Vec::new();
        let mut k: usize = 0;
        while k < signatures.len()
            invariant
                m == committee@.members,
                n == m.len(),
                members_wf(m),
                k <= signatures@.len(),
                indices@.len() == k,
                forall|j: int|
                    0 <= j < k ==> is_member(m, #[trigger] signatures@[j].0) && indices@[j]
                        == index_of(m, signatures@[j].0) && (indices@[j] as int) < m.len(),
                forall|x: u32|
                    #![trigger bitmap_values_of(map).to_set().contains(x)]
                    bitmap_values_of(map).to_set().contains(x) <==> exists|j: int|
                        0 <= j < k && indices@[j] == x,
            decreases signatures@.len() - k,
        {
            match committee.authority_index(&signatures[k].0) {
                None => {
                    return Err(SuiError::UnknownSigner);
                },
                Some(i) => {
                    proof {
                        lemma_member_at(m, i as int);
                    }
                    let ghost before = bitmap_values_of(map).to_set();
                    let ghost old_indices = indices@;
                    bitmap_insert(&mut map, i);
                    indices.push(i);
                    proof {
                        assert(indices@[k as int] == i);
                        assert(m[i as int].0 == signatures@[k as int].0);
                        assert forall|j: int| 0 <= j < k + 1 implies is_member(m, #[trigger] signatures@[j].0)
                            && indices@[j] == index_of(m, signatures@[j].0) && (indices@[j] as int)
                            < m.len() by {
                            if j < k {
                                assert(indices@[j] == old_indices[j]);
                            }
                        }
                        assert forall|x: u32|
                            #![trigger bitmap_values_of(map).to_set().contains(x)]
                            bitmap_values_of(map).to_set().contains(x) <==> exists|j: int|
                                0 <= j < k + 1 && indices@[j] == x by {
                            if bitmap_values_of(map).to_set().contains(x) {
                                if x != i {
                                    assert(before.contains(x));
                                    let j = choose|j: int| 0 <= j < k && old_indices[j] == x;
                                    assert(indices@[j] == x);
                                }
                            }
                            if exists|j: int| 0 <= j < k + 1 && indices@[j] == x {
                                let j = choose|j: int| 0 <= j < k + 1 && indices@[j] == x;
                                if j < k {
                                    assert(old_indices[j] == x);
                                    assert(before.contains(x));
                                }
                            }
                        }
                    }
                },
            }
            k = k + 1;
        }
        let ghost pairs = indexed_signatures(m, signatures@);
        let mut sigs: Vec<Vec<u8>> = Vec::new();
        let mut i: usize = 0;
        while i < n
            invariant
                m == committee@.members,
                n == m.len(),
                members_wf(m),
                i <= n,
                indices@.len() == signatures@.len(),
                pairs == indexed_signatures(m, signatures@),
                pairs.len() == signatures@.len(),
                forall|j: int|
                    0 <= j < signatures@.len() ==> indices@[j] == index_of(m, #[trigger] signatures@[j].0),
                byte_strings(sigs@) == signatures_by_index(pairs, i as int),
            decreases n - i,
        {
            let mut j: usize = 0;
            while j < signatures.len()
                invariant
                    i < n,
                    j <= signatures@.len(),
                    indices@.len() == signatures@.len(),
                    pairs == indexed_signatures(m, signatures@),
                    pairs.len() == signatures@.len(),
                    forall|j: int|
                        0 <= j < signatures@.len() ==> indices@[j] == index_of(
                            m,
                            #[trigger] signatures@[j].0,
                        ),
                    byte_strings(sigs@) == signatures_by_index(pairs, i as int) + signatures_at(
                        pairs.take(j as int),
                        i as int,
                    ),
                decreases signatures@.len() - j,
            {
                proof {
                    assert(pairs.take(j + 1).drop_last() =~= pairs.take(j as int));
                    assert(pairs.take(j + 1).last() == pairs[j as int]);
                    assert(pairs[j as int] == (index_of(m, signatures@[j as int].0), signatures@[j as int].1.0@));
                }
                if indices[j] as usize == i {
                    let s = clone_bytes(&signatures[j].1.0);
                    let ghost before = sigs@;
                    sigs.push(s);
                    proof {
                        assert(byte_strings(sigs@) =~= byte_strings(before).push(s@));
                    }
                }
                j = j + 1;
            }
            proof {
                assert(pairs.take(pairs.len() as int) =~= pairs);
            }
            i = i + 1;
        }
        proof {
            assert(bitmap_values_of(map).to_set() =~= Set::new(
                |x: u32|
                    exists|k: int|
                        0 <= k < signatures@.len() && index_of(m, #[trigger] signatures@[k].0) == x,
            )) by {
                assert forall|x: u32| #[trigger]
                    bitmap_values_of(map).to_set().contains(x) implies exists|k: int|
                        0 <= k < signatures@.len() && index_of(m, #[trigger] signatures@[k].0)
                            == x by {
                    let j = choose|j: int| 0 <= j < signatures@.len() && indices@[j] == x;
                    assert(index_of(m, signatures@[j].0) == x);
                }
                assert forall|x: u32|
                    (exists|k: int|
                        0 <= k < signatures@.len() && index_of(m, #[trigger] signatures@[k].0)
                            == x) implies #[trigger] bitmap_values_of(map).to_set().contains(x) by {
                    let j = choose|j: int|
                        0 <= j < signatures@.len() && index_of(m, #[trigger] signatures@[j].0)
                            == x;
                    assert(indices@[j] == x);
                }
            }
        }
        match bls_aggregate(&sigs) {
            Some(agg) => Ok(
                AuthorityQuorumSignInfo {
                    epoch: committee.epoch(),
                    signature: AggregateAuthoritySignature(agg),
                    signers_map: map,
                },
            ),
            None => Err(SuiError::InvalidSignature),
        }
    }

    /// The signer indices, ascending.
    pub open spec fn signers(&self) -> Seq<u32> {
        bitmap_values_of(self.signers_map)
    }

    /// Adds the aggregate signature and the signers' keys to slot `message_index`, after
    /// checking the epoch, the signers and their weight.
    pub fn add_to_verification_obligation(
        &self,
        committee: &Committee,
        obligation: &mut VerificationObligation,
        message_index: usize,
    ) -> (r: Result<(), SuiError>)
        requires
            old(obligation).wf(),
        ensures
            final(obligation).wf(),
            final(obligation).messages == old(obligation).messages,
            self.epoch != committee@.epoch ==> r == Err::<(), SuiError>(
                SuiError::WrongEpoch { expected_epoch: committee@.epoch },
            ) && *final(obligation) == *old(obligation),
            self.epoch == committee@.epoch && message_index >= old(obligation).messages@.len() ==> r
                == Err::<(), SuiError>(SuiError::InvalidAuthenticator) && *final(obligation) == *old(
                obligation,
            ),
            self.epoch == committee@.epoch && message_index < old(obligation).messages@.len() ==> match bls_add_aggregate_of(
                old(obligation).signatures@[message_index as int]@,
                self.signature.0@,
            ) {
                None => r == Err::<(), SuiError>(SuiError::InvalidSignature) && *final(obligation)
                    == *old(obligation),
                Some(agg) => {
                    &&& r == quorum_check(committee@, self.epoch, self.signers(), STRONG_THRESHOLD)
                    &&& r is Ok ==> {
                        &&& final(obligation).signatures@ == old(obligation).signatures@.update(
                            message_index as int,
                            final(obligation).signatures@[message_index as int],
                        )
                        &&& final(obligation).signatures@[message_index as int]@ == agg
                        &&& final(obligation).public_keys@ == old(obligation).public_keys@.update(
                            message_index as int,
                            final(obligation).public_keys@[message_index as int],
                        )
                        &&& final(obligation).public_keys@[message_index as int]@ == old(
                            obligation,
                        ).public_keys@[message_index as int]@ + signer_keys(
                            committee@.members,
                            self.signers(),
                        )
                    }
                },
            },
    {
        if self.epoch != committee.epoch() {
            return Err(SuiError::WrongEpoch { expected_epoch: committee.epoch() });
        }
        if message_index >= obligation.signatures.len() {
            return Err(SuiError::InvalidAuthenticator);
        }
        match bls_add_aggregate(&obligation.signatures[message_index], &self.signature.0) {
            Some(agg) => {
                obligation.signatures.set(message_index, agg);
            },
            None => {
                return Err(SuiError::InvalidSignature);
            },
        }
        let ghost m = committee@.members;
        let ghost folded = obligation.signatures@[message_index as int]@;
        let ghost folded_all = obligation.signatures@;
        let _ = committee.num_members();
        let signers = bitmap_values(&self.signers_map);
        let mut keys = obligation.public_keys[message_index].clone();
        let ghost old_keys = keys@;
        proof {
            assert(old_keys =~= old(obligation).public_keys@[message_index as int]@);
            lemma_signers_weight_bound(m, signers@);
        }
        let mut weight: u128 = 0;
        let mut i: usize = 0;
        while i < signers.len()
            invariant
                i <= signers@.len(),
                m == committee@.members,
                members_wf(m),
                obligation.wf(),
                obligation.messages == old(obligation).messages,
                obligation.public_keys == old(obligation).public_keys,
                obligation.signatures@ == folded_all,
                folded_all == old(obligation).signatures@.update(
                    message_index as int,
                    folded_all[message_index as int],
                ),
                message_index < obligation.messages@.len(),
                obligation.signatures@[message_index as int]@ == folded,
                bls_add_aggregate_of(old(obligation).signatures@[message_index as int]@, self.signature.0@)
                    == Some(folded),
                self.epoch == committee@.epoch,
                signers@ == self.signers(),
                weight == signers_weight(m, signers@.take(i as int)),
                signers_known(m, signers@.take(i as int)),
                keys@ == old_keys + signer_keys(m, signers@.take(i as int)),
            decreases signers@.len() - i,
        {
            proof {
                assert(signers@.take(i + 1).drop_last() =~= signers@.take(i as int));
                assert(signers@.take(i + 1).last() == signers@[i as int]);
                lemma_signers_weight_bound(m, signers@.take(i as int));
            }
            let index = signers[i];
            let authority = match committee.authority_by_index(index) {
                Some(a) => a,
                None => {
                    proof {
                        assert(!signers_known(m, signers@)) by {
                            assert(!((signers@[i as int] as int) < m.len()));
                        }
                    }
                    return Err(SuiError::UnknownSigner);
                },
            };
            proof {
                lemma_member_at(m, index as int);
            }
            let voting_rights = committee.weight(&authority);
            if voting_rights == 0 {
                return Err(SuiError::UnknownSigner);
            }
            assert(weight + voting_rights <= u128::MAX) by (nonlinear_arith)
                requires
                    weight <= i * 0xffff_ffff_ffff_ffff,
                    i < 0x1_0000_0000_0000_0000,
                    voting_rights <= 0xffff_ffff_ffff_ffff,
            ;
            weight = weight + voting_rights as u128;
            let key = match committee.public_key(&authority) {
                Ok(k) => k,
                Err(e) => {
                    return Err(e);
                },
            };
            keys.push(key);
            i = i + 1;
            proof {
                assert(signer_keys(m, signers@.take(i as int)) =~= signer_keys(
                    m,
                    signers@.take(i - 1),
                ).push(authority));
            }
        }
        proof {
            assert(signers@.take(signers@.len() as int) =~= signers@);
        }
        obligation.public_keys.set(message_index, keys);
        let threshold = if STRONG_THRESHOLD {
            committee.quorum_threshold()
        } else {
            committee.validity_threshold()
        };
        if weight < threshold as u128 {
            return Err(SuiError::CertificateRequiresQuorum);
        }
        Ok(())
    }

    /// Verifies this certificate over the canonical encoding of `data`.
    pub fn verify<T: Signable>(&self, data: &T, committee: &Committee) -> (r: Result<(), SuiError>)
        requires
            data.encodable(),
        ensures
            quorum_verify_outcome(
                committee@,
                self.epoch,
                self.signature.0@,
                self.signers(),
                STRONG_THRESHOLD,
                data.signable_spec(),
                r,
            ),
    {
        let mut obligation = VerificationObligation::new();
        let idx = obligation.add_message(data);
        let _ = committee.num_members();
        match self.add_to_verification_obligation(committee, &mut obligation, idx) {
            Ok(()) => {},
            Err(e) => {
                return Err(e);
            },
        }
        proof {
            let keys = signer_keys(committee@.members, self.signers());
            lemma_quorum_has_signers(committee@, self.epoch, self.signers(), STRONG_THRESHOLD);
            assert(obligation.public_keys@[0]@ =~= keys);
            if bls_aggregate_verifies(
                obligation.signatures@[0]@,
                obligation.public_keys@[0]@,
                obligation.messages@[0]@,
            ) {
                assert(each_slot_verifies(obligation.signatures@, obligation.public_keys@, obligation.messages@));
            }
        }
        obligation.verify_all()
    }

    /// The number of signers.
    pub fn len(&self) -> (r: u64)
        ensures
            r == self.signers().len(),
    {
        bitmap_len(&self.signers_map)
    }

    pub fn is_empty(&self) -> (r: bool)
        ensures
            r == (self.signers().len() == 0),
    {
        bitmap_len(&self.signers_map) == 0
    }

    /// The signers' names, ascending by index; an index that names no member gives
    /// `InvalidAuthenticator`.
    pub fn authorities(&self, committee: &Committee) -> (r: Vec<Result<AuthorityName, SuiError>>)
        ensures
            r@.len() == self.signers().len(),
            forall|k: int|
                0 <= k < r@.len() ==> if (self.signers()[k] as int) < committee@.members.len() {
                    #[trigger] r@[k] == Ok::<AuthorityName, SuiError>(
                        committee@.members[self.signers()[k] as int].0,
                    )
                } else {
                    r@[k] == Err::<AuthorityName, SuiError>(SuiError::InvalidAuthenticator)
                },
    {
        let signers = bitmap_values(&self.signers_map);
        let mut r: Vec<Result<AuthorityName, SuiError>> = Vec::new();
        let mut i: usize = 0;
        while i < signers.len()
            invariant
                i <= signers@.len(),
                signers@ == self.signers(),
                r@.len() == i,
                forall|k: int|
                    0 <= k < i ==> if (signers@[k] as int) < committee@.members.len() {
                        #[trigger] r@[k] == Ok::<AuthorityName, SuiError>(
                            committee@.members[signers@[k] as int].0,
                        )
                    } else {
                        r@[k] == Err::<AuthorityName, SuiError>(SuiError::InvalidAuthenticator)
                    },
            decreases signers@.len() - i,
        {
            match committee.authority_by_index(signers[i]) {
                Some(a) => r.push(Ok(a)),
                None => r.push(Err(SuiError::InvalidAuthenticator)),
            }
            i = i + 1;
        }
        r
    }
}

/// For a strong certificate of the committee's epoch whose signers are all members, the
/// committee check passes exactly when their weight reaches the quorum threshold; and leaving
/// out one signer whose weight takes the rest below the threshold makes it fail.
pub proof fn lemma_quorum_monotone(c: CommitteeView, signers: Seq<u32>, k: int)
    requires
        signers_known(c.members, signers),
        0 <= k < signers.len(),
    ensures
        quorum_check(c, c.epoch, signers, true) is Ok <==> signers_weight(c.members, signers)
            >= quorum_threshold_of(total_of(c.members)),
        signers_weight(c.members, signers.remove(k)) == signers_weight(c.members, signers)
            - c.members[signers[k] as int].1,
        signers_weight(c.members, signers) - c.members[signers[k] as int].1 < quorum_threshold_of(
            total_of(c.members),
        ) ==> quorum_check(c, c.epoch, signers.remove(k), true) == Err::<(), SuiError>(
            SuiError::CertificateRequiresQuorum,
        ),
{
    lemma_signers_weight_remove(c.members, signers, k);
    assert(signers_known(c.members, signers.remove(k))) by {
        assert forall|j: int| 0 <= j < signers.remove(k).len() implies (#[trigger] signers.remove(
            k,
        )[j] as int) < c.members.len() by {
            if j < k {
                assert(signers.remove(k)[j] == signers[j]);
            } else {
                assert(signers.remove(k)[j] == signers[j + 1]);
            }
        }
    }
}

proof fn lemma_signers_weight_remove(m: Seq<(AuthorityName, StakeUnit)>, signers: Seq<u32>, k: int)
    requires
        signers_known(m, signers),
        0 <= k < signers.len(),
    ensures
        signers_weight(m, signers.remove(k)) == signers_weight(m, signers) - m[signers[k] as int].1,
    decreases signers.len(),
{
    let n = signers.len() - 1;
    if k == n {
        assert(signers.remove(k) =~= signers.drop_last());
    } else {
        let rest = signers.drop_last();
        assert(signers_known(m, rest)) by {
            assert forall|j: int| 0 <= j < rest.len() implies (#[trigger] rest[j] as int)
                < m.len() by {
                assert(rest[j] == signers[j]);
            }
        }
        lemma_signers_weight_remove(m, rest, k);
        assert(signers.remove(k).drop_last() =~= rest.remove(k));
        assert(signers.remove(k).last() == signers.last());
        assert(rest[k] == signers[k]);
        assert((signers[n] as int) < m.len());
    }
}

/// A signer set whose weight reaches the validity threshold but not the quorum threshold
/// passes the committee check as a weak certificate and fails it as a strong one.
pub proof fn lemma_weak_not_strong(c: CommitteeView, signers: Seq<u32>)
    requires
        signers_known(c.members, signers),
        validity_threshold_of(total_of(c.members)) <= signers_weight(c.members, signers),
        signers_weight(c.members, signers) < quorum_threshold_of(total_of(c.members)),
    ensures
        quorum_check(c, c.epoch, signers, false) is Ok,
        quorum_check(c, c.epoch, signers, true) == Err::<(), SuiError>(
            SuiError::CertificateRequiresQuorum,
        ),
{
}

proof fn lemma_total_at_least_len(m: Seq<(AuthorityName, StakeUnit)>)
    requires
        forall|i: int| 0 <= i < m.len() ==> #[trigger] m[i].1 > 0,
    ensures
        total_of(m) >= m.len(),
    decreases m.len(),
{
    if m.len() > 0 {
        let rest = m.drop_last();
        assert forall|i: int| 0 <= i < rest.len() implies #[trigger] rest[i].1 > 0 by {
            assert(rest[i] == m[i]);
        }
        lemma_total_at_least_len(rest);
        assert(m[m.len() - 1].1 > 0);
    }
}

/// A certificate that passes the committee check has at least one signer.
proof fn lemma_quorum_has_signers(c: CommitteeView, epoch: EpochId, signers: Seq<u32>, strong: bool)
    requires
        members_wf(c.members),
        quorum_check(c, epoch, signers, strong) is Ok,
    ensures
        signers.len() > 0,
{
    lemma_total_at_least_len(c.members);
    if signers.len() == 0 {
        assert(signers_weight(c.members, signers) == 0);
    }
}

/// Verifying a certificate of the committee's epoch whose signers are all members, and whose
/// aggregate folds, follows its weight: below the threshold of its kind it fails with the
/// weight error; at or above it, with an aggregate that verifies under the signers' keys, it
/// passes.
pub proof fn lemma_verify_follows_weight(
    c: CommitteeView,
    signature: Seq<u8>,
    signers: Seq<u32>,
    strong: bool,
    message: Seq<u8>,
    agg: Seq<u8>,
    r: Result<(), SuiError>,
)
    requires
        signers_known(c.members, signers),
        bls_add_aggregate_of(bls_infinity(), signature) == Some(agg),
        quorum_verify_outcome(c, c.epoch, signature, signers, strong, message, r),
    ensures
        signers_weight(c.members, signers) < threshold_for(strong, total_of(c.members)) ==> r
            == Err::<(), SuiError>(SuiError::CertificateRequiresQuorum),
        signers_weight(c.members, signers) >= threshold_for(strong, total_of(c.members))
            && bls_aggregate_verifies(agg, signer_keys(c.members, signers), message) ==> r is Ok,
{
}

/// One signer set, aggregate and message, at the validity threshold but below the quorum
/// threshold: the weak certificate verifies and the strong one fails with the weight error.
pub proof fn lemma_weak_verifies_strong_fails(
    c: CommitteeView,
    signature: Seq<u8>,
    signers: Seq<u32>,
    message: Seq<u8>,
    agg: Seq<u8>,
    weak: Result<(), SuiError>,
    strong: Result<(), SuiError>,
)
    requires
        signers_known(c.members, signers),
        validity_threshold_of(total_of(c.members)) <= signers_weight(c.members, signers),
        signers_weight(c.members, signers) < quorum_threshold_of(total_of(c.members)),
        bls_add_aggregate_of(bls_infinity(), signature) == Some(agg),
        bls_aggregate_verifies(agg, signer_keys(c.members, signers), message),
        quorum_verify_outcome(c, c.epoch, signature, signers, false, message, weak),
        quorum_verify_outcome(c, c.epoch, signature, signers, true, message, strong),
    ensures
        weak is Ok,
        strong == Err::<(), SuiError>(SuiError::CertificateRequiresQuorum),
{
    lemma_verify_follows_weight(c, signature, signers, false, message, agg, weak);
    lemma_verify_follows_weight(c, signature, signers, true, message, agg, strong);
}

} // verus!
