use vstd::prelude::*;
use crate::base_types::{bytes_less, bytes_lt, AuthorityName, AuthorityPublicKeyBytes, EpochId};
use crate::error::SuiError;

verus! {

/// The voting weight of a validator.
pub type StakeUnit = u64;

/// A committee in mathematical form: its epoch and its members with their weights, in
/// index order.
pub struct CommitteeView {
    pub epoch: EpochId,
    pub members: Seq<(AuthorityName, StakeUnit)>,
}

/// The sum of the weights of `m`.
pub open spec fn total_of(m: Seq<(AuthorityName, StakeUnit)>) -> int
    decreases m.len(),
{
    if m.len() == 0 {
        0
    } else {
        total_of(m.drop_last()) + m.last().1
    }
}

/// What a committee's members must satisfy: at least one member, indices that fit in 32
/// bits, no zero weight, names in strictly ascending order (hence distinct), and a total
/// weight that fits in 64 bits.
pub open spec fn members_wf(m: Seq<(AuthorityName, StakeUnit)>) -> bool {
    &&& 0 < m.len() <= u32::MAX
    &&& forall|i: int| 0 <= i < m.len() ==> #[trigger] m[i].1 > 0
    &&& forall|i: int, j: int| 0 <= i < j < m.len() ==> bytes_lt(m[i].0.0@, m[j].0.0@)
    &&& total_of(m) <= u64::MAX
}

/// Whether `name` is a member.
pub open spec fn is_member(m: Seq<(AuthorityName, StakeUnit)>, name: AuthorityName) -> bool {
    exists|i: int| 0 <= i < m.len() && m[i].0 == name
}

/// The position of `name` among the members, if it is one.
pub open spec fn index_of(m: Seq<(AuthorityName, StakeUnit)>, name: AuthorityName) -> int {
    choose|i: int| 0 <= i < m.len() && m[i].0 == name
}

/// The weight of `name`: zero for one that is no member.
pub open spec fn weight_of(m: Seq<(AuthorityName, StakeUnit)>, name: AuthorityName) -> StakeUnit {
    if is_member(m, name) {
        m[index_of(m, name)].1
    } else {
        0
    }
}

/// The least weight that makes a certificate a quorum (2f+1 of 3f+1).
pub open spec fn quorum_threshold_of(total: int) -> int {
    2 * total / 3 + 1
}

/// The least weight that guarantees one honest signer (f+1 of 3f+1).
pub open spec fn validity_threshold_of(total: int) -> int {
    (total + 2) / 3
}

proof fn lemma_lt_irreflexive(a: Seq<u8>)
    ensures
        !bytes_lt(a, a),
{
}

/// The weighted validator set of one epoch. It never changes; a new epoch brings a new one.
pub struct Committee {
    epoch: EpochId,
    voting_rights: Vec<(AuthorityName, StakeUnit)>,
    total_votes: StakeUnit,
}

impl View for Committee {
    type V = CommitteeView;

    closed spec fn view(&self) -> CommitteeView {
        CommitteeView { epoch: self.epoch, members: self.voting_rights@ }
    }
}

impl Committee {
    #[verifier::type_invariant]
    spec fn inv(self) -> bool {
        &&& members_wf(self.voting_rights@)
        &&& self.total_votes == total_of(self.voting_rights@)
    }

    /// Builds the committee of `epoch` from its members with their weights, in ascending
    /// order of name; the position of a member is its index.
    pub fn new(epoch: EpochId, voting_rights: Vec<(AuthorityName, StakeUnit)>) -> (r: Result<
        Committee,
        SuiError,
    >)
        ensures
            r is Ok <==> members_wf(voting_rights@),
            r matches Ok(c) ==> c@.epoch == epoch && c@.members == voting_rights@,
            r matches Err(e) ==> e == SuiError::InvalidCommittee,
    {
        let n = voting_rights.len();
        if n == 0 || n > 0xffff_ffffusize {
            return Err(SuiError::InvalidCommittee);
        }
        let mut total: u64 = 0;
        let mut i: usize = 0;
        while i < n
            invariant
                n == voting_rights.len(),
                0 < n <= u32::MAX,
                i <= n,
                total == total_of(voting_rights@.take(i as int)),
                forall|k: int| 0 <= k < i ==> #[trigger] voting_rights@[k].1 > 0,
                forall|a: int, b: int|
                    0 <= a < b < i ==> bytes_lt(voting_rights@[a].0.0@, voting_rights@[b].0.0@),
            decreases n - i,
        {
            proof {
                assert(voting_rights@.take(i + 1).drop_last() =~= voting_rights@.take(i as int));
            }
            let (name, weight) = voting_rights[i];
            if weight == 0 {
                return Err(SuiError::InvalidCommittee);
            }
            let mut j: usize = 0;
            while j < i
                invariant
                    i < n,
                    n == voting_rights.len(),
                    j <= i,
                    name == voting_rights@[i as int].0,
                    forall|a: int| 0 <= a < j ==> bytes_lt(voting_rights@[a].0.0@, name.0@),
                decreases i - j,
            {
                let earlier = voting_rights[j].0;
                if !bytes_less(&earlier.0, &name.0) {
                    return Err(SuiError::InvalidCommittee);
                }
                j = j + 1;
            }
            if total > u64::MAX - weight {
                proof {
                    assert(voting_rights@.take(i + 1).last() == voting_rights@[i as int]);
                    lemma_total_prefix(voting_rights@, i + 1);
                }
                return Err(SuiError::InvalidCommittee);
            }
            total = total + weight;
            i = i + 1;
        }
        proof {
            assert(voting_rights@.take(n as int) =~= voting_rights@);
        }
        Ok(Committee { epoch, voting_rights, total_votes: total })
    }

    pub fn epoch(&self) -> (r: EpochId)
        ensures
            r == self@.epoch,
    {
        self.epoch
    }

    /// The number of members.
    pub fn num_members(&self) -> (r: usize)
        ensures
            r == self@.members.len(),
            members_wf(self@.members),
    {
        proof {
            use_type_invariant(self);
        }
        self.voting_rights.len()
    }

    pub fn total_votes(&self) -> (r: StakeUnit)
        ensures
            r == total_of(self@.members),
            members_wf(self@.members),
    {
        proof {
            use_type_invariant(self);
        }
        self.total_votes
    }

    pub fn quorum_threshold(&self) -> (r: StakeUnit)
        ensures
            r == quorum_threshold_of(total_of(self@.members)),
    {
        proof {
            use_type_invariant(self);
        }
        // With a total of 3f + 1 + k (0 <= k < 3) this is 2f + 1 + k.
        let t = self.total_votes as u128;
        (2 * t / 3 + 1) as u64
    }

    pub fn validity_threshold(&self) -> (r: StakeUnit)
        ensures
            r == validity_threshold_of(total_of(self@.members)),
    {
        proof {
            use_type_invariant(self);
        }
        // With a total of 3f + 1 + k (0 <= k < 3) this is f + 1.
        let t = self.total_votes as u128;
        ((t + 2) / 3) as u64
    }

    /// The index of `name`, if it is a member.
    pub fn authority_index(&self, name: &AuthorityName) -> (r: Option<u32>)
        ensures
            r is None <==> !is_member(self@.members, *name),
            r matches Some(i) ==> i < self@.members.len() && self@.members[i as int].0 == *name,
    {
        proof {
            use_type_invariant(self);
        }
        let mut i: usize = 0;
        while i < self.voting_rights.len()
            invariant
                i <= self.voting_rights.len(),
                self.voting_rights.len() <= u32::MAX,
                forall|k: int| 0 <= k < i ==> self.voting_rights@[k].0 != *name,
            decreases self.voting_rights.len() - i,
        {
            if self.voting_rights[i].0 == *name {
                return Some(i as u32);
            }
            i = i + 1;
        }
        None
    }

    /// The member at `index`, if there is one.
    pub fn authority_by_index(&self, index: u32) -> (r: Option<AuthorityName>)
        ensures
            r is Some <==> index < self@.members.len(),
            r matches Some(name) ==> name == self@.members[index as int].0,
    {
        if (index as usize) < self.voting_rights.len() {
            Some(self.voting_rights[index as usize].0)
        } else {
            None
        }
    }

    /// The weight of `name`; zero for one that is no member.
    pub fn weight(&self, name: &AuthorityName) -> (r: StakeUnit)
        ensures
            r == weight_of(self@.members, *name),
            r > 0 <==> is_member(self@.members, *name),
    {
        proof {
            use_type_invariant(self);
        }
        match self.authority_index(name) {
            Some(i) => {
                proof {
                    lemma_member_at(self.voting_rights@, i as int);
                }
                self.voting_rights[i as usize].1
            },
            None => 0,
        }
    }

    /// The public key of `name`, to check its signatures with; fails for one that is no
    /// member.
    pub fn public_key(&self, name: &AuthorityName) -> (r: Result<AuthorityPublicKeyBytes, SuiError>)
        ensures
            r is Ok <==> is_member(self@.members, *name),
            r matches Ok(k) ==> k == *name,
            r matches Err(e) ==> e == SuiError::InvalidCommittee,
    {
        match self.authority_index(name) {
            Some(i) => Ok(self.voting_rights[i as usize].0),
            None => Err(SuiError::InvalidCommittee),
        }
    }
}

proof fn lemma_total_prefix(m: Seq<(AuthorityName, StakeUnit)>, k: int)
    requires
        0 <= k <= m.len(),
    ensures
        total_of(m.take(k)) <= total_of(m),
    decreases m.len() - k,
{
    if k < m.len() {
        lemma_total_prefix(m, k + 1);
        assert(m.take(k + 1).drop_last() =~= m.take(k));
    } else {
        assert(m.take(k) =~= m);
    }
}

/// In a well-formed committee the member at `i` is found at `i`, with its own weight.
pub proof fn lemma_member_at(m: Seq<(AuthorityName, StakeUnit)>, i: int)
    requires
        members_wf(m),
        0 <= i < m.len(),
    ensures
        is_member(m, m[i].0),
        index_of(m, m[i].0) == i,
        weight_of(m, m[i].0) == m[i].1,
        m[i].1 > 0,
{
    let name = m[i].0;
    assert(is_member(m, name));
    let j = index_of(m, name);
    if j != i {
        if j < i {
            assert(bytes_lt(m[j].0.0@, m[i].0.0@));
        } else {
            assert(bytes_lt(m[i].0.0@, m[j].0.0@));
        }
        lemma_lt_irreflexive(name.0@);
    }
}

} // verus!
