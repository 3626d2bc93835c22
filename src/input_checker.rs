use vstd::prelude::*;
use crate::base_types::{ObjectID, SuiAddress, SEQUENCE_NUMBER_MAX};
use crate::error::SuiError;
use crate::gas::{check_gas, gas_check_spec, gas_failure_of, GasFailure, SuiGasStatus};
use crate::messages::{transfer_ids_of, TransactionData};
use crate::object::{InputObjectKind, InputObjects, Object, Owner};

verus! {

/// The outcome of the ownership check of an object declared as owned or immutable.
pub open spec fn ownership_result(
    sender: SuiAddress,
    object: Object,
    authenticators: Seq<SuiAddress>,
) -> Result<(), SuiError> {
    match object.owner {
        Owner::Immutable => Ok(()),
        Owner::AddressOwner(owner) => if sender == owner {
            Ok(())
        } else {
            Err(SuiError::IncorrectSigner { expected: owner, given: sender })
        },
        Owner::ObjectOwner(owner) => if owner != object.id.address_spec() && authenticators.contains(
            owner,
        ) {
            Ok(())
        } else {
            Err(SuiError::MissingObjectOwner { child_id: object.id, parent_id: owner })
        },
        Owner::Shared => Err(SuiError::NotSharedObjectError),
    }
}

/// The outcome of checking one declared input against the object fetched for it.
pub open spec fn one_object_result(
    sender: SuiAddress,
    kind: InputObjectKind,
    object: Object,
    authenticators: Seq<SuiAddress>,
) -> Result<(), SuiError> {
    match kind {
        InputObjectKind::MovePackage(package_id) => if object.is_package_spec() {
            Ok(())
        } else {
            Err(SuiError::MoveObjectAsPackage { object_id: package_id })
        },
        InputObjectKind::ImmOrOwnedMoveObject((object_id, sequence_number, object_digest)) => {
            if object.is_package_spec() {
                Err(SuiError::MovePackageAsObject { object_id })
            } else if !(sequence_number < SEQUENCE_NUMBER_MAX - 1) {
                Err(SuiError::InvalidSequenceNumber)
            } else if object.version != sequence_number {
                Err(
                    SuiError::UnexpectedSequenceNumber {
                        object_id,
                        expected_sequence: object.version,
                        given_sequence: sequence_number,
                    },
                )
            } else if object.digest != object_digest {
                Err(SuiError::InvalidObjectDigest { object_id, expected_digest: object.digest })
            } else {
                ownership_result(sender, object, authenticators)
            }
        },
        InputObjectKind::SharedMoveObject(_) => if !(object.version < SEQUENCE_NUMBER_MAX) {
            Err(SuiError::InvalidSequenceNumber)
        } else if object.is_shared_spec() {
            Ok(())
        } else {
            Err(SuiError::NotSharedObjectError)
        },
    }
}

/// The addresses of the mutable (not immutable) objects among `objs`, in order.
pub open spec fn mutable_ids(objs: Seq<Object>) -> Seq<SuiAddress>
    decreases objs.len(),
{
    if objs.len() == 0 {
        Seq::empty()
    } else {
        let rest = mutable_ids(objs.drop_last());
        if objs.last().is_immutable_spec() {
            rest
        } else {
            rest.push(objs.last().id.address_spec())
        }
    }
}

/// The first mutable object, in order, whose id an earlier mutable object already has.
pub open spec fn first_duplicate(objs: Seq<Object>) -> Option<ObjectID>
    decreases objs.len(),
{
    if objs.len() == 0 {
        None
    } else {
        match first_duplicate(objs.drop_last()) {
            Some(id) => Some(id),
            None => {
                let o = objs.last();
                if !o.is_immutable_spec() && mutable_ids(objs.drop_last()).contains(
                    o.id.address_spec(),
                ) {
                    Some(o.id)
                } else {
                    None
                }
            },
        }
    }
}

/// Whether two distinct positions of `objs` hold mutable objects with one id.
pub open spec fn has_duplicate_mutable(objs: Seq<Object>) -> bool {
    exists|i: int, j: int|
        0 <= i < objs.len() && 0 <= j < objs.len() && i != j && !objs[i].is_immutable_spec()
            && !objs[j].is_immutable_spec() && objs[i].id == objs[j].id
}

/// The per-object pass over the first `objs.len()` pairs: the failures collected so far,
/// or the transfer-eligibility failure that stops the pass.
pub open spec fn object_errors(
    sender: SuiAddress,
    transfers: Seq<ObjectID>,
    kinds: Seq<InputObjectKind>,
    objs: Seq<Object>,
    authenticators: Seq<SuiAddress>,
) -> Result<Seq<SuiError>, SuiError>
    decreases objs.len(),
{
    if objs.len() == 0 || kinds.len() == 0 {
        Ok(Seq::empty())
    } else {
        match object_errors(sender, transfers, kinds.drop_last(), objs.drop_last(), authenticators) {
            Err(e) => Err(e),
            Ok(errs) => {
                let o = objs.last();
                let eligible = if transfers.contains(o.id) {
                    o.transfer_eligibility()
                } else {
                    Ok(())
                };
                match eligible {
                    Err(e) => Err(e),
                    Ok(_) => match one_object_result(sender, kinds.last(), o, authenticators) {
                        Ok(_) => Ok(errs),
                        Err(e) => Ok(errs.push(e)),
                    },
                }
            },
        }
    }
}

/// The result of checking all inputs of a transaction, in mathematical form.
pub enum CheckOutcome {
    /// A mutable object serves more than once; the id is the first repeat.
    Duplicate(ObjectID),
    /// A transfer target may not be transferred.
    Rejected(SuiError),
    /// The failures of single objects, all of them, in input order.
    Errors(Seq<SuiError>),
    /// Nothing was declared.
    Empty,
    /// Every pair passed; these are the pairs.
    Valid(Seq<(InputObjectKind, Object)>),
}

/// Pairs each declared input with its object.
pub open spec fn pair_up(kinds: Seq<InputObjectKind>, objs: Seq<Object>) -> Seq<(InputObjectKind, Object)> {
    Seq::new(objs.len(), |i: int| (kinds[i], objs[i]))
}

/// What checking the inputs `kinds`, resolved to `objs`, of a transaction by `sender` whose
/// transfers move `transfers` yields.
pub open spec fn check_objects_spec(
    sender: SuiAddress,
    transfers: Seq<ObjectID>,
    kinds: Seq<InputObjectKind>,
    objs: Seq<Object>,
) -> CheckOutcome {
    match first_duplicate(objs) {
        Some(id) => CheckOutcome::Duplicate(id),
        None => match object_errors(sender, transfers, kinds, objs, mutable_ids(objs)) {
            Err(e) => CheckOutcome::Rejected(e),
            Ok(errs) => if errs.len() > 0 {
                CheckOutcome::Errors(errs)
            } else if objs.len() == 0 {
                CheckOutcome::Empty
            } else {
                CheckOutcome::Valid(pair_up(kinds, objs))
            },
        },
    }
}

/// Reads an executable result of the check as a `CheckOutcome`.
pub open spec fn outcome_of(r: &Result<InputObjects, SuiError>) -> CheckOutcome {
    match r {
        Ok(io) => CheckOutcome::Valid(io@),
        Err(SuiError::InvalidBatchTransaction { object_id }) => CheckOutcome::Duplicate(*object_id),
        Err(SuiError::ObjectErrors { errors }) => CheckOutcome::Errors(errors@),
        Err(SuiError::ObjectInputArityViolation) => CheckOutcome::Empty,
        Err(e) => CheckOutcome::Rejected(*e),
    }
}

fn contains_address(v: &Vec<SuiAddress>, a: &SuiAddress) -> (r: bool)
    ensures
        r == v@.contains(*a),
{
    let mut i: usize = 0;
    while i < v.len()
        invariant
            i <= v.len(),
            forall|k: int| 0 <= k < i ==> v@[k] != *a,
        decreases v.len() - i,
    {
        if v[i] == *a {
            assert(v@[i as int] == *a);
            return true;
        }
        i = i + 1;
    }
    false
}

fn contains_id(v: &Vec<ObjectID>, a: &ObjectID) -> (r: bool)
    ensures
        r == v@.contains(*a),
{
    let mut i: usize = 0;
    while i < v.len()
        invariant
            i <= v.len(),
            forall|k: int| 0 <= k < i ==> v@[k] != *a,
        decreases v.len() - i,
    {
        if v[i] == *a {
            assert(v@[i as int] == *a);
            return true;
        }
        i = i + 1;
    }
    false
}

/// Checks one declared input against the object fetched for it.
pub fn check_one_object(
    sender: &SuiAddress,
    object_kind: InputObjectKind,
    object: &Object,
    owned_object_authenticators: &Vec<SuiAddress>,
) -> (r: Result<(), SuiError>)
    ensures
        r == one_object_result(*sender, object_kind, *object, owned_object_authenticators@),
{
    match object_kind {
        InputObjectKind::MovePackage(package_id) => {
            if !object.is_package() {
                return Err(SuiError::MoveObjectAsPackage { object_id: package_id });
            }
        },
        InputObjectKind::ImmOrOwnedMoveObject((object_id, sequence_number, object_digest)) => {
            if object.is_package() {
                return Err(SuiError::MovePackageAsObject { object_id });
            }
            // Wrapped objects that are later deleted get the largest version, so the
            // largest usable one is one below it.
            if !(sequence_number < SEQUENCE_NUMBER_MAX - 1) {
                return Err(SuiError::InvalidSequenceNumber);
            }
            if object.version() != sequence_number {
                return Err(
                    SuiError::UnexpectedSequenceNumber {
                        object_id,
                        expected_sequence: object.version(),
                        given_sequence: sequence_number,
                    },
                );
            }
            let expected_digest = object.digest();
            if !(expected_digest == object_digest) {
                return Err(SuiError::InvalidObjectDigest { object_id, expected_digest });
            }
            match object.owner {
                Owner::Immutable => {},
                Owner::AddressOwner(owner) => {
                    if !(*sender == owner) {
                        return Err(SuiError::IncorrectSigner { expected: owner, given: *sender });
                    }
                },
                Owner::ObjectOwner(owner) => {
                    // The parent must be another mutable input: an object cannot own itself.
                    if owner == object.id.to_address() || !contains_address(
                        owned_object_authenticators,
                        &owner,
                    ) {
                        return Err(
                            SuiError::MissingObjectOwner { child_id: object.id(), parent_id: owner },
                        );
                    }
                },
                Owner::Shared => {
                    // A shared object declared as owned.
                    return Err(SuiError::NotSharedObjectError);
                },
            }
        },
        InputObjectKind::SharedMoveObject(_) => {
            if !(object.version() < SEQUENCE_NUMBER_MAX) {
                return Err(SuiError::InvalidSequenceNumber);
            }
            if !object.is_shared() {
                return Err(SuiError::NotSharedObjectError);
            }
        },
    }
    Ok(())
}

proof fn lemma_first_duplicate_extends(objs: Seq<Object>, k: int, n: int)
    requires
        0 <= k <= n <= objs.len(),
        first_duplicate(objs.take(k)) is Some,
    ensures
        first_duplicate(objs.take(n)) == first_duplicate(objs.take(k)),
    decreases n - k,
{
    if n > k {
        lemma_first_duplicate_extends(objs, k, n - 1);
        assert(objs.take(n).drop_last() =~= objs.take(n - 1));
    }
}

proof fn lemma_object_errors_extends(
    sender: SuiAddress,
    transfers: Seq<ObjectID>,
    kinds: Seq<InputObjectKind>,
    objs: Seq<Object>,
    auths: Seq<SuiAddress>,
    k: int,
    n: int,
)
    requires
        0 < k <= n <= objs.len(),
        kinds.len() == objs.len(),
        object_errors(sender, transfers, kinds.take(k), objs.take(k), auths) is Err,
    ensures
        object_errors(sender, transfers, kinds.take(n), objs.take(n), auths) == object_errors(
            sender,
            transfers,
            kinds.take(k),
            objs.take(k),
            auths,
        ),
    decreases n - k,
{
    if n > k {
        lemma_object_errors_extends(sender, transfers, kinds, objs, auths, k, n - 1);
        assert(objs.take(n).drop_last() =~= objs.take(n - 1));
        assert(kinds.take(n).drop_last() =~= kinds.take(n - 1));
    }
}

/// Checks every declared input of `transaction` against the object fetched for it (same
/// order, same length). Mutable objects may serve once only; transfer targets must be
/// transferable; the failures of single objects are returned all together; at least one
/// input must be declared.
pub fn check_objects(
    transaction: &TransactionData,
    input_objects: Vec<InputObjectKind>,
    objects: Vec<Object>,
) -> (r: Result<InputObjects, SuiError>)
    requires
        input_objects.len() == objects.len(),
    ensures
        outcome_of(&r) == check_objects_spec(
            transaction.sender,
            transfer_ids_of(transaction.kind.singles()),
            input_objects@,
            objects@,
        ),
{
    let ghost kinds = input_objects@;
    let ghost objs = objects@;
    // Any mutable object, owned or shared, can authenticate the objects it owns, and may
    // appear only once.
    let mut owned_object_authenticators: Vec<SuiAddress> = Vec::new();
    let mut i: usize = 0;
    while i < objects.len()
        invariant
            i <= objects.len(),
            objs == objects@,
            owned_object_authenticators@ == mutable_ids(objs.take(i as int)),
            first_duplicate(objs.take(i as int)) is None,
        decreases objects.len() - i,
    {
        proof {
            assert(objs.take(i + 1).drop_last() =~= objs.take(i as int));
            assert(objs.take(i + 1).last() == objs[i as int]);
        }
        let object = &objects[i];
        if !object.is_immutable() {
            let address = object.id.to_address();
            if contains_address(&owned_object_authenticators, &address) {
                proof {
                    lemma_first_duplicate_extends(objs, i + 1, objs.len() as int);
                    assert(objs.take(objs.len() as int) =~= objs);
                }
                return Err(SuiError::InvalidBatchTransaction { object_id: object.id });
            }
            owned_object_authenticators.push(address);
        }
        i = i + 1;
    }
    proof {
        assert(objs.take(objs.len() as int) =~= objs);
    }
    let ghost auths = owned_object_authenticators@;
    let transfer_object_ids = transaction.kind.transfer_object_ids();
    let sender = transaction.signer();
    let mut all_objects: Vec<(InputObjectKind, Object)> = Vec::new();
    let mut errors: Vec<SuiError> = Vec::new();
    let mut k: usize = 0;
    while k < objects.len()
        invariant
            k <= objects.len(),
            objs == objects@,
            kinds == input_objects@,
            kinds.len() == objs.len(),
            auths == owned_object_authenticators@,
            auths == mutable_ids(objs),
            first_duplicate(objs) is None,
            sender == transaction.sender,
            transfer_object_ids@ == transfer_ids_of(transaction.kind.singles()),
            object_errors(
                sender,
                transfer_object_ids@,
                kinds.take(k as int),
                objs.take(k as int),
                auths,
            ) == Ok::<Seq<SuiError>, SuiError>(errors@),
            errors@.len() == 0 ==> all_objects@ =~= pair_up(kinds.take(k as int), objs.take(k as int)),
        decreases objects.len() - k,
    {
        proof {
            assert(objs.take(k + 1).drop_last() =~= objs.take(k as int));
            assert(kinds.take(k + 1).drop_last() =~= kinds.take(k as int));
            assert(objs.take(k + 1).last() == objs[k as int]);
            assert(kinds.take(k + 1).last() == kinds[k as int]);
        }
        let object = objects[k];
        let object_kind = input_objects[k];
        if contains_id(&transfer_object_ids, &object.id) {
            match object.ensure_public_transfer_eligible() {
                Err(e) => {
                    proof {
                        lemma_object_errors_extends(
                            sender,
                            transfer_object_ids@,
                            kinds,
                            objs,
                            auths,
                            k + 1,
                            objs.len() as int,
                        );
                        assert(objs.take(objs.len() as int) =~= objs);
                        assert(kinds.take(kinds.len() as int) =~= kinds);
                    }
                    return Err(e);
                },
                Ok(()) => {},
            }
        }
        match check_one_object(&sender, object_kind, &object, &owned_object_authenticators) {
            Ok(()) => {
                all_objects.push((object_kind, object));
            },
            Err(e) => {
                errors.push(e);
            },
        }
        k = k + 1;
    }
    proof {
        assert(objs.take(objs.len() as int) =~= objs);
        assert(kinds.take(kinds.len() as int) =~= kinds);
    }
    // All failures go back together, so that the client can mend every input at once.
    if errors.len() > 0 {
        return Err(SuiError::ObjectErrors { errors });
    }
    if all_objects.len() == 0 {
        return Err(SuiError::ObjectInputArityViolation);
    }
    Ok(InputObjects::new(all_objects))
}

/// Whether `r` is what admission owes, given the outcome of the gas precheck and of the
/// check of the inputs.
pub open spec fn admission_matches(
    r: &Result<(SuiGasStatus, InputObjects), SuiError>,
    gas: Result<SuiGasStatus, GasFailure>,
    inputs: CheckOutcome,
) -> bool {
    match gas {
        Err(f) => r matches Err(e) && gas_failure_of(*e) == Some(f),
        Ok(g) => match r {
            Ok((g2, io)) => *g2 == g && inputs == CheckOutcome::Valid(io@),
            Err(e) => inputs == outcome_of(&Err::<InputObjects, SuiError>(*e)) && !(inputs is Valid),
        },
    }
}

fn check_gas_and_objects(
    transaction: &TransactionData,
    gas_object: Option<Object>,
    storage_gas_price: u64,
    input_objects: Vec<InputObjectKind>,
    objects: Vec<Object>,
) -> (r: Result<(SuiGasStatus, InputObjects), SuiError>)
    requires
        input_objects.len() == objects.len(),
    ensures
        admission_matches(
            &r,
            gas_check_spec(
                transaction.gas_payment,
                gas_object,
                transaction.gas_budget,
                transaction.gas_price,
                storage_gas_price,
                &transaction.kind,
            ),
            check_objects_spec(
                transaction.sender,
                transfer_ids_of(transaction.kind.singles()),
                input_objects@,
                objects@,
            ),
        ),
{
    let gas_status = match check_gas(
        &transaction.gas_payment,
        gas_object,
        transaction.gas_budget,
        transaction.gas_price,
        storage_gas_price,
        &transaction.kind,
    ) {
        Ok(g) => g,
        Err(e) => {
            return Err(e);
        },
    };
    match check_objects(transaction, input_objects, objects) {
        Ok(io) => Ok((gas_status, io)),
        Err(e) => Err(e),
    }
}

/// Admits the inputs of a transaction: the gas precheck on the fetched gas object, then the
/// check of each declared input against the object fetched for it (same order, same length).
pub fn check_transaction_input(
    transaction: &TransactionData,
    gas_object: Option<Object>,
    storage_gas_price: u64,
    input_objects: Vec<InputObjectKind>,
    objects: Vec<Object>,
) -> (r: Result<(SuiGasStatus, InputObjects), SuiError>)
    requires
        input_objects.len() == objects.len(),
    ensures
        admission_matches(
            &r,
            gas_check_spec(
                transaction.gas_payment,
                gas_object,
                transaction.gas_budget,
                transaction.gas_price,
                storage_gas_price,
                &transaction.kind,
            ),
            check_objects_spec(
                transaction.sender,
                transfer_ids_of(transaction.kind.singles()),
                input_objects@,
                objects@,
            ),
        ),
{
    check_gas_and_objects(transaction, gas_object, storage_gas_price, input_objects, objects)
}

/// Admits the inputs of a certified transaction. The objects are those that sequencing
/// assigned (or, for the epoch change, the current ones); the checks are those of
/// `check_transaction_input`.
pub fn check_certificate_input(
    transaction: &TransactionData,
    gas_object: Option<Object>,
    storage_gas_price: u64,
    input_objects: Vec<InputObjectKind>,
    objects: Vec<Object>,
) -> (r: Result<(SuiGasStatus, InputObjects), SuiError>)
    requires
        input_objects.len() == objects.len(),
    ensures
        admission_matches(
            &r,
            gas_check_spec(
                transaction.gas_payment,
                gas_object,
                transaction.gas_budget,
                transaction.gas_price,
                storage_gas_price,
                &transaction.kind,
            ),
            check_objects_spec(
                transaction.sender,
                transfer_ids_of(transaction.kind.singles()),
                input_objects@,
                objects@,
            ),
        ),
{
    check_gas_and_objects(transaction, gas_object, storage_gas_price, input_objects, objects)
}

proof fn lemma_mutable_ids_has(objs: Seq<Object>, i: int)
    requires
        0 <= i < objs.len(),
        !objs[i].is_immutable_spec(),
    ensures
        mutable_ids(objs).contains(objs[i].id.address_spec()),
    decreases objs.len(),
{
    let rest = objs.drop_last();
    if i == objs.len() - 1 {
        assert(mutable_ids(objs).last() == objs[i].id.address_spec());
        assert(mutable_ids(objs)[mutable_ids(objs).len() - 1] == objs[i].id.address_spec());
    } else {
        assert(rest[i] == objs[i]);
        lemma_mutable_ids_has(rest, i);
        let k = choose|k: int|
            0 <= k < mutable_ids(rest).len() && mutable_ids(rest)[k] == objs[i].id.address_spec();
        assert(mutable_ids(objs)[k] == mutable_ids(rest)[k]);
    }
}

proof fn lemma_mutable_ids_from(objs: Seq<Object>, a: SuiAddress)
    requires
        mutable_ids(objs).contains(a),
    ensures
        exists|i: int|
            0 <= i < objs.len() && !objs[i].is_immutable_spec() && objs[i].id.address_spec() == a,
    decreases objs.len(),
{
    let rest = objs.drop_last();
    let last = objs.last();
    if !last.is_immutable_spec() && last.id.address_spec() == a {
        assert(objs[objs.len() - 1] == last);
    } else {
        if objs.len() > 0 {
            let k = choose|k: int| 0 <= k < mutable_ids(objs).len() && mutable_ids(objs)[k] == a;
            if !last.is_immutable_spec() {
                assert(k < mutable_ids(rest).len());
            }
            assert(mutable_ids(rest)[k] == a);
            lemma_mutable_ids_from(rest, a);
            let i = choose|i: int|
                0 <= i < rest.len() && !rest[i].is_immutable_spec() && rest[i].id.address_spec() == a;
            assert(objs[i] == rest[i]);
        }
    }
}

proof fn lemma_first_duplicate_iff(objs: Seq<Object>)
    ensures
        first_duplicate(objs) is Some <==> has_duplicate_mutable(objs),
    decreases objs.len(),
{
    if objs.len() > 0 {
        let rest = objs.drop_last();
        let last = objs.last();
        let n = objs.len() - 1;
        lemma_first_duplicate_iff(rest);
        if has_duplicate_mutable(objs) {
            let (i, j) = choose|i: int, j: int|
                0 <= i < objs.len() && 0 <= j < objs.len() && i != j
                    && !objs[i].is_immutable_spec() && !objs[j].is_immutable_spec()
                    && objs[i].id == objs[j].id;
            if i < n && j < n {
                assert(rest[i] == objs[i] && rest[j] == objs[j]);
                assert(has_duplicate_mutable(rest));
            } else if i == n {
                assert(rest[j] == objs[j]);
                lemma_mutable_ids_has(rest, j);
            } else {
                assert(rest[i] == objs[i]);
                lemma_mutable_ids_has(rest, i);
            }
        }
        if first_duplicate(objs) is Some {
            if first_duplicate(rest) is Some {
                let (i, j) = choose|i: int, j: int|
                    0 <= i < rest.len() && 0 <= j < rest.len() && i != j
                        && !rest[i].is_immutable_spec() && !rest[j].is_immutable_spec()
                        && rest[i].id == rest[j].id;
                assert(objs[i] == rest[i] && objs[j] == rest[j]);
            } else {
                lemma_mutable_ids_from(rest, last.id.address_spec());
                let i = choose|i: int|
                    0 <= i < rest.len() && !rest[i].is_immutable_spec()
                        && rest[i].id.address_spec() == last.id.address_spec();
                assert(objs[i] == rest[i]);
                assert(objs[n] == last);
                assert(objs[i].id == objs[n].id);
            }
        }
    }
}

/// Two positions that hold one mutable object make the check of the inputs fail with the
/// duplicate error, wherever they stand in the list; without such a pair it never fails so.
pub proof fn lemma_duplicate_mutable_rejected(
    sender: SuiAddress,
    transfers: Seq<ObjectID>,
    kinds: Seq<InputObjectKind>,
    objs: Seq<Object>,
)
    ensures
        check_objects_spec(sender, transfers, kinds, objs) is Duplicate <==> has_duplicate_mutable(
            objs,
        ),
{
    lemma_first_duplicate_iff(objs);
}

proof fn lemma_mutable_ids_permutation(objs1: Seq<Object>, objs2: Seq<Object>, a: SuiAddress)
    requires
        objs1.to_multiset() == objs2.to_multiset(),
        mutable_ids(objs1).contains(a),
    ensures
        mutable_ids(objs2).contains(a),
{
    broadcast use vstd::seq_lib::to_multiset_contains;

    lemma_mutable_ids_from(objs1, a);
    let i = choose|i: int|
        0 <= i < objs1.len() && !objs1[i].is_immutable_spec() && objs1[i].id.address_spec() == a;
    let o = objs1[i];
    assert(objs1.contains(o));
    assert(objs1.to_multiset().count(o) > 0);
    assert(objs2.contains(o));
    let j = choose|j: int| 0 <= j < objs2.len() && objs2[j] == o;
    lemma_mutable_ids_has(objs2, j);
}

/// An object owned by another object passes its check exactly when its parent is one of the
/// other mutable inputs of the same check, and reordering those inputs changes nothing.
pub proof fn lemma_object_owner_needs_parent(
    sender: SuiAddress,
    kind: InputObjectKind,
    object: Object,
    parent: SuiAddress,
    objs1: Seq<Object>,
    objs2: Seq<Object>,
)
    requires
        object.owner == Owner::ObjectOwner(parent),
        !object.is_package_spec(),
        kind matches InputObjectKind::ImmOrOwnedMoveObject((id, version, digest)) && version
            == object.version && digest == object.digest && version < SEQUENCE_NUMBER_MAX - 1,
        objs1.to_multiset() == objs2.to_multiset(),
    ensures
        one_object_result(sender, kind, object, mutable_ids(objs1)) is Ok <==> parent
            != object.id.address_spec() && exists|i: int|
            0 <= i < objs1.len() && !objs1[i].is_immutable_spec() && objs1[i].id.address_spec()
                == parent,
        one_object_result(sender, kind, object, mutable_ids(objs1)) == one_object_result(
            sender,
            kind,
            object,
            mutable_ids(objs2),
        ),
{
    if mutable_ids(objs1).contains(parent) {
        lemma_mutable_ids_from(objs1, parent);
        lemma_mutable_ids_permutation(objs1, objs2, parent);
    } else {
        if exists|i: int|
            0 <= i < objs1.len() && !objs1[i].is_immutable_spec() && objs1[i].id.address_spec()
                == parent {
            let i = choose|i: int|
                0 <= i < objs1.len() && !objs1[i].is_immutable_spec()
                    && objs1[i].id.address_spec() == parent;
            lemma_mutable_ids_has(objs1, i);
        }
        if mutable_ids(objs2).contains(parent) {
            lemma_mutable_ids_permutation(objs2, objs1, parent);
        }
    }
}

/// A transaction that declares no inputs is refused with the arity error, never accepted.
pub proof fn lemma_no_inputs_rejected(sender: SuiAddress, transfers: Seq<ObjectID>)
    ensures
        check_objects_spec(sender, transfers, Seq::empty(), Seq::empty()) == CheckOutcome::Empty,
{
    assert(first_duplicate(Seq::<Object>::empty()) is None);
    assert(object_errors(sender, transfers, Seq::empty(), Seq::empty(), mutable_ids(Seq::empty()))
        == Ok::<Seq<SuiError>, SuiError>(Seq::empty()));
}

/// Checking the same inputs twice gives the same outcome: the check reads only its
/// arguments and changes none of them.
pub proof fn lemma_check_objects_repeatable(
    sender: SuiAddress,
    transfers: Seq<ObjectID>,
    kinds: Seq<InputObjectKind>,
    objs: Seq<Object>,
    first: &Result<InputObjects, SuiError>,
    second: &Result<InputObjects, SuiError>,
)
    requires
        outcome_of(first) == check_objects_spec(sender, transfers, kinds, objs),
        outcome_of(second) == check_objects_spec(sender, transfers, kinds, objs),
    ensures
        outcome_of(first) == outcome_of(second),
{
}

} // verus!
