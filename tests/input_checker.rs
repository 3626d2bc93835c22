use sui_admission::base_types::{ObjectDigest, ObjectID, SuiAddress, SEQUENCE_NUMBER_MAX};
use sui_admission::error::SuiError;
use sui_admission::gas::{check_gas, SuiGasStatus};
use sui_admission::input_checker::{check_objects, check_one_object, check_transaction_input, check_certificate_input};
use sui_admission::messages::{SingleTransactionKind, TransactionData, TransactionKind};
use sui_admission::object::{Data, InputObjectKind, MoveObject, Object, Owner};

fn oid(n: u8) -> ObjectID {
    ObjectID([n; 20])
}

fn addr(n: u8) -> SuiAddress {
    SuiAddress([n; 20])
}

fn dg(n: u8) -> ObjectDigest {
    ObjectDigest([n; 32])
}

fn object(id: u8, version: u64, owner: Owner) -> Object {
    Object {
        id: oid(id),
        version,
        digest: dg(id),
        owner,
        data: Data::Move(MoveObject { has_public_transfer: true, coin_balance: None }),
    }
}

fn coin(id: u8, balance: u64, owner: Owner) -> Object {
    Object {
        id: oid(id),
        version: 1,
        digest: dg(id),
        owner,
        data: Data::Move(MoveObject { has_public_transfer: true, coin_balance: Some(balance) }),
    }
}

fn package(id: u8) -> Object {
    Object { id: oid(id), version: 1, digest: dg(id), owner: Owner::Immutable, data: Data::Package }
}

fn owned_kind(o: &Object) -> InputObjectKind {
    InputObjectKind::ImmOrOwnedMoveObject((o.id, o.version, o.digest))
}

fn tx(sender: SuiAddress, kind: TransactionKind) -> TransactionData {
    TransactionData { kind, sender, gas_payment: (oid(200), 1, dg(200)), gas_price: 1, gas_budget: 100 }
}

fn call_tx(sender: SuiAddress) -> TransactionData {
    tx(sender, TransactionKind::Single(SingleTransactionKind::Call { package: oid(99) }))
}

#[test]
fn package_declared_but_data_object_fetched() {
    let o = object(1, 1, Owner::Immutable);
    let r = check_one_object(&addr(1), InputObjectKind::MovePackage(oid(1)), &o, &vec![]);
    assert_eq!(r, Err(SuiError::MoveObjectAsPackage { object_id: oid(1) }));
    let p = package(2);
    assert_eq!(check_one_object(&addr(1), InputObjectKind::MovePackage(oid(2)), &p, &vec![]), Ok(()));
}

#[test]
fn object_declared_but_package_fetched() {
    let p = package(2);
    let r = check_one_object(&addr(1), owned_kind(&p), &p, &vec![]);
    assert_eq!(r, Err(SuiError::MovePackageAsObject { object_id: oid(2) }));
}

#[test]
fn reserved_versions_are_refused() {
    let o = object(1, SEQUENCE_NUMBER_MAX - 1, Owner::Immutable);
    let r = check_one_object(&addr(1), owned_kind(&o), &o, &vec![]);
    assert_eq!(r, Err(SuiError::InvalidSequenceNumber));
    let o = object(1, SEQUENCE_NUMBER_MAX - 2, Owner::Immutable);
    assert_eq!(check_one_object(&addr(1), owned_kind(&o), &o, &vec![]), Ok(()));
}

#[test]
fn version_mismatch_carries_both_versions() {
    let o = object(1, 6, Owner::AddressOwner(addr(1)));
    let kind = InputObjectKind::ImmOrOwnedMoveObject((oid(1), 5, dg(1)));
    let r = check_one_object(&addr(1), kind, &o, &vec![]);
    assert_eq!(
        r,
        Err(SuiError::UnexpectedSequenceNumber { object_id: oid(1), expected_sequence: 6, given_sequence: 5 })
    );
}

#[test]
fn digest_mismatch_is_refused() {
    let o = object(1, 3, Owner::AddressOwner(addr(1)));
    let kind = InputObjectKind::ImmOrOwnedMoveObject((oid(1), 3, dg(9)));
    let r = check_one_object(&addr(1), kind, &o, &vec![]);
    assert_eq!(r, Err(SuiError::InvalidObjectDigest { object_id: oid(1), expected_digest: dg(1) }));
}

#[test]
fn owner_must_be_sender() {
    let o = object(1, 3, Owner::AddressOwner(addr(7)));
    let r = check_one_object(&addr(1), owned_kind(&o), &o, &vec![]);
    assert_eq!(r, Err(SuiError::IncorrectSigner { expected: addr(7), given: addr(1) }));
    assert_eq!(check_one_object(&addr(7), owned_kind(&o), &o, &vec![]), Ok(()));
}

#[test]
fn child_needs_parent_among_authenticators() {
    let child = object(2, 3, Owner::ObjectOwner(oid(1).to_address()));
    let r = check_one_object(&addr(1), owned_kind(&child), &child, &vec![addr(5)]);
    assert_eq!(r, Err(SuiError::MissingObjectOwner { child_id: oid(2), parent_id: oid(1).to_address() }));
    let r = check_one_object(&addr(1), owned_kind(&child), &child, &vec![addr(5), oid(1).to_address()]);
    assert_eq!(r, Ok(()));
}

#[test]
fn shared_object_declared_as_owned() {
    let o = object(1, 3, Owner::Shared);
    assert_eq!(check_one_object(&addr(1), owned_kind(&o), &o, &vec![]), Err(SuiError::NotSharedObjectError));
}

#[test]
fn shared_declaration_needs_shared_object() {
    let owned = object(1, 3, Owner::AddressOwner(addr(1)));
    let kind = InputObjectKind::SharedMoveObject(oid(1));
    assert_eq!(check_one_object(&addr(1), kind, &owned, &vec![]), Err(SuiError::NotSharedObjectError));
    let shared = object(1, 3, Owner::Shared);
    assert_eq!(check_one_object(&addr(1), kind, &shared, &vec![]), Ok(()));
    let deleted = object(1, SEQUENCE_NUMBER_MAX, Owner::Shared);
    assert_eq!(check_one_object(&addr(1), kind, &deleted, &vec![]), Err(SuiError::InvalidSequenceNumber));
}

#[test]
fn duplicate_mutable_object_in_either_order() {
    let a = object(1, 3, Owner::AddressOwner(addr(1)));
    let b = object(2, 3, Owner::AddressOwner(addr(1)));
    for objs in [vec![a, b, a], vec![a, a, b], vec![b, a, a]] {
        let kinds: Vec<InputObjectKind> = objs.iter().map(owned_kind).collect();
        let r = check_objects(&call_tx(addr(1)), kinds, objs);
        assert!(matches!(r, Err(SuiError::InvalidBatchTransaction { object_id }) if object_id == oid(1)));
    }
}

#[test]
fn immutable_object_may_repeat() {
    let a = object(1, 3, Owner::Immutable);
    let objs = vec![a, a];
    let kinds: Vec<InputObjectKind> = objs.iter().map(owned_kind).collect();
    let r = check_objects(&call_tx(addr(1)), kinds, objs).unwrap();
    assert_eq!(r.len(), 2);
}

#[test]
fn all_object_errors_come_together() {
    let a = object(1, 3, Owner::AddressOwner(addr(7)));
    let b = object(2, 3, Owner::Shared);
    let c = object(3, 3, Owner::AddressOwner(addr(1)));
    let objs = vec![a, c, b];
    let kinds: Vec<InputObjectKind> = objs.iter().map(owned_kind).collect();
    let r = check_objects(&call_tx(addr(1)), kinds, objs);
    assert_eq!(
        r.err(),
        Some(SuiError::ObjectErrors {
            errors: vec![
                SuiError::IncorrectSigner { expected: addr(7), given: addr(1) },
                SuiError::NotSharedObjectError,
            ]
        })
    );
}

#[test]
fn no_inputs_is_refused() {
    let r = check_objects(&call_tx(addr(1)), vec![], vec![]);
    assert_eq!(r.err(), Some(SuiError::ObjectInputArityViolation));
}

#[test]
fn transfer_target_must_be_transferable() {
    let mut o = object(1, 3, Owner::AddressOwner(addr(1)));
    o.data = Data::Move(MoveObject { has_public_transfer: false, coin_balance: None });
    let t = tx(
        addr(1),
        TransactionKind::Single(SingleTransactionKind::TransferObject {
            recipient: addr(2),
            object_ref: (o.id, o.version, o.digest),
        }),
    );
    let r = check_objects(&t, vec![owned_kind(&o)], vec![o]);
    assert_eq!(r.err(), Some(SuiError::TransferObjectWithoutPublicTransferError));
    let imm = object(2, 3, Owner::Immutable);
    let t = tx(
        addr(1),
        TransactionKind::Batch(vec![SingleTransactionKind::TransferObject {
            recipient: addr(2),
            object_ref: (imm.id, imm.version, imm.digest),
        }]),
    );
    let r = check_objects(&t, vec![owned_kind(&imm)], vec![imm]);
    assert_eq!(r.err(), Some(SuiError::TransferUnownedError));
}

#[test]
fn valid_inputs_are_paired_in_order() {
    let a = object(1, 3, Owner::AddressOwner(addr(1)));
    let s = object(2, 8, Owner::Shared);
    let p = package(3);
    let kinds = vec![owned_kind(&a), InputObjectKind::SharedMoveObject(oid(2)), InputObjectKind::MovePackage(oid(3))];
    let r = check_objects(&call_tx(addr(1)), kinds, vec![a, s, p]).unwrap();
    assert_eq!(r.len(), 3);
    assert_eq!(r.get(1).1.id, oid(2));
    assert!(matches!(r.get(2).0, InputObjectKind::MovePackage(id) if id == oid(3)));
}

#[test]
fn checking_twice_gives_the_same_outcome() {
    let a = object(1, 3, Owner::AddressOwner(addr(7)));
    let b = object(2, 3, Owner::AddressOwner(addr(1)));
    let objs = vec![a, b];
    let kinds: Vec<InputObjectKind> = objs.iter().map(owned_kind).collect();
    let first = check_objects(&call_tx(addr(1)), kinds.clone(), objs.clone());
    let second = check_objects(&call_tx(addr(1)), kinds, objs);
    assert_eq!(first.err(), second.err());
    let objs = vec![b];
    let kinds: Vec<InputObjectKind> = objs.iter().map(owned_kind).collect();
    let first = check_objects(&call_tx(addr(1)), kinds.clone(), objs.clone()).unwrap();
    let second = check_objects(&call_tx(addr(1)), kinds, objs).unwrap();
    assert_eq!(first.len(), second.len());
    assert_eq!(first.get(0).1.id, second.get(0).1.id);
}

#[test]
fn ownership_chain_in_any_order() {
    let parent = object(1, 3, Owner::AddressOwner(addr(1)));
    let child = object(2, 3, Owner::ObjectOwner(oid(1).to_address()));
    for objs in [vec![parent, child], vec![child, parent]] {
        let kinds: Vec<InputObjectKind> = objs.iter().map(owned_kind).collect();
        assert!(check_objects(&call_tx(addr(1)), kinds, objs).is_ok());
    }
    let orphan = vec![child];
    let kinds: Vec<InputObjectKind> = orphan.iter().map(owned_kind).collect();
    let r = check_objects(&call_tx(addr(1)), kinds, orphan);
    assert_eq!(
        r.err(),
        Some(SuiError::ObjectErrors {
            errors: vec![SuiError::MissingObjectOwner { child_id: oid(2), parent_id: oid(1).to_address() }]
        })
    );
}

#[test]
fn immutable_parent_does_not_authenticate() {
    let parent = object(1, 3, Owner::Immutable);
    let child = object(2, 3, Owner::ObjectOwner(oid(1).to_address()));
    let objs = vec![parent, child];
    let kinds: Vec<InputObjectKind> = objs.iter().map(owned_kind).collect();
    assert!(matches!(check_objects(&call_tx(addr(1)), kinds, objs), Err(SuiError::ObjectErrors { .. })));
}

#[test]
fn system_transaction_is_unmetered() {
    let kind = TransactionKind::Single(SingleTransactionKind::ChangeEpoch { epoch: 3 });
    let r = check_gas(&(oid(200), 1, dg(200)), None, 100, 1, 1, &kind).unwrap();
    assert_eq!(r, SuiGasStatus::new_unmetered());
}

#[test]
fn missing_gas_object_is_reported() {
    let kind = TransactionKind::Single(SingleTransactionKind::Call { package: oid(9) });
    let r = check_gas(&(oid(200), 1, dg(200)), None, 100, 1, 1, &kind);
    assert_eq!(r, Err(SuiError::ObjectErrors { errors: vec![SuiError::ObjectNotFound { object_id: oid(200) }] }));
}

#[test]
fn gas_uses_the_higher_price() {
    let kind = TransactionKind::Single(SingleTransactionKind::Call { package: oid(9) });
    let gas = coin(200, 300, Owner::AddressOwner(addr(1)));
    // budget 100 at the storage price 3 needs 300
    let r = check_gas(&(oid(200), 1, dg(200)), Some(gas), 100, 1, 3, &kind).unwrap();
    assert_eq!(r, SuiGasStatus { metered: true, gas_budget: 100, computation_gas_price: 1, storage_gas_price: 3 });
    let r = check_gas(&(oid(200), 1, dg(200)), Some(gas), 100, 4, 3, &kind);
    assert_eq!(r, Err(SuiError::InsufficientGas { gas_balance: 300, needed: 400 }));
}

#[test]
fn coin_transfer_amount_counts_against_gas() {
    let kind = TransactionKind::Single(SingleTransactionKind::TransferSui { recipient: addr(2), amount: Some(50) });
    let gas = coin(200, 149, Owner::AddressOwner(addr(1)));
    let r = check_gas(&(oid(200), 1, dg(200)), Some(gas), 100, 1, 1, &kind);
    assert_eq!(r, Err(SuiError::InsufficientGas { gas_balance: 149, needed: 150 }));
    let gas = coin(200, 150, Owner::AddressOwner(addr(1)));
    assert!(check_gas(&(oid(200), 1, dg(200)), Some(gas), 100, 1, 1, &kind).is_ok());
}

#[test]
fn gas_object_must_be_a_coin() {
    let kind = TransactionKind::Single(SingleTransactionKind::Call { package: oid(9) });
    let not_coin = object(200, 1, Owner::AddressOwner(addr(1)));
    let r = check_gas(&(oid(200), 1, dg(200)), Some(not_coin), 100, 1, 1, &kind);
    assert_eq!(r, Err(SuiError::GasObjectNotCoin));
}

#[test]
fn gas_cost_does_not_overflow() {
    let kind = TransactionKind::Single(SingleTransactionKind::Call { package: oid(9) });
    let gas = coin(200, u64::MAX, Owner::AddressOwner(addr(1)));
    let r = check_gas(&(oid(200), 1, dg(200)), Some(gas), u64::MAX, u64::MAX, 1, &kind);
    assert_eq!(
        r,
        Err(SuiError::InsufficientGas { gas_balance: u64::MAX, needed: (u64::MAX as u128) * (u64::MAX as u128) })
    );
}

#[test]
fn transaction_input_checks_gas_then_objects() {
    let t = call_tx(addr(1));
    let gas = coin(200, 1000, Owner::AddressOwner(addr(1)));
    let a = object(1, 3, Owner::AddressOwner(addr(1)));
    let (status, inputs) = check_transaction_input(&t, Some(gas), 1, vec![owned_kind(&a)], vec![a]).unwrap();
    assert!(status.metered);
    assert_eq!(inputs.len(), 1);
    let r = check_transaction_input(&t, None, 1, vec![owned_kind(&a)], vec![a]);
    assert!(matches!(r, Err(SuiError::ObjectErrors { .. })));
    let r = check_certificate_input(&t, Some(gas), 1, vec![], vec![]);
    assert!(matches!(r, Err(SuiError::ObjectInputArityViolation)));
}

#[test]
fn object_cannot_own_itself() {
    let selfish = object(2, 3, Owner::ObjectOwner(oid(2).to_address()));
    let r = check_one_object(&addr(1), owned_kind(&selfish), &selfish, &vec![oid(2).to_address()]);
    assert_eq!(r, Err(SuiError::MissingObjectOwner { child_id: oid(2), parent_id: oid(2).to_address() }));
    let objs = vec![selfish];
    let kinds: Vec<InputObjectKind> = objs.iter().map(owned_kind).collect();
    assert!(matches!(check_objects(&call_tx(addr(1)), kinds, objs), Err(SuiError::ObjectErrors { .. })));
}
