use vstd::prelude::*;
use crate::base_types::{ObjectID, ObjectRef};
use crate::error::SuiError;
use crate::messages::TransactionKind;
use crate::object::{Data, Object};

verus! {

/// How the gas of a transaction will be metered during its execution.
#[derive(Debug, Clone, Copy, PartialEq, Eq, Structural)]
pub struct SuiGasStatus {
    /// False for the system transaction, which pays no gas.
    pub metered: bool,
    pub gas_budget: u64,
    pub computation_gas_price: u64,
    pub storage_gas_price: u64,
}

impl SuiGasStatus {
    pub fn new_unmetered() -> (r: SuiGasStatus)
        ensures
            !r.metered,
            r.gas_budget == 0,
            r.computation_gas_price == 0,
            r.storage_gas_price == 0,
    {
        SuiGasStatus { metered: false, gas_budget: 0, computation_gas_price: 0, storage_gas_price: 0 }
    }
}

/// Why the gas precheck failed, in mathematical form.
pub enum GasFailure {
    /// The gas object could not be fetched.
    NotFound(ObjectID),
    /// The gas object is no coin.
    NotCoin,
    /// The coin holds less than the budget at the price plus what the transaction moves out.
    Insufficient { gas_balance: u64, needed: u128 },
}

/// The larger of two prices.
pub open spec fn max_price(a: u64, b: u64) -> u64 {
    if a >= b {
        a
    } else {
        b
    }
}

/// What the gas coin must hold: the budget priced at `price`, plus `extra`.
pub open spec fn gas_needed(gas_budget: u64, price: u64, extra: u64) -> int {
    gas_budget * price + extra
}

/// The outcome of the balance check of a gas object.
pub open spec fn gas_balance_spec(gas_object: Object, gas_budget: u64, gas_price: u64, extra: u64) -> Result<(), GasFailure> {
    match gas_object.data {
        Data::Move(m) => match m.coin_balance {
            Some(b) => if b >= gas_needed(gas_budget, gas_price, extra) {
                Ok(())
            } else {
                Err(
                    GasFailure::Insufficient {
                        gas_balance: b,
                        needed: gas_needed(gas_budget, gas_price, extra) as u128,
                    },
                )
            },
            None => Err(GasFailure::NotCoin),
        },
        Data::Package => Err(GasFailure::NotCoin),
    }
}

/// The outcome of the gas precheck of a transaction whose gas object was fetched as
/// `gas_object`, with the network's storage price `storage_gas_price`.
pub open spec fn gas_check_spec(
    gas_payment: ObjectRef,
    gas_object: Option<Object>,
    gas_budget: u64,
    computation_gas_price: u64,
    storage_gas_price: u64,
    tx_kind: &TransactionKind,
) -> Result<SuiGasStatus, GasFailure> {
    if tx_kind.is_system_spec() {
        Ok(SuiGasStatus { metered: false, gas_budget: 0, computation_gas_price: 0, storage_gas_price: 0 })
    } else {
        match gas_object {
            None => Err(GasFailure::NotFound(gas_payment.0)),
            Some(o) => match gas_balance_spec(
                o,
                gas_budget,
                max_price(computation_gas_price, storage_gas_price),
                tx_kind.extra_amount_spec(),
            ) {
                Err(f) => Err(f),
                Ok(_) => Ok(
                    SuiGasStatus {
                        metered: true,
                        gas_budget,
                        computation_gas_price,
                        storage_gas_price,
                    },
                ),
            },
        }
    }
}

/// Reads an error of the gas precheck as a `GasFailure`.
pub open spec fn gas_failure_of(e: SuiError) -> Option<GasFailure> {
    match e {
        SuiError::ObjectErrors { errors } => if errors@.len() == 1 {
            match errors@[0] {
                SuiError::ObjectNotFound { object_id } => Some(GasFailure::NotFound(object_id)),
                _ => None,
            }
        } else {
            None
        },
        SuiError::GasObjectNotCoin => Some(GasFailure::NotCoin),
        SuiError::InsufficientGas { gas_balance, needed } => Some(
            GasFailure::Insufficient { gas_balance, needed },
        ),
        _ => None,
    }
}

/// Reads a result of the gas precheck in mathematical form.
pub open spec fn gas_outcome_of(r: Result<SuiGasStatus, SuiError>) -> Option<Result<SuiGasStatus, GasFailure>> {
    match r {
        Ok(g) => Some(Ok(g)),
        Err(e) => match gas_failure_of(e) {
            Some(f) => Some(Err(f)),
            None => None,
        },
    }
}

/// Fails unless `gas_object` is a coin whose balance covers `gas_budget` at `gas_price`
/// plus `extra_amount`.
pub fn check_gas_balance(gas_object: &Object, gas_budget: u64, gas_price: u64, extra_amount: u64) -> (r: Result<(), SuiError>)
    ensures
        match gas_balance_spec(*gas_object, gas_budget, gas_price, extra_amount) {
            Ok(_) => r is Ok,
            Err(f) => r matches Err(e) && gas_failure_of(e) == Some(f),
        },
{
    let balance = match gas_object.data {
        Data::Move(m) => match m.coin_balance {
            Some(b) => b,
            None => {
                return Err(SuiError::GasObjectNotCoin);
            },
        },
        Data::Package => {
            return Err(SuiError::GasObjectNotCoin);
        },
    };
    assert((gas_budget as int) * (gas_price as int) <= 0xffff_ffff_ffff_ffff * 0xffff_ffff_ffff_ffff)
        by (nonlinear_arith)
        requires
            gas_budget <= 0xffff_ffff_ffff_ffff,
            gas_price <= 0xffff_ffff_ffff_ffff,
    ;
    let cost = (gas_budget as u128) * (gas_price as u128);
    let needed = cost + extra_amount as u128;
    if (balance as u128) < needed {
        return Err(SuiError::InsufficientGas { gas_balance: balance, needed });
    }
    Ok(())
}

/// The gas precheck: the system transaction is unmetered; any other needs its gas object,
/// fetched as `gas_object`, to be a coin that covers the budget at the higher of the offered
/// and the storage price, plus what a lone coin transfer moves out of it.
pub fn check_gas(
    gas_payment: &ObjectRef,
    gas_object: Option<Object>,
    gas_budget: u64,
    computation_gas_price: u64,
    storage_gas_price: u64,
    tx_kind: &TransactionKind,
) -> (r: Result<SuiGasStatus, SuiError>)
    ensures
        gas_outcome_of(r) == Some(
            gas_check_spec(
                *gas_payment,
                gas_object,
                gas_budget,
                computation_gas_price,
                storage_gas_price,
                tx_kind,
            ),
        ),
{
    if tx_kind.is_system_tx() {
        return Ok(SuiGasStatus::new_unmetered());
    }
    let gas_object = match gas_object {
        Some(o) => o,
        None => {
            let errors = vec![SuiError::ObjectNotFound { object_id: gas_payment.0 }];
            assert(errors@.len() == 1 && errors@[0] is ObjectNotFound);
            return Err(SuiError::ObjectErrors { errors });
        },
    };
    let extra_amount = tx_kind.extra_amount();
    let gas_price = if computation_gas_price >= storage_gas_price {
        computation_gas_price
    } else {
        storage_gas_price
    };
    match check_gas_balance(&gas_object, gas_budget, gas_price, extra_amount) {
        Err(e) => {
            return Err(e);
        },
        Ok(()) => {},
    }
    Ok(SuiGasStatus { metered: true, gas_budget, computation_gas_price, storage_gas_price })
}

} // verus!
