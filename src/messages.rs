use vstd::prelude::*;
use crate::base_types::{EpochId, ObjectID, ObjectRef, SuiAddress};

verus! {

/// One operation of a transaction, as far as admission reads it.
#[derive(Debug, Clone, Copy)]
pub enum SingleTransactionKind {
    /// Moves an owned object to another account.
    TransferObject { recipient: SuiAddress, object_ref: ObjectRef },
    /// Moves an amount of the native coin out of the gas object (all of it when `None`).
    TransferSui { recipient: SuiAddress, amount: Option<u64> },
    /// Calls a function of a package; its inputs are declared separately.
    Call { package: ObjectID },
    /// The system operation that closes an epoch.
    ChangeEpoch { epoch: EpochId },
}

/// A transaction does one operation or a batch of them.
#[derive(Debug)]
pub enum TransactionKind {
    Single(SingleTransactionKind),
    Batch(Vec<SingleTransactionKind>),
}

/// The ids of the objects that the transfer operations of `s` move, in order.
pub open spec fn transfer_ids_of(s: Seq<SingleTransactionKind>) -> Seq<ObjectID>
    decreases s.len(),
{
    if s.len() == 0 {
        Seq::empty()
    } else {
        let rest = transfer_ids_of(s.drop_last());
        match s.last() {
            SingleTransactionKind::TransferObject { object_ref, .. } => rest.push(object_ref.0),
            _ => rest,
        }
    }
}

impl TransactionKind {
    /// The operations, in order.
    pub open spec fn singles(&self) -> Seq<SingleTransactionKind> {
        match self {
            TransactionKind::Single(s) => seq![*s],
            TransactionKind::Batch(v) => v@,
        }
    }

    pub open spec fn is_system_spec(&self) -> bool {
        self matches TransactionKind::Single(SingleTransactionKind::ChangeEpoch { .. })
    }

    /// What a lone coin transfer moves out of the gas object besides the gas itself.
    pub open spec fn extra_amount_spec(&self) -> u64 {
        match self {
            TransactionKind::Single(SingleTransactionKind::TransferSui { amount, .. }) => match amount {
                Some(a) => *a,
                None => 0,
            },
            _ => 0,
        }
    }

    /// Whether this is the system transaction that pays no gas.
    pub fn is_system_tx(&self) -> (r: bool)
        ensures
            r == self.is_system_spec(),
    {
        matches!(self, TransactionKind::Single(SingleTransactionKind::ChangeEpoch { .. }))
    }

    /// Whether this is the epoch change, whose shared inputs are read without sequencing.
    pub fn is_change_epoch_tx(&self) -> (r: bool)
        ensures
            r == self.is_system_spec(),
    {
        matches!(self, TransactionKind::Single(SingleTransactionKind::ChangeEpoch { .. }))
    }

    pub fn extra_amount(&self) -> (r: u64)
        ensures
            r == self.extra_amount_spec(),
    {
        match self {
            TransactionKind::Single(SingleTransactionKind::TransferSui { amount, .. }) => match amount {
                Some(a) => *a,
                None => 0,
            },
            _ => 0,
        }
    }

    /// The ids of the objects that the transfer operations move.
    pub fn transfer_object_ids(&self) -> (r: Vec<ObjectID>)
        ensures
            r@ == transfer_ids_of(self.singles()),
    {
        match self {
            TransactionKind::Single(s) => {
                let mut r: Vec<ObjectID> = Vec::new();
                if let SingleTransactionKind::TransferObject { object_ref, .. } = s {
                    r.push(object_ref.0);
                }
                proof {
                    assert(seq![*s].drop_last() =~= Seq::<SingleTransactionKind>::empty());
                    assert(seq![*s].last() == *s);
                    assert(transfer_ids_of(Seq::<SingleTransactionKind>::empty()) =~= Seq::empty());
                }
                assert(r@ =~= transfer_ids_of(self.singles()));
                r
            },
            TransactionKind::Batch(v) => {
                let mut r: Vec<ObjectID> = Vec::new();
                let mut i: usize = 0;
                while i < v.len()
                    invariant
                        i <= v.len(),
                        r@ == transfer_ids_of(v@.take(i as int)),
                    decreases v.len() - i,
                {
                    proof {
                        assert(v@.take(i + 1).drop_last() =~= v@.take(i as int));
                    }
                    if let SingleTransactionKind::TransferObject { object_ref, .. } = &v[i] {
                        r.push(object_ref.0);
                    }
                    i = i + 1;
                }
                assert(v@.take(v.len() as int) =~= v@);
                r
            },
        }
    }
}

/// The parts of a transaction that admission reads.
#[derive(Debug)]
pub struct TransactionData {
    pub kind: TransactionKind,
    pub sender: SuiAddress,
    pub gas_payment: ObjectRef,
    pub gas_price: u64,
    pub gas_budget: u64,
}

impl TransactionData {
    pub fn signer(&self) -> (r: SuiAddress)
        ensures
            r == self.sender,
    {
        self.sender
    }

    pub fn gas_payment_object_ref(&self) -> (r: ObjectRef)
        ensures
            r == self.gas_payment,
    {
        self.gas_payment
    }
}

} // verus!
