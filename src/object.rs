use vstd::prelude::*;
use crate::base_types::{ObjectDigest, ObjectID, ObjectRef, SequenceNumber, SuiAddress};
use crate::error::SuiError;

verus! {

/// Who may use an object as an input.
#[derive(Debug, Clone, Copy)]
pub enum Owner {
    /// Owned by an account: only that account may use it.
    AddressOwner(SuiAddress),
    /// Owned by another object: usable only together with its parent.
    ObjectOwner(SuiAddress),
    /// Versioned by sequencing, usable by anyone.
    Shared,
    /// Read-only, usable by anyone.
    Immutable,
}

/// The contents of a data object, as far as admission reads them.
#[derive(Debug, Clone, Copy)]
pub struct MoveObject {
    /// Whether the object's type allows anyone to transfer it.
    pub has_public_transfer: bool,
    /// The balance, when the object is a gas coin.
    pub coin_balance: Option<u64>,
}

/// What an object holds: data, or a package of code.
#[derive(Debug, Clone, Copy)]
pub enum Data {
    Move(MoveObject),
    Package,
}

/// One version of an object, as the store delivers it.
#[derive(Debug, Clone, Copy)]
pub struct Object {
    pub id: ObjectID,
    pub version: SequenceNumber,
    pub digest: ObjectDigest,
    pub owner: Owner,
    pub data: Data,
}

impl Object {
    pub open spec fn is_immutable_spec(self) -> bool {
        self.owner is Immutable
    }

    pub open spec fn is_shared_spec(self) -> bool {
        self.owner is Shared
    }

    pub open spec fn is_package_spec(self) -> bool {
        self.data is Package
    }

    /// The outcome of the check that the object may be the target of a transfer.
    pub open spec fn transfer_eligibility(self) -> Result<(), SuiError> {
        if !(self.owner is AddressOwner) {
            Err(SuiError::TransferUnownedError)
        } else if !(self.data matches Data::Move(m) && m.has_public_transfer) {
            Err(SuiError::TransferObjectWithoutPublicTransferError)
        } else {
            Ok(())
        }
    }

    pub fn is_immutable(&self) -> (r: bool)
        ensures
            r == self.is_immutable_spec(),
    {
        matches!(self.owner, Owner::Immutable)
    }

    pub fn is_shared(&self) -> (r: bool)
        ensures
            r == self.is_shared_spec(),
    {
        matches!(self.owner, Owner::Shared)
    }

    pub fn is_package(&self) -> (r: bool)
        ensures
            r == self.is_package_spec(),
    {
        matches!(self.data, Data::Package)
    }

    pub fn id(&self) -> (r: ObjectID)
        ensures
            r == self.id,
    {
        self.id
    }

    pub fn version(&self) -> (r: SequenceNumber)
        ensures
            r == self.version,
    {
        self.version
    }

    pub fn digest(&self) -> (r: ObjectDigest)
        ensures
            r == self.digest,
    {
        self.digest
    }

    /// Fails unless the object is owned by an account and its type allows public transfer.
    pub fn ensure_public_transfer_eligible(&self) -> (r: Result<(), SuiError>)
        ensures
            r == self.transfer_eligibility(),
    {
        if !matches!(self.owner, Owner::AddressOwner(_)) {
            return Err(SuiError::TransferUnownedError);
        }
        let has_public_transfer = match self.data {
            Data::Move(m) => m.has_public_transfer,
            Data::Package => false,
        };
        if !has_public_transfer {
            return Err(SuiError::TransferObjectWithoutPublicTransferError);
        }
        Ok(())
    }
}

/// How a transaction declares one of its inputs.
#[derive(Debug, Clone, Copy)]
pub enum InputObjectKind {
    /// A package, by id; packages are immutable and carry no pinned version.
    MovePackage(ObjectID),
    /// An immutable or owned object, pinned at one version and content digest.
    ImmOrOwnedMoveObject(ObjectRef),
    /// A shared object, whose version sequencing assigns.
    SharedMoveObject(ObjectID),
}

impl InputObjectKind {
    pub open spec fn object_id_spec(self) -> ObjectID {
        match self {
            InputObjectKind::MovePackage(id) => id,
            InputObjectKind::ImmOrOwnedMoveObject(r) => r.0,
            InputObjectKind::SharedMoveObject(id) => id,
        }
    }

    pub fn object_id(&self) -> (r: ObjectID)
        ensures
            r == self.object_id_spec(),
    {
        match self {
            InputObjectKind::MovePackage(id) => *id,
            InputObjectKind::ImmOrOwnedMoveObject(r) => r.0,
            InputObjectKind::SharedMoveObject(id) => *id,
        }
    }
}

/// The validated pairing of each declared input with the object fetched for it.
/// Only a successful check of the inputs produces one.
pub struct InputObjects {
    objects: Vec<(InputObjectKind, Object)>,
}

impl View for InputObjects {
    type V = Seq<(InputObjectKind, Object)>;

    closed spec fn view(&self) -> Seq<(InputObjectKind, Object)> {
        self.objects@
    }
}

impl InputObjects {
    pub(crate) fn new(objects: Vec<(InputObjectKind, Object)>) -> (r: InputObjects)
        ensures
            r@ == objects@,
    {
        InputObjects { objects }
    }

    pub fn len(&self) -> (r: usize)
        ensures
            r == self@.len(),
    {
        self.objects.len()
    }

    pub fn is_empty(&self) -> (r: bool)
        ensures
            r == (self@.len() == 0),
    {
        self.objects.len() == 0
    }

    /// The pair at position `i`.
    pub fn get(&self, i: usize) -> (r: (InputObjectKind, Object))
        requires
            i < self@.len(),
        ensures
            r == self@[i as int],
    {
        self.objects[i]
    }
}

} // verus!
