use vstd::prelude::*;
use crate::base_types::{EpochId, ObjectDigest, ObjectID, SequenceNumber, SuiAddress};

verus! {

/// Every way in which admission of a transaction or a certificate can fail.
#[derive(Debug, PartialEq, Eq)]
pub enum SuiError {
    /// Several per-object failures, reported together.
    ObjectErrors { errors: Vec<SuiError> },
    ObjectNotFound { object_id: ObjectID },
    InvalidBatchTransaction { object_id: ObjectID },
    ObjectInputArityViolation,
    MoveObjectAsPackage { object_id: ObjectID },
    MovePackageAsObject { object_id: ObjectID },
    InvalidSequenceNumber,
    UnexpectedSequenceNumber {
        object_id: ObjectID,
        expected_sequence: SequenceNumber,
        given_sequence: SequenceNumber,
    },
    InvalidObjectDigest { object_id: ObjectID, expected_digest: ObjectDigest },
    IncorrectSigner { expected: SuiAddress, given: SuiAddress },
    MissingObjectOwner { child_id: ObjectID, parent_id: SuiAddress },
    NotSharedObjectError,
    TransferUnownedError,
    TransferObjectWithoutPublicTransferError,
    GasObjectNotCoin,
    InsufficientGas { gas_balance: u64, needed: u128 },
    WrongEpoch { expected_epoch: EpochId },
    UnknownSigner,
    CertificateRequiresQuorum,
    InvalidSignature,
    InvalidAuthenticator,
    InvalidAddress,
    KeyConversionError,
    SenderSigUnbatchable,
    InvalidCommittee,
    InvalidDecoding,
    UnsupportedScheme,
    SignatureKeyGenError,
    UnsupportedFeatureError,
    InvalidPrivateKey,
}

} // verus!
