// Admission of transactions and certificates to an object-based ledger: the check of a
// transaction's declared input objects against the objects the store holds, and the check of
// the signatures and weighted validator quorums that back a message.

pub mod authority;
pub mod base_types;
pub mod bls;
pub mod certificates;
pub mod committee;
pub mod crypto;
pub mod derivation;
pub mod encoding;
pub mod error;
pub mod gas;
pub mod input_checker;
pub mod messages;
pub mod obligation;
pub mod object;
pub mod scheme;
