use vstd::prelude::*;
use crate::base_types::AuthorityPublicKeyBytes;
use crate::bls::{
    bls_add_signature, bls_add_signature_of, bls_aggregate_verifies, bls_aggregate_verify,
    bls_batch_verify, bls_empty_aggregate, bls_infinity, each_slot_verifies,
};
use crate::encoding::Signable;
use crate::error::SuiError;

verus! {

/// A validator signature over a message: 48 bytes.
#[derive(Debug, Clone)]
pub struct AuthoritySignature(pub Vec<u8>);

/// An aggregate of validator signatures: 48 bytes.
#[derive(Debug, Clone)]
pub struct AggregateAuthoritySignature(pub Vec<u8>);

/// A signature handed to a verification obligation: a validator signature with its key,
/// which can be batched, or one of a scheme that cannot.
pub enum ObligationSignature {
    AuthoritySig(AuthoritySignature, AuthorityPublicKeyBytes),
    Unbatchable,
}

/// A batch of checks that are verified together in one pass: per slot, a message, the
/// aggregate of the signatures over it, and the keys that signed.
pub struct VerificationObligation {
    pub messages: Vec<Vec<u8>>,
    pub signatures: Vec<Vec<u8>>,
    pub public_keys: Vec<Vec<AuthorityPublicKeyBytes>>,
}

/// Replaces the entry `idx` of `v`.
fn set_entry<T>(v: &mut Vec<T>, idx: usize, value: T)
    requires
        idx < old(v)@.len(),
    ensures
        final(v)@ == old(v)@.update(idx as int, value),
{
    v.set(idx, value);
}

impl VerificationObligation {
    /// The three lists have one entry per slot.
    pub open spec fn wf(&self) -> bool {
        self.signatures@.len() == self.messages@.len() && self.public_keys@.len()
            == self.messages@.len()
    }

    pub fn new() -> (r: VerificationObligation)
        ensures
            r.wf(),
            r.messages@.len() == 0,
    {
        VerificationObligation { messages: Vec::new(), signatures: Vec::new(), public_keys: Vec::new() }
    }

    /// Adds a slot for the canonical encoding `message`, with no signature yet, and returns its
    /// index.
    pub fn add_message_bytes(&mut self, message: Vec<u8>) -> (r: usize)
        requires
            old(self).wf(),
            old(self).messages@.len() < usize::MAX,
        ensures
            final(self).wf(),
            r == old(self).messages@.len(),
            final(self).messages@ == old(self).messages@.push(message),
            final(self).public_keys@.len() == r + 1,
            final(self).public_keys@.take(r as int) == old(self).public_keys@,
            final(self).public_keys@[r as int]@.len() == 0,
            final(self).signatures@.take(r as int) == old(self).signatures@,
            final(self).signatures@[r as int]@ == bls_infinity(),
    {
        self.signatures.push(bls_empty_aggregate());
        self.public_keys.push(Vec::new());
        self.messages.push(message);
        proof {
            assert(self.public_keys@.take(self.messages@.len() - 1) =~= old(self).public_keys@);
            assert(self.signatures@.take(self.messages@.len() - 1) =~= old(self).signatures@);
        }
        self.messages.len() - 1
    }

    /// Adds a slot for the canonical encoding of `message_value`, with no signature yet, and
    /// returns its index.
    pub fn add_message<T: Signable>(&mut self, message_value: &T) -> (r: usize)
        requires
            old(self).wf(),
            old(self).messages@.len() < usize::MAX,
            message_value.encodable(),
        ensures
            final(self).wf(),
            r == old(self).messages@.len(),
            final(self).messages@.len() == r + 1,
            final(self).messages@.take(r as int) == old(self).messages@,
            final(self).messages@[r as int]@ == message_value.signable_spec(),
            final(self).public_keys@.len() == r + 1,
            final(self).public_keys@.take(r as int) == old(self).public_keys@,
            final(self).public_keys@[r as int]@.len() == 0,
            final(self).signatures@.take(r as int) == old(self).signatures@,
            final(self).signatures@[r as int]@ == bls_infinity(),
    {
        let mut message: Vec<u8> = Vec::new();
        message_value.write(&mut message);
        assert(message@ =~= message_value.signable_spec());
        let r = self.add_message_bytes(message);
        assert(self.messages@.take(r as int) =~= old(self).messages@);
        r
    }

    /// Adds a validator signature and its key to slot `idx`. Signatures of the other schemes
    /// cannot be batched: for them this fails with `SenderSigUnbatchable`, and the caller
    /// verifies them on their own.
    pub fn add_signature_and_public_key(&mut self, signature: ObligationSignature, idx: usize) -> (r:
        Result<(), SuiError>)
        requires
            old(self).wf(),
        ensures
            final(self).wf(),
            final(self).messages == old(self).messages,
            match signature {
                ObligationSignature::Unbatchable => r == Err::<(), SuiError>(SuiError::SenderSigUnbatchable)
                    && *final(self) == *old(self),
                ObligationSignature::AuthoritySig(sig, key) => if idx >= old(self).messages@.len() {
                    r == Err::<(), SuiError>(SuiError::InvalidAuthenticator) && *final(self) == *old(self)
                } else {
                    &&& final(self).public_keys@ == old(self).public_keys@.update(
                        idx as int,
                        final(self).public_keys@[idx as int],
                    )
                    &&& final(self).public_keys@[idx as int]@ == old(self).public_keys@[idx as int]@.push(key)
                    &&& match bls_add_signature_of(old(self).signatures@[idx as int]@, sig.0@) {
                        Some(agg) => r is Ok && final(self).signatures@ == old(self).signatures@.update(
                            idx as int,
                            final(self).signatures@[idx as int],
                        ) && final(self).signatures@[idx as int]@ == agg,
                        None => r == Err::<(), SuiError>(SuiError::InvalidSignature)
                            && final(self).signatures == old(self).signatures,
                    }
                },
            },
    {
        match signature {
            ObligationSignature::AuthoritySig(sig, key) => {
                if idx >= self.public_keys.len() {
                    return Err(SuiError::InvalidAuthenticator);
                }
                let mut keys = self.public_keys[idx].clone();
                proof {
                    assert(keys@ =~= old(self).public_keys@[idx as int]@);
                }
                keys.push(key);
                set_entry(&mut self.public_keys, idx, keys);
                match bls_add_signature(&self.signatures[idx], &sig.0) {
                    Some(agg) => {
                        set_entry(&mut self.signatures, idx, agg);
                        Ok(())
                    },
                    None => Err(SuiError::InvalidSignature),
                }
            },
            ObligationSignature::Unbatchable => Err(SuiError::SenderSigUnbatchable),
        }
    }

    /// Verifies slot `idx` on its own: its aggregate signature over its message under all of
    /// its keys. This names the failing slot where the batched pass cannot.
    pub fn verify_slot(&self, idx: usize) -> (r: Result<(), SuiError>)
        requires
            self.wf(),
            idx < self.messages@.len(),
        ensures
            r is Ok <==> bls_aggregate_verifies(
                self.signatures@[idx as int]@,
                self.public_keys@[idx as int]@,
                self.messages@[idx as int]@,
            ),
            r is Err ==> r == Err::<(), SuiError>(SuiError::InvalidSignature),
    {
        if bls_aggregate_verify(&self.signatures[idx], &self.public_keys[idx], &self.messages[idx]) {
            Ok(())
        } else {
            Err(SuiError::InvalidSignature)
        }
    }

    /// Verifies every slot in one batched pass. A failure is not pinned on a slot: a caller
    /// that needs to know which one failed verifies them one by one.
    pub fn verify_all(self) -> (r: Result<(), SuiError>)
        requires
            self.wf(),
        ensures
            r is Err ==> r == Err::<(), SuiError>(SuiError::InvalidSignature),
            self.messages@.len() == 0 ==> r is Ok,
            each_slot_verifies(self.signatures@, self.public_keys@, self.messages@) ==> r is Ok,
    {
        if bls_batch_verify(&self.signatures, &self.public_keys, &self.messages) {
            Ok(())
        } else {
            Err(SuiError::InvalidSignature)
        }
    }
}

/// A fresh obligation with one slot, for the canonical encoding of `value`, and that slot's
/// index.
pub fn get_obligation_input<T: Signable>(value: &T) -> (r: (VerificationObligation, usize))
    requires
        value.encodable(),
    ensures
        r.0.wf(),
        r.1 == 0,
        r.0.messages@.len() == 1,
        r.0.messages@[0]@ == value.signable_spec(),
        r.0.public_keys@[0]@.len() == 0,
{
    let mut obligation = VerificationObligation::new();
    let idx = obligation.add_message(value);
    (obligation, idx)
}

} // verus!
