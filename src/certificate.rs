use vstd::prelude::*;

use crate::owner::CertificateOwner;
use crate::{AccountId, Timestamp};

verus! {

/// A stored certificate. Subject, issuer and public key never change once
/// issued; the expiration moves by renewal, the owner by transfer, and the
/// revocation flag only ever goes from false to true.
#[derive(Clone, Debug, PartialEq, Eq)]
pub struct Certificate {
    pub subject: Vec<u8>,
    pub issuer: AccountId,
    pub public_key: Vec<u8>,
    pub digital_signature: Vec<u8>,
    pub expiration_date: Timestamp,
    pub is_revoked: bool,
    pub owner: CertificateOwner,
    pub metadata: Vec<u8>,
}

/// The mathematical value of a [`Certificate`].
pub ghost struct CertificateView {
    pub subject: Seq<u8>,
    pub issuer: AccountId,
    pub public_key: Seq<u8>,
    pub digital_signature: Seq<u8>,
    pub expiration_date: Timestamp,
    pub is_revoked: bool,
    pub owner: CertificateOwner,
    pub metadata: Seq<u8>,
}

impl View for Certificate {
    type V = CertificateView;

    open spec fn view(&self) -> CertificateView {
        CertificateView {
            subject: self.subject@,
            issuer: self.issuer,
            public_key: self.public_key@,
            digital_signature: self.digital_signature@,
            expiration_date: self.expiration_date,
            is_revoked: self.is_revoked,
            owner: self.owner,
            metadata: self.metadata@,
        }
    }
}

/// A byte-for-byte copy of `b`.
pub fn copy_bytes(b: &Vec<u8>) -> (r: Vec<u8>)
    ensures
        r@ == b@,
{
    let r = b.clone();
    assert(r@ =~= b@);
    r
}

/// Whether two byte strings are equal.
pub fn bytes_equal(a: &Vec<u8>, b: &Vec<u8>) -> (r: bool)
    ensures
        r == (a@ == b@),
{
    if a.len() != b.len() {
        return false;
    }
    let mut i: usize = 0;
    while i < a.len()
        invariant
            a@.len() == b@.len(),
            0 <= i <= a@.len(),
            forall|j: int| 0 <= j < i ==> a@[j] == b@[j],
        decreases a@.len() - i,
    {
        if a[i] != b[i] {
            return false;
        }
        i = i + 1;
    }
    assert(a@ =~= b@);
    true
}

impl Certificate {
    /// A copy of this certificate with the same value.
    pub fn duplicate(&self) -> (r: Certificate)
        ensures
            r@ == self@,
    {
        Certificate {
            subject: copy_bytes(&self.subject),
            issuer: self.issuer,
            public_key: copy_bytes(&self.public_key),
            digital_signature: copy_bytes(&self.digital_signature),
            expiration_date: self.expiration_date,
            is_revoked: self.is_revoked,
            owner: self.owner,
            metadata: copy_bytes(&self.metadata),
        }
    }
}

} // verus!
