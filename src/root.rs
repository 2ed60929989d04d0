use vstd::prelude::*;

use crate::certificate::copy_bytes;
use crate::error::CertificateError;
use crate::AccountId;

verus! {

/// The trust anchor: a public key and the signature over it.
#[derive(Clone, Debug, Default, PartialEq, Eq)]
pub struct RootCertificate {
    pub public_key: Vec<u8>,
    pub signature: Vec<u8>,
}

pub ghost struct RootCertificateView {
    pub public_key: Seq<u8>,
    pub signature: Seq<u8>,
}

impl View for RootCertificate {
    type V = RootCertificateView;

    open spec fn view(&self) -> RootCertificateView {
        RootCertificateView { public_key: self.public_key@, signature: self.signature@ }
    }
}

impl RootCertificate {
    /// A copy of this root certificate with the same value.
    pub fn duplicate(&self) -> (r: RootCertificate)
        ensures
            r@ == self@,
    {
        RootCertificate { public_key: copy_bytes(&self.public_key), signature: copy_bytes(&self.signature) }
    }
}

/// Holds the single root certificate and the administrator who alone may
/// replace it.
pub struct RootCertificateManagement {
    root_certificate: RootCertificate,
    owner: AccountId,
}

impl RootCertificateManagement {
    pub closed spec fn root_spec(&self) -> RootCertificateView {
        self.root_certificate@
    }

    pub closed spec fn owner_spec(&self) -> AccountId {
        self.owner
    }

    /// Installs `root_certificate`, administered by `caller`.
    pub fn new(root_certificate: RootCertificate, caller: AccountId) -> (r: RootCertificateManagement)
        ensures
            r.root_spec() == root_certificate@,
            r.owner_spec() == caller,
    {
        RootCertificateManagement { root_certificate, owner: caller }
    }

    /// Ok exactly when `caller` is the administrator.
    pub fn ensure_owner(&self, caller: AccountId) -> (r: Result<(), CertificateError>)
        ensures
            r == if caller == self.owner_spec() {
                Ok::<(), CertificateError>(())
            } else {
                Err(CertificateError::Unauthorized)
            },
    {
        if caller == self.owner {
            Ok(())
        } else {
            Err(CertificateError::Unauthorized)
        }
    }

    /// Replaces the root certificate as a whole; only the administrator may.
    pub fn update_root_certificate(&mut self, new_root_certificate: RootCertificate, caller: AccountId) -> (r: Result<(), CertificateError>)
        ensures
            final(self).owner_spec() == old(self).owner_spec(),
            caller == old(self).owner_spec() ==> r is Ok && final(self).root_spec() == new_root_certificate@,
            caller != old(self).owner_spec() ==> r == Err::<(), CertificateError>(CertificateError::Unauthorized)
                && final(self).root_spec() == old(self).root_spec(),
    {
        self.ensure_owner(caller)?;
        self.root_certificate = new_root_certificate;
        Ok(())
    }

    pub fn get_root_certificate(&self) -> (r: RootCertificate)
        ensures
            r@ == self.root_spec(),
    {
        self.root_certificate.duplicate()
    }

    pub fn owner(&self) -> (r: AccountId)
        ensures
            r == self.owner_spec(),
    {
        self.owner
    }
}

} // verus!
