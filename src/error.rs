use vstd::prelude::*;

verus! {

/// Why an operation of the registry was refused. A refused operation leaves
/// all state as it was.
#[derive(Clone, Copy, Debug, PartialEq, Eq, Structural)]
pub enum CertificateError {
    /// The referenced fingerprint is not in the store.
    NotFound,
    /// A certificate with this fingerprint was already issued.
    Conflict,
    /// The caller does not hold the role the operation asks for.
    Unauthorized,
    /// An ownership transfer named no owner.
    InvalidOwner,
    /// The certificate has lapsed (or would lapse at once after a renewal).
    Expired,
    /// The certificate was revoked and can no longer change.
    Revoked,
}

} // verus!
