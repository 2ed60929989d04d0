use vstd::prelude::*;

use crate::Timestamp;

verus! {

/// Verifies certificates given inline rather than by fingerprint.
pub struct CertificateVerification {}

impl CertificateVerification {
    pub fn new() -> (r: CertificateVerification) {
        CertificateVerification {  }
    }

    /// Whether an inline certificate is valid at time `now`: the certificate
    /// data checked out, its signature checked out, and it has not lapsed.
    pub fn verify_certificate(
        &self,
        certificate_valid: bool,
        signature_valid: bool,
        expiration_date: Timestamp,
        now: Timestamp,
    ) -> (r: bool)
        ensures
            r == (certificate_valid && signature_valid && now < expiration_date),
    {
        certificate_valid && signature_valid && expiration_date > now
    }
}

} // verus!
