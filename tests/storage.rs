use cert_registry::certificate::Certificate;
use cert_registry::error::CertificateError;
use cert_registry::owner::CertificateOwner;
use cert_registry::store::CertificateStorage;

fn revoked_certificate() -> Certificate {
    Certificate {
        subject: vec![1],
        issuer: 2,
        public_key: vec![3],
        digital_signature: vec![],
        expiration_date: 50,
        is_revoked: true,
        owner: CertificateOwner::Account(4),
        metadata: vec![],
    }
}

#[test]
fn update_keeps_revocation() {
    let mut s = CertificateStorage::new();
    assert!(s.store_certificate(vec![9; 32], revoked_certificate()));
    assert_eq!(s.update_certificate(&vec![9; 32], 60, false, CertificateOwner::Contract(5)), Ok(()));
    let c = s.get_certificate(&vec![9; 32]).unwrap();
    assert!(c.is_revoked);
    assert_eq!(c.expiration_date, 60);
    assert_eq!(c.owner, CertificateOwner::Contract(5));
    assert_eq!(
        s.update_certificate(&vec![8; 32], 60, true, CertificateOwner::Unowned),
        Err(CertificateError::NotFound)
    );
    assert_eq!(s.total_certificates(), 1);
}
