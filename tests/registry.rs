use cert_registry::certificate::Certificate;
use cert_registry::error::CertificateError;
use cert_registry::fingerprint::{canonical_encoding, derive_fingerprint};
use cert_registry::owner::CertificateOwner;
use cert_registry::registry::{generate_certificate, CertificateRegistry};

const ADMIN: u64 = 1;
const ISSUER: u64 = 7;
const HOLDER: u64 = 20;
const STRANGER: u64 = 99;

fn issue_sample(reg: &mut CertificateRegistry) -> Vec<u8> {
    reg.issue_certificate(
        b"S".to_vec(),
        b"PK".to_vec(),
        ISSUER,
        1000,
        vec![5, 6],
        vec![],
        HOLDER,
    )
    .unwrap()
}

fn sample_certificate(subject: &[u8]) -> Certificate {
    Certificate {
        subject: subject.to_vec(),
        issuer: ISSUER,
        public_key: vec![1, 2, 3],
        digital_signature: vec![],
        expiration_date: 1000,
        is_revoked: false,
        owner: CertificateOwner::Account(HOLDER),
        metadata: vec![],
    }
}

#[test]
fn issue_revoke_verify_scenario() {
    let mut reg = CertificateRegistry::new(ADMIN);
    let f = issue_sample(&mut reg);
    assert_eq!(f.len(), 32);
    assert!(!reg.is_certificate_revoked(&f));
    assert_eq!(reg.verify_certificate(&f, 500, true), Ok(true));
    assert!(reg.revoke_certificate(&f, ISSUER));
    assert_eq!(reg.verify_certificate(&f, 500, true), Ok(false));
    assert!(reg.is_certificate_revoked(&f));
}

#[test]
fn renew_before_and_after_lapse() {
    let mut reg = CertificateRegistry::new(ADMIN);
    let f = issue_sample(&mut reg);
    let ev = reg
        .renew_certificate(f.clone(), 2000, b"PK".to_vec(), vec![9], ADMIN, 999)
        .unwrap();
    assert_eq!(ev.certificate_hash, f);
    assert_eq!(ev.renewal_date, 2000);
    assert_eq!(ev.public_key, b"PK".to_vec());
    assert_eq!(ev.additional_info, vec![9]);
    assert_eq!(reg.get_certificate(&f).unwrap().expiration_date, 2000);

    let mut other = CertificateRegistry::new(ADMIN);
    let g = issue_sample(&mut other);
    assert_eq!(
        other.renew_certificate(g.clone(), 2000, b"PK".to_vec(), vec![], ADMIN, 1500),
        Err(CertificateError::Expired)
    );
    assert_eq!(other.get_certificate(&g).unwrap().expiration_date, 1000);
}

#[test]
fn renew_at_exact_expiration_fails() {
    let mut reg = CertificateRegistry::new(ADMIN);
    let f = issue_sample(&mut reg);
    assert_eq!(
        reg.renew_certificate(f.clone(), 2000, vec![], vec![], ADMIN, 1000),
        Err(CertificateError::Expired)
    );
}

#[test]
fn renew_errors() {
    let mut reg = CertificateRegistry::new(ADMIN);
    let f = issue_sample(&mut reg);
    assert_eq!(
        reg.renew_certificate(f.clone(), 2000, vec![], vec![], STRANGER, 10),
        Err(CertificateError::Unauthorized)
    );
    assert_eq!(
        reg.renew_certificate(vec![0; 32], 2000, vec![], vec![], ADMIN, 10),
        Err(CertificateError::NotFound)
    );
    assert_eq!(
        reg.renew_certificate(f.clone(), 10, vec![], vec![], ADMIN, 10),
        Err(CertificateError::Expired)
    );
    assert!(reg.revoke_certificate(&f, ISSUER));
    assert_eq!(
        reg.renew_certificate(f.clone(), 2000, vec![], vec![], ADMIN, 10),
        Err(CertificateError::Revoked)
    );
}

#[test]
fn unknown_fingerprint() {
    let reg = CertificateRegistry::new(ADMIN);
    let g = vec![0xab; 32];
    assert!(reg.get_certificate(&g).is_none());
    assert!(reg.is_certificate_revoked(&g));
    assert_eq!(reg.verify_certificate(&g, 0, true), Err(CertificateError::NotFound));
    assert_eq!(reg.get_certificate_owner(&g), Err(CertificateError::NotFound));
    assert_eq!(
        reg.validate_certificate_owner(&g, CertificateOwner::Account(HOLDER)),
        Err(CertificateError::NotFound)
    );
}

#[test]
fn duplicate_issue_conflicts() {
    let mut reg = CertificateRegistry::new(ADMIN);
    issue_sample(&mut reg);
    let again = reg.issue_certificate(b"S".to_vec(), b"PK".to_vec(), ISSUER, 1000, vec![], vec![1], STRANGER);
    assert_eq!(again, Err(CertificateError::Conflict));
    assert_eq!(reg.total_certificates(), 1);
}

#[test]
fn store_first_writer_wins() {
    let mut reg = CertificateRegistry::new(ADMIN);
    let a = sample_certificate(b"A");
    let b = sample_certificate(b"B");
    assert!(reg.store_certificate(vec![1; 32], a.clone()));
    assert!(!reg.store_certificate(vec![1; 32], b));
    assert_eq!(reg.get_certificate(&vec![1; 32]), Some(a));
    assert_eq!(reg.total_certificates(), 1);
    assert!(reg.store_certificate(vec![2; 32], sample_certificate(b"C")));
    assert_eq!(reg.total_certificates(), 2);
}

#[test]
fn revoke_twice_and_permissions() {
    let mut reg = CertificateRegistry::new(ADMIN);
    let f = issue_sample(&mut reg);
    assert!(!reg.revoke_certificate(&f, STRANGER));
    assert!(!reg.is_certificate_revoked(&f));
    assert!(!reg.add_authorized_party(STRANGER, STRANGER));
    assert!(reg.add_authorized_party(STRANGER, ADMIN));
    assert!(reg.revoke_certificate(&f, STRANGER));
    assert!(reg.is_certificate_revoked(&f));
    assert!(reg.revoke_certificate(&f, STRANGER));
    assert!(reg.is_certificate_revoked(&f));
    assert!(!reg.revoke_certificate(&vec![3; 32], ADMIN));
    assert_eq!(reg.total_certificates(), 1);
}

#[test]
fn removed_party_cannot_revoke() {
    let mut reg = CertificateRegistry::new(ADMIN);
    let f = issue_sample(&mut reg);
    assert!(reg.add_authorized_party(STRANGER, ADMIN));
    assert!(reg.add_authorized_party(STRANGER, ADMIN));
    assert!(!reg.remove_authorized_party(STRANGER, STRANGER));
    assert!(reg.remove_authorized_party(STRANGER, ADMIN));
    assert!(!reg.revoke_certificate(&f, STRANGER));
}

#[test]
fn transfer_issuer_moves_administration() {
    let mut reg = CertificateRegistry::new(ADMIN);
    assert!(!reg.transfer_issuer(STRANGER, STRANGER));
    assert_eq!(reg.administrator(), ADMIN);
    assert!(reg.transfer_issuer(STRANGER, ADMIN));
    assert_eq!(reg.administrator(), STRANGER);
    assert!(!reg.add_authorized_party(HOLDER, ADMIN));
}

#[test]
fn transfer_ownership_rules() {
    let mut reg = CertificateRegistry::new(ADMIN);
    let f = issue_sample(&mut reg);
    assert_eq!(
        reg.transfer_certificate(&f, CertificateOwner::Account(STRANGER), STRANGER),
        Err(CertificateError::Unauthorized)
    );
    assert_eq!(reg.get_certificate_owner(&f), Ok(CertificateOwner::Account(HOLDER)));
    assert_eq!(
        reg.transfer_certificate(&f, CertificateOwner::Unowned, HOLDER),
        Err(CertificateError::InvalidOwner)
    );
    assert_eq!(
        reg.transfer_certificate(&vec![4; 32], CertificateOwner::Contract(3), HOLDER),
        Err(CertificateError::NotFound)
    );
    assert_eq!(reg.transfer_certificate(&f, CertificateOwner::Contract(3), HOLDER), Ok(()));
    assert_eq!(reg.validate_certificate_owner(&f, CertificateOwner::Contract(3)), Ok(true));
    assert_eq!(reg.validate_certificate_owner(&f, CertificateOwner::Account(HOLDER)), Ok(false));
    assert_eq!(
        reg.transfer_certificate(&f, CertificateOwner::Account(HOLDER), HOLDER),
        Err(CertificateError::Unauthorized)
    );
}

#[test]
fn verify_flips_on_each_condition() {
    let mut reg = CertificateRegistry::new(ADMIN);
    let f = issue_sample(&mut reg);
    assert_eq!(reg.verify_certificate(&f, 999, true), Ok(true));
    assert_eq!(reg.verify_certificate(&f, 1000, true), Ok(false));
    assert_eq!(reg.verify_certificate(&f, 999, false), Ok(false));
    reg.revoke_certificate(&f, ISSUER);
    assert_eq!(reg.verify_certificate(&f, 999, true), Ok(false));
}

#[test]
fn fingerprint_is_deterministic_and_field_sensitive() {
    let s = b"S".to_vec();
    let k = b"PK".to_vec();
    let f = derive_fingerprint(&s, &k, ISSUER, 1000);
    assert_eq!(f, derive_fingerprint(&s, &k, ISSUER, 1000));
    assert_ne!(f, derive_fingerprint(&b"T".to_vec(), &k, ISSUER, 1000));
    assert_ne!(f, derive_fingerprint(&s, &b"PQ".to_vec(), ISSUER, 1000));
    assert_ne!(f, derive_fingerprint(&s, &k, ISSUER + 1, 1000));
    assert_ne!(f, derive_fingerprint(&s, &k, ISSUER, 1001));
    assert_ne!(f, canonical_encoding(&s, &k, ISSUER, 1000));
    assert_ne!(
        derive_fingerprint(&b"ab".to_vec(), &b"c".to_vec(), 0, 0),
        derive_fingerprint(&b"a".to_vec(), &b"bc".to_vec(), 0, 0)
    );
}

#[test]
fn fingerprint_of_empty_fields_is_keccak() {
    // 32 zero bytes: two zero length prefixes, issuer 0, expiration 0.
    let f = derive_fingerprint(&vec![], &vec![], 0, 0);
    let expected: Vec<u8> = vec![
        0x29, 0x0d, 0xec, 0xd9, 0x54, 0x8b, 0x62, 0xa8, 0xd6, 0x03, 0x45, 0xa9, 0x88, 0x38, 0x6f,
        0xc8, 0x4b, 0xa6, 0xbc, 0x95, 0x48, 0x40, 0x08, 0xf6, 0x36, 0x2f, 0x93, 0x16, 0x0e, 0xf3,
        0xe5, 0x63,
    ];
    assert_eq!(f, expected);
}

#[test]
fn canonical_encoding_layout() {
    let e = canonical_encoding(&vec![0xaa], &vec![0xbb, 0xcc], 2, 258);
    assert_eq!(
        e,
        vec![
            1, 0, 0, 0, 0, 0, 0, 0, 0xaa, 2, 0, 0, 0, 0, 0, 0, 0, 0xbb, 0xcc, 2, 0, 0, 0, 0, 0, 0,
            0, 2, 1, 0, 0, 0, 0, 0, 0
        ]
    );
}

#[test]
fn generate_certificate_is_empty() {
    assert!(generate_certificate(&vec![7], 1, &vec![8]).is_empty());
}

#[test]
fn revoked_certificate_cannot_be_transferred() {
    let mut reg = CertificateRegistry::new(ADMIN);
    let f = issue_sample(&mut reg);
    assert!(reg.revoke_certificate(&f, ISSUER));
    assert_eq!(
        reg.transfer_certificate(&f, CertificateOwner::Account(STRANGER), STRANGER),
        Err(CertificateError::Unauthorized)
    );
    assert_eq!(
        reg.transfer_certificate(&f, CertificateOwner::Account(STRANGER), HOLDER),
        Err(CertificateError::Revoked)
    );
    assert_eq!(reg.get_certificate_owner(&f), Ok(CertificateOwner::Account(HOLDER)));
}

#[test]
fn owner_accessors() {
    let a = CertificateOwner::Account(5);
    let c = CertificateOwner::Contract(6);
    let n = CertificateOwner::Unowned;
    assert!(a.is_account() && !a.is_contract() && !a.is_none());
    assert!(c.is_contract() && !c.is_account());
    assert!(n.is_none());
    assert_eq!(a.as_account(), Some(5));
    assert_eq!(a.as_contract(), None);
    assert_eq!(c.as_contract(), Some(6));
    assert_eq!(n.as_account(), None);
}
