use vstd::prelude::*;

use crate::certificate::{Certificate, CertificateView};
use crate::error::CertificateError;
use crate::fingerprint::{derive_fingerprint, fingerprint_of};
use crate::owner::CertificateOwner;
use crate::store::{store_outcome, CertificateStorage};
use crate::{AccountId, Timestamp};

verus! {

/// Whether `fp` counts as revoked: unknown certificates are untrusted.
pub open spec fn revoked_status(m: Map<Seq<u8>, CertificateView>, fp: Seq<u8>) -> bool {
    !m.contains_key(fp) || m[fp].is_revoked
}

/// Whether `caller` may revoke `c`: its issuer or a delegated party.
pub open spec fn may_revoke(c: CertificateView, caller: AccountId, parties: Set<AccountId>) -> bool {
    caller == c.issuer || parties.contains(caller)
}

/// The store after `caller` asks to revoke `fp`, and whether it was revoked.
pub open spec fn revoke_outcome(
    m: Map<Seq<u8>, CertificateView>,
    parties: Set<AccountId>,
    fp: Seq<u8>,
    caller: AccountId,
) -> (Map<Seq<u8>, CertificateView>, bool) {
    if !m.contains_key(fp) || !may_revoke(m[fp], caller, parties) {
        (m, false)
    } else {
        (m.insert(fp, CertificateView { is_revoked: true, ..m[fp] }), true)
    }
}

/// The store after `caller` asks to hand `fp` to `new_owner`.
pub open spec fn transfer_outcome(
    m: Map<Seq<u8>, CertificateView>,
    fp: Seq<u8>,
    new_owner: CertificateOwner,
    caller: AccountId,
) -> Result<Map<Seq<u8>, CertificateView>, CertificateError> {
    if !m.contains_key(fp) {
        Err(CertificateError::NotFound)
    } else if m[fp].owner != CertificateOwner::Account(caller) {
        Err(CertificateError::Unauthorized)
    } else if m[fp].is_revoked {
        Err(CertificateError::Revoked)
    } else if new_owner is Unowned {
        Err(CertificateError::InvalidOwner)
    } else {
        Ok(m.insert(fp, CertificateView { owner: new_owner, ..m[fp] }))
    }
}

/// The store after `caller` asks at time `now` to move the expiration of `fp`
/// to `renewal_date`. Only an active certificate is renewed, and only to a
/// time after `now`.
pub open spec fn renew_outcome(
    m: Map<Seq<u8>, CertificateView>,
    administrator: AccountId,
    fp: Seq<u8>,
    renewal_date: Timestamp,
    caller: AccountId,
    now: Timestamp,
) -> Result<Map<Seq<u8>, CertificateView>, CertificateError> {
    if caller != administrator {
        Err(CertificateError::Unauthorized)
    } else if !m.contains_key(fp) {
        Err(CertificateError::NotFound)
    } else if now >= m[fp].expiration_date || renewal_date <= now {
        Err(CertificateError::Expired)
    } else if m[fp].is_revoked {
        Err(CertificateError::Revoked)
    } else {
        Ok(m.insert(fp, CertificateView { expiration_date: renewal_date, ..m[fp] }))
    }
}

/// The verdict on a stored certificate: not revoked, not lapsed, and signed.
pub open spec fn verify_outcome(
    m: Map<Seq<u8>, CertificateView>,
    fp: Seq<u8>,
    now: Timestamp,
    signature_valid: bool,
) -> Result<bool, CertificateError> {
    if !m.contains_key(fp) {
        Err(CertificateError::NotFound)
    } else {
        Ok(!m[fp].is_revoked && now < m[fp].expiration_date && signature_valid)
    }
}

/// Produces the body of a renewed certificate. No generation scheme is
/// defined for renewals, so the body is empty.
pub fn generate_certificate(public_key: &Vec<u8>, expiration_date: Timestamp, additional_info: &Vec<u8>) -> (r: Vec<u8>)
    ensures
        r@ == Seq::<u8>::empty(),
{
    Vec::new()
}

/// Emitted when a certificate is renewed.
#[derive(Clone, Debug, PartialEq, Eq)]
pub struct CertificateRenewal {
    pub certificate_hash: Vec<u8>,
    pub renewal_date: Timestamp,
    pub public_key: Vec<u8>,
    pub additional_info: Vec<u8>,
}

/// Whether `p` is among `v`.
fn contains_account(v: &Vec<AccountId>, p: AccountId) -> (r: bool)
    ensures
        r == v@.contains(p),
{
    let mut i: usize = 0;
    while i < v.len()
        invariant
            0 <= i <= v@.len(),
            forall|j: int| 0 <= j < i ==> v@[j] != p,
        decreases v@.len() - i,
    {
        if v[i] == p {
            return true;
        }
        i = i + 1;
    }
    false
}

/// The registry: the certificate store together with its administrator and
/// the parties delegated to revoke.
pub struct CertificateRegistry {
    storage: CertificateStorage,
    administrator: AccountId,
    authorized_parties: Vec<AccountId>,
}

impl CertificateRegistry {
    pub closed spec fn wf(&self) -> bool {
        self.storage.wf()
    }

    /// The stored certificates by fingerprint.
    pub closed spec fn certificates(&self) -> Map<Seq<u8>, CertificateView> {
        self.storage@
    }

    /// How many certificates were ever stored.
    pub closed spec fn count(&self) -> nat {
        self.storage.count()
    }

    pub closed spec fn administrator_spec(&self) -> AccountId {
        self.administrator
    }

    /// The principals besides a certificate's issuer that may revoke it.
    pub closed spec fn parties(&self) -> Set<AccountId> {
        self.authorized_parties@.to_set()
    }

    /// An empty registry administered by `administrator`.
    pub fn new(administrator: AccountId) -> (r: CertificateRegistry)
        ensures
            r.wf(),
            r.certificates() == Map::<Seq<u8>, CertificateView>::empty(),
            r.count() == 0,
            r.administrator_spec() == administrator,
            r.parties() == Set::<AccountId>::empty(),
    {
        let r = CertificateRegistry {
            storage: CertificateStorage::new(),
            administrator,
            authorized_parties: Vec::new(),
        };
        assert(r.parties() =~= Set::<AccountId>::empty());
        r
    }

    pub fn administrator(&self) -> (r: AccountId)
        ensures
            r == self.administrator_spec(),
    {
        self.administrator
    }

    /// Issues a certificate owned by `caller` and returns its fingerprint;
    /// refused with `Conflict` when that fingerprint was issued before.
    pub fn issue_certificate(
        &mut self,
        subject: Vec<u8>,
        public_key: Vec<u8>,
        issuer: AccountId,
        expiration_date: Timestamp,
        digital_signature: Vec<u8>,
        metadata: Vec<u8>,
        caller: AccountId,
    ) -> (r: Result<Vec<u8>, CertificateError>)
        requires
            old(self).wf(),
            old(self).count() < u64::MAX,
        ensures
            final(self).wf(),
            final(self).administrator_spec() == old(self).administrator_spec(),
            final(self).parties() == old(self).parties(),
            ({
                let fp = fingerprint_of(subject@, public_key@, issuer, expiration_date);
                let c = CertificateView {
                    subject: subject@,
                    issuer,
                    public_key: public_key@,
                    digital_signature: digital_signature@,
                    expiration_date,
                    is_revoked: false,
                    owner: CertificateOwner::Account(caller),
                    metadata: metadata@,
                };
                &&& old(self).certificates().contains_key(fp) ==> r == Err::<Vec<u8>, CertificateError>(CertificateError::Conflict)
                    && final(self).certificates() == old(self).certificates()
                    && final(self).count() == old(self).count()
                &&& !old(self).certificates().contains_key(fp) ==> r is Ok && r->Ok_0@ == fp
                    && final(self).certificates() == old(self).certificates().insert(fp, c)
                    && final(self).count() == old(self).count() + 1
            }),
    {
        let fp = derive_fingerprint(&subject, &public_key, issuer, expiration_date);
        let key = crate::certificate::copy_bytes(&fp);
        let certificate = Certificate {
            subject,
            issuer,
            public_key,
            digital_signature,
            expiration_date,
            is_revoked: false,
            owner: CertificateOwner::Account(caller),
            metadata,
        };
        if self.storage.store_certificate(key, certificate) {
            Ok(fp)
        } else {
            Err(CertificateError::Conflict)
        }
    }

    /// Stores a certificate under a fingerprint chosen by the caller; returns
    /// whether it was stored (false when the fingerprint is taken).
    pub fn store_certificate(&mut self, certificate_hash: Vec<u8>, certificate: Certificate) -> (r: bool)
        requires
            old(self).wf(),
            old(self).certificates().contains_key(certificate_hash@) || old(self).count() < u64::MAX,
        ensures
            final(self).wf(),
            final(self).administrator_spec() == old(self).administrator_spec(),
            final(self).parties() == old(self).parties(),
            (final(self).certificates(), r) == store_outcome(
                old(self).certificates(),
                certificate_hash@,
                certificate@,
            ),
            final(self).count() == old(self).count() + if r { 1int } else { 0int },
    {
        self.storage.store_certificate(certificate_hash, certificate)
    }

    pub fn get_certificate(&self, certificate_hash: &Vec<u8>) -> (r: Option<Certificate>)
        requires
            self.wf(),
        ensures
            match r {
                Some(c) => self.certificates().contains_key(certificate_hash@) && c@
                    == self.certificates()[certificate_hash@],
                None => !self.certificates().contains_key(certificate_hash@),
            },
    {
        self.storage.get_certificate(certificate_hash)
    }

    pub fn total_certificates(&self) -> (r: u64)
        requires
            self.wf(),
        ensures
            r == self.count(),
    {
        self.storage.total_certificates()
    }

    /// Hands the certificate to `new_owner`; only its current account owner
    /// may, only while it is not revoked, and never to nobody.
    pub fn transfer_certificate(
        &mut self,
        certificate_hash: &Vec<u8>,
        new_owner: CertificateOwner,
        caller: AccountId,
    ) -> (r: Result<(), CertificateError>)
        requires
            old(self).wf(),
        ensures
            final(self).wf(),
            final(self).count() == old(self).count(),
            final(self).administrator_spec() == old(self).administrator_spec(),
            final(self).parties() == old(self).parties(),
            match transfer_outcome(old(self).certificates(), certificate_hash@, new_owner, caller) {
                Ok(m) => r is Ok && final(self).certificates() == m,
                Err(e) => r == Err::<(), CertificateError>(e) && final(self).certificates() == old(self).certificates(),
            },
    {
        match self.storage.get_certificate(certificate_hash) {
            None => Err(CertificateError::NotFound),
            Some(c) => {
                if c.owner != CertificateOwner::Account(caller) {
                    return Err(CertificateError::Unauthorized);
                }
                if c.is_revoked {
                    return Err(CertificateError::Revoked);
                }
                if new_owner.is_none() {
                    return Err(CertificateError::InvalidOwner);
                }
                self.storage.update_certificate(certificate_hash, c.expiration_date, c.is_revoked, new_owner)
            },
        }
    }

    pub fn get_certificate_owner(&self, certificate_hash: &Vec<u8>) -> (r: Result<CertificateOwner, CertificateError>)
        requires
            self.wf(),
        ensures
            self.certificates().contains_key(certificate_hash@) ==> r == Ok::<CertificateOwner, CertificateError>(
                self.certificates()[certificate_hash@].owner,
            ),
            !self.certificates().contains_key(certificate_hash@) ==> r == Err::<CertificateOwner, CertificateError>(
                CertificateError::NotFound,
            ),
    {
        match self.storage.get_certificate(certificate_hash) {
            Some(c) => Ok(c.owner),
            None => Err(CertificateError::NotFound),
        }
    }

    pub fn validate_certificate_owner(
        &self,
        certificate_hash: &Vec<u8>,
        expected_owner: CertificateOwner,
    ) -> (r: Result<bool, CertificateError>)
        requires
            self.wf(),
        ensures
            self.certificates().contains_key(certificate_hash@) ==> r == Ok::<bool, CertificateError>(
                self.certificates()[certificate_hash@].owner == expected_owner,
            ),
            !self.certificates().contains_key(certificate_hash@) ==> r == Err::<bool, CertificateError>(
                CertificateError::NotFound,
            ),
    {
        match self.storage.get_certificate(certificate_hash) {
            Some(c) => Ok(c.owner == expected_owner),
            None => Err(CertificateError::NotFound),
        }
    }

    /// Moves the expiration of an active certificate to `renewal_date`; only
    /// the administrator may. Returns the renewal event.
    pub fn renew_certificate(
        &mut self,
        certificate_hash: Vec<u8>,
        renewal_date: Timestamp,
        public_key: Vec<u8>,
        additional_info: Vec<u8>,
        caller: AccountId,
        now: Timestamp,
    ) -> (r: Result<CertificateRenewal, CertificateError>)
        requires
            old(self).wf(),
        ensures
            final(self).wf(),
            final(self).count() == old(self).count(),
            final(self).administrator_spec() == old(self).administrator_spec(),
            final(self).parties() == old(self).parties(),
            match renew_outcome(
                old(self).certificates(),
                old(self).administrator_spec(),
                certificate_hash@,
                renewal_date,
                caller,
                now,
            ) {
                Ok(m) => r is Ok && final(self).certificates() == m && ({
                    let ev = r->Ok_0;
                    &&& ev.certificate_hash@ == certificate_hash@
                    &&& ev.renewal_date == renewal_date
                    &&& ev.public_key@ == public_key@
                    &&& ev.additional_info@ == additional_info@
                }),
                Err(e) => r == Err::<CertificateRenewal, CertificateError>(e) && final(self).certificates()
                    == old(self).certificates(),
            },
    {
        if caller != self.administrator {
            return Err(CertificateError::Unauthorized);
        }
        match self.storage.get_certificate(&certificate_hash) {
            None => Err(CertificateError::NotFound),
            Some(c) => {
                if now >= c.expiration_date || renewal_date <= now {
                    return Err(CertificateError::Expired);
                }
                if c.is_revoked {
                    return Err(CertificateError::Revoked);
                }
                let _ = self.storage.update_certificate(&certificate_hash, renewal_date, c.is_revoked, c.owner);
                Ok(CertificateRenewal {
                    certificate_hash,
                    renewal_date,
                    public_key,
                    additional_info,
                })
            },
        }
    }

    /// Revokes the certificate for good when the caller is its issuer or a
    /// delegated party; revoking twice succeeds twice. False when the
    /// certificate is unknown or the caller may not revoke it.
    pub fn revoke_certificate(&mut self, certificate_hash: &Vec<u8>, caller: AccountId) -> (r: bool)
        requires
            old(self).wf(),
        ensures
            final(self).wf(),
            final(self).count() == old(self).count(),
            final(self).administrator_spec() == old(self).administrator_spec(),
            final(self).parties() == old(self).parties(),
            (final(self).certificates(), r) == revoke_outcome(
                old(self).certificates(),
                old(self).parties(),
                certificate_hash@,
                caller,
            ),
    {
        match self.storage.get_certificate(certificate_hash) {
            None => false,
            Some(c) => {
                if c.issuer != caller && !contains_account(&self.authorized_parties, caller) {
                    return false;
                }
                let _ = self.storage.update_certificate(certificate_hash, c.expiration_date, true, c.owner);
                true
            },
        }
    }

    /// Whether the certificate is revoked; an unknown one counts as revoked.
    pub fn is_certificate_revoked(&self, certificate_hash: &Vec<u8>) -> (r: bool)
        requires
            self.wf(),
        ensures
            r == revoked_status(self.certificates(), certificate_hash@),
    {
        match self.storage.get_certificate(certificate_hash) {
            Some(c) => c.is_revoked,
            None => true,
        }
    }

    /// Lets `authorized_party` revoke; only the administrator may grant it.
    pub fn add_authorized_party(&mut self, authorized_party: AccountId, caller: AccountId) -> (r: bool)
        requires
            old(self).wf(),
        ensures
            final(self).wf(),
            final(self).certificates() == old(self).certificates(),
            final(self).count() == old(self).count(),
            final(self).administrator_spec() == old(self).administrator_spec(),
            r == (caller == old(self).administrator_spec()),
            final(self).parties() == if r {
                old(self).parties().insert(authorized_party)
            } else {
                old(self).parties()
            },
    {
        if caller != self.administrator {
            return false;
        }
        if !contains_account(&self.authorized_parties, authorized_party) {
            self.authorized_parties.push(authorized_party);
            assert(self.parties() =~= old(self).parties().insert(authorized_party)) by {
                assert(self.authorized_parties@ == old(self).authorized_parties@.push(authorized_party));
                assert forall|x: AccountId| self.parties().contains(x) <==> old(self).parties().insert(authorized_party).contains(x) by {
                    if old(self).parties().contains(x) {
                        let j = choose|j: int| 0 <= j < old(self).authorized_parties@.len() && old(self).authorized_parties@[j] == x;
                        assert(self.authorized_parties@[j] == x);
                    }
                    if x == authorized_party {
                        assert(self.authorized_parties@[self.authorized_parties@.len() - 1] == x);
                    }
                    if self.parties().contains(x) {
                        let j = choose|j: int| 0 <= j < self.authorized_parties@.len() && self.authorized_parties@[j] == x;
                        if j < old(self).authorized_parties@.len() {
                            assert(old(self).authorized_parties@[j] == x);
                        }
                    }
                }
            }
        } else {
            assert(self.parties() =~= old(self).parties().insert(authorized_party));
        }
        true
    }

    /// Withdraws `authorized_party`'s right to revoke; only the administrator
    /// may.
    pub fn remove_authorized_party(&mut self, authorized_party: AccountId, caller: AccountId) -> (r: bool)
        requires
            old(self).wf(),
        ensures
            final(self).wf(),
            final(self).certificates() == old(self).certificates(),
            final(self).count() == old(self).count(),
            final(self).administrator_spec() == old(self).administrator_spec(),
            r == (caller == old(self).administrator_spec()),
            final(self).parties() == if r {
                old(self).parties().remove(authorized_party)
            } else {
                old(self).parties()
            },
    {
        if caller != self.administrator {
            return false;
        }
        let mut kept: Vec<AccountId> = Vec::new();
        let mut i: usize = 0;
        while i < self.authorized_parties.len()
            invariant
                0 <= i <= self.authorized_parties@.len(),
                forall|x: AccountId| kept@.contains(x) <==> (x != authorized_party && exists|j: int| 0 <= j < i && self.authorized_parties@[j] == x),
            decreases self.authorized_parties@.len() - i,
        {
            let p = self.authorized_parties[i];
            if p != authorized_party {
                let ghost prev = kept@;
                kept.push(p);
                assert forall|x: AccountId| kept@.contains(x) <==> (x != authorized_party && exists|j: int| 0 <= j < i + 1 && self.authorized_parties@[j] == x) by {
                    if kept@.contains(x) && x != p {
                        let k = choose|k: int| 0 <= k < kept@.len() && kept@[k] == x;
                        assert(prev[k] == x);
                    }
                    if prev.contains(x) {
                        let k = choose|k: int| 0 <= k < prev.len() && prev[k] == x;
                        assert(kept@[k] == x);
                    }
                    if x == p {
                        assert(kept@[kept@.len() - 1] == x);
                    }
                    if x != authorized_party && exists|j: int| 0 <= j < i + 1 && self.authorized_parties@[j] == x {
                        let j = choose|j: int| 0 <= j < i + 1 && self.authorized_parties@[j] == x;
                        if j < i {
                            assert(prev.contains(x));
                        }
                    }
                }
            } else {
                assert forall|x: AccountId| kept@.contains(x) <==> (x != authorized_party && exists|j: int| 0 <= j < i + 1 && self.authorized_parties@[j] == x) by {
                    if x != authorized_party && exists|j: int| 0 <= j < i + 1 && self.authorized_parties@[j] == x {
                        let j = choose|j: int| 0 <= j < i + 1 && self.authorized_parties@[j] == x;
                        assert(j < i);
                    }
                }
            }
            i = i + 1;
        }
        let ghost before = self.parties();
        self.authorized_parties = kept;
        assert(self.parties() =~= before.remove(authorized_party));
        true
    }

    /// Hands the administrator role to `new_issuer`; only the administrator
    /// may.
    pub fn transfer_issuer(&mut self, new_issuer: AccountId, caller: AccountId) -> (r: bool)
        requires
            old(self).wf(),
        ensures
            final(self).wf(),
            final(self).certificates() == old(self).certificates(),
            final(self).count() == old(self).count(),
            final(self).parties() == old(self).parties(),
            r == (caller == old(self).administrator_spec()),
            final(self).administrator_spec() == if r {
                new_issuer
            } else {
                old(self).administrator_spec()
            },
    {
        if caller != self.administrator {
            return false;
        }
        self.administrator = new_issuer;
        true
    }

    /// Verifies a stored certificate at time `now`, given the verdict of the
    /// signature check over its subject, public key and signature.
    pub fn verify_certificate(
        &self,
        certificate_hash: &Vec<u8>,
        now: Timestamp,
        signature_valid: bool,
    ) -> (r: Result<bool, CertificateError>)
        requires
            self.wf(),
        ensures
            r == verify_outcome(self.certificates(), certificate_hash@, now, signature_valid),
    {
        match self.storage.get_certificate(certificate_hash) {
            None => Err(CertificateError::NotFound),
            Some(c) => Ok(!c.is_revoked && now < c.expiration_date && signature_valid),
        }
    }
}

/// Revocation is idempotent: when `caller` may revoke `fp` (or `fp` is
/// unknown), revoking once or twice leaves it revoked, and the second time
/// changes nothing.
pub proof fn lemma_revocation_idempotent(
    m: Map<Seq<u8>, CertificateView>,
    parties: Set<AccountId>,
    fp: Seq<u8>,
    caller: AccountId,
)
    requires
        m.contains_key(fp) ==> may_revoke(m[fp], caller, parties),
    ensures
        revoked_status(revoke_outcome(m, parties, fp, caller).0, fp),
        revoke_outcome(revoke_outcome(m, parties, fp, caller).0, parties, fp, caller).0
            == revoke_outcome(m, parties, fp, caller).0,
        revoked_status(
            revoke_outcome(revoke_outcome(m, parties, fp, caller).0, parties, fp, caller).0,
            fp,
        ),
{
    if m.contains_key(fp) {
        let m1 = revoke_outcome(m, parties, fp, caller).0;
        assert(m1.insert(fp, CertificateView { is_revoked: true, ..m1[fp] }) =~= m1);
    }
}

/// Revocation is permanent: once a stored certificate is revoked, no
/// operation on the store clears its flag or removes it.
pub proof fn lemma_revocation_permanent(
    m: Map<Seq<u8>, CertificateView>,
    fp: Seq<u8>,
    parties: Set<AccountId>,
    administrator: AccountId,
    key: Seq<u8>,
    c: CertificateView,
    new_owner: CertificateOwner,
    renewal_date: Timestamp,
    caller: AccountId,
    now: Timestamp,
)
    requires
        m.contains_key(fp),
        m[fp].is_revoked,
    ensures
        ({
            let m1 = store_outcome(m, key, c).0;
            m1.contains_key(fp) && m1[fp].is_revoked
        }),
        ({
            let m1 = revoke_outcome(m, parties, key, caller).0;
            m1.contains_key(fp) && m1[fp].is_revoked
        }),
        transfer_outcome(m, key, new_owner, caller) is Ok ==> ({
            let m1 = transfer_outcome(m, key, new_owner, caller)->Ok_0;
            m1.contains_key(fp) && m1[fp].is_revoked
        }),
        renew_outcome(m, administrator, key, renewal_date, caller, now) is Ok ==> ({
            let m1 = renew_outcome(m, administrator, key, renewal_date, caller, now)->Ok_0;
            m1.contains_key(fp) && m1[fp].is_revoked
        }),
{
}

/// Only the current account owner can transfer a certificate: anyone else is
/// refused with `Unauthorized`, and a refused transfer changes nothing.
pub proof fn lemma_transfer_needs_owner(
    m: Map<Seq<u8>, CertificateView>,
    fp: Seq<u8>,
    new_owner: CertificateOwner,
    caller: AccountId,
)
    requires
        m.contains_key(fp),
        m[fp].owner != CertificateOwner::Account(caller),
    ensures
        transfer_outcome(m, fp, new_owner, caller) == Err::<Map<Seq<u8>, CertificateView>, CertificateError>(
            CertificateError::Unauthorized,
        ),
{
}

/// The renewal boundary: an active certificate renewed by the administrator
/// one tick before it lapses is renewed; at or after its expiration the
/// renewal is refused with `Expired`.
pub proof fn lemma_renewal_boundary(
    m: Map<Seq<u8>, CertificateView>,
    administrator: AccountId,
    fp: Seq<u8>,
    renewal_date: Timestamp,
    now: Timestamp,
)
    requires
        m.contains_key(fp),
        !m[fp].is_revoked,
    ensures
        (now + 1 == m[fp].expiration_date && renewal_date > now) ==> renew_outcome(
            m,
            administrator,
            fp,
            renewal_date,
            administrator,
            now,
        ) == Ok::<Map<Seq<u8>, CertificateView>, CertificateError>(
            m.insert(fp, CertificateView { expiration_date: renewal_date, ..m[fp] }),
        ),
        now >= m[fp].expiration_date ==> renew_outcome(
            m,
            administrator,
            fp,
            renewal_date,
            administrator,
            now,
        ) == Err::<Map<Seq<u8>, CertificateView>, CertificateError>(CertificateError::Expired),
{
}

/// Verification is a conjunction: a stored certificate verifies exactly when
/// it is not revoked, has not lapsed, and its signature checks out; any one
/// of these failing makes the verdict false.
pub proof fn lemma_verify_conjunction(
    m: Map<Seq<u8>, CertificateView>,
    fp: Seq<u8>,
    now: Timestamp,
    signature_valid: bool,
)
    requires
        m.contains_key(fp),
    ensures
        verify_outcome(m, fp, now, signature_valid) == Ok::<bool, CertificateError>(
            !m[fp].is_revoked && now < m[fp].expiration_date && signature_valid,
        ),
        m[fp].is_revoked ==> verify_outcome(m, fp, now, signature_valid) == Ok::<bool, CertificateError>(false),
        now >= m[fp].expiration_date ==> verify_outcome(m, fp, now, signature_valid) == Ok::<bool, CertificateError>(false),
        !signature_valid ==> verify_outcome(m, fp, now, signature_valid) == Ok::<bool, CertificateError>(false),
{
}

} // verus!
