use vstd::prelude::*;

use crate::certificate::{bytes_equal, Certificate, CertificateView};
use crate::error::CertificateError;
use crate::owner::CertificateOwner;
use crate::Timestamp;

verus! {

/// What storing `c` under `fp` does to the store's contents, and whether it
/// was stored: the first writer wins, a second one changes nothing.
pub open spec fn store_outcome(
    m: Map<Seq<u8>, CertificateView>,
    fp: Seq<u8>,
    c: CertificateView,
) -> (Map<Seq<u8>, CertificateView>, bool) {
    if m.contains_key(fp) {
        (m, false)
    } else {
        (m.insert(fp, c), true)
    }
}

/// Storing is first-writer-wins: once `a` is stored under a free `fp`, storing
/// any `b` under `fp` is refused and `fp` still holds `a`.
pub proof fn lemma_store_first_writer_wins(
    m: Map<Seq<u8>, CertificateView>,
    fp: Seq<u8>,
    a: CertificateView,
    b: CertificateView,
)
    requires
        store_outcome(m, fp, a).1,
    ensures
        store_outcome(store_outcome(m, fp, a).0, fp, b) == (store_outcome(m, fp, a).0, false),
        store_outcome(m, fp, a).0[fp] == a,
{
}

/// A store of certificates keyed by fingerprint. An entry is inserted once and
/// never removed or replaced; only its mutable fields change afterwards.
pub struct CertificateStorage {
    keys: Vec<Vec<u8>>,
    certificates: Vec<Certificate>,
    total_certificates: u64,
}

impl CertificateStorage {
    /// Keys are distinct, each key has one certificate, and the running total
    /// counts the entries.
    pub closed spec fn wf(&self) -> bool {
        &&& self.keys@.len() == self.certificates@.len()
        &&& self.total_certificates == self.keys@.len()
        &&& forall|i: int, j: int|
            0 <= i < j < self.keys@.len() ==> #[trigger] self.keys@[i]@ != #[trigger] self.keys@[j]@
    }

    spec fn has_key_at(&self, k: Seq<u8>, i: int) -> bool {
        0 <= i < self.keys@.len() && self.keys@[i]@ == k
    }

    /// The contents of the store: fingerprint to certificate.
    pub closed spec fn view(&self) -> Map<Seq<u8>, CertificateView> {
        Map::new(
            |k: Seq<u8>| exists|i: int| self.has_key_at(k, i),
            |k: Seq<u8>| self.certificates@[choose|i: int| self.has_key_at(k, i)]@,
        )
    }

    proof fn lemma_at(&self, i: int)
        requires
            self.wf(),
            0 <= i < self.keys@.len(),
        ensures
            self@.contains_key(self.keys@[i]@),
            self@[self.keys@[i]@] == self.certificates@[i]@,
    {
        let k = self.keys@[i]@;
        assert(self.has_key_at(k, i));
        let j = choose|j: int| self.has_key_at(k, j);
        if j != i {
            if j < i {
                assert(self.keys@[j]@ != self.keys@[i]@);
            } else {
                assert(self.keys@[i]@ != self.keys@[j]@);
            }
        }
    }

    /// The number of entries ever stored.
    pub closed spec fn count(&self) -> nat {
        self.keys@.len()
    }

    pub proof fn lemma_count_is_len(&self)
        requires
            self.wf(),
        ensures
            self.count() == self@.dom().len(),
            self@.dom().finite(),
    {
        let d = Set::new(|k: Seq<u8>| exists|i: int| self.has_key_at(k, i));
        let ks = self.keys@.map_values(|v: Vec<u8>| v@);
        assert forall|i: int, j: int| 0 <= i < j < ks.len() implies ks[i] != ks[j] by {
            assert(self.keys@[i]@ != self.keys@[j]@);
        }
        assert(ks.no_duplicates());
        assert(self@.dom() =~= ks.to_set()) by {
            assert forall|k: Seq<u8>| self@.dom().contains(k) implies ks.to_set().contains(k) by {
                let i = choose|i: int| self.has_key_at(k, i);
                assert(ks[i] == k);
            }
            assert forall|k: Seq<u8>| ks.to_set().contains(k) implies self@.dom().contains(k) by {
                let i = choose|i: int| 0 <= i < ks.len() && ks[i] == k;
                assert(self.has_key_at(k, i));
            }
        }
        ks.unique_seq_to_set();
    }

    pub fn new() -> (r: CertificateStorage)
        ensures
            r.wf(),
            r@ == Map::<Seq<u8>, CertificateView>::empty(),
            r.count() == 0,
    {
        let r = CertificateStorage { keys: Vec::new(), certificates: Vec::new(), total_certificates: 0 };
        assert(r@ =~= Map::<Seq<u8>, CertificateView>::empty());
        r
    }

    /// Where `fp` is stored, if it is.
    fn find(&self, fp: &Vec<u8>) -> (r: Option<usize>)
        requires
            self.wf(),
        ensures
            match r {
                Some(i) => i < self.keys@.len() && self.keys@[i as int]@ == fp@
                    && self@.contains_key(fp@) && self@[fp@] == self.certificates@[i as int]@,
                None => !self@.contains_key(fp@),
            },
    {
        let mut i: usize = 0;
        while i < self.keys.len()
            invariant
                self.wf(),
                0 <= i <= self.keys@.len(),
                forall|j: int| 0 <= j < i ==> self.keys@[j]@ != fp@,
            decreases self.keys@.len() - i,
        {
            if bytes_equal(&self.keys[i], fp) {
                proof {
                    self.lemma_at(i as int);
                }
                return Some(i);
            }
            i = i + 1;
        }
        None
    }

    /// Stores `certificate` under `certificate_hash` unless that fingerprint
    /// is taken; returns whether it was stored.
    pub fn store_certificate(&mut self, certificate_hash: Vec<u8>, certificate: Certificate) -> (r: bool)
        requires
            old(self).wf(),
            old(self)@.contains_key(certificate_hash@) || old(self).count() < u64::MAX,
        ensures
            final(self).wf(),
            (final(self)@, r) == store_outcome(old(self)@, certificate_hash@, certificate@),
            final(self).count() == old(self).count() + if r { 1int } else { 0int },
    {
        match self.find(&certificate_hash) {
            Some(_) => false,
            None => {
                let ghost old_self = *self;
                let ghost k = certificate_hash@;
                let ghost c = certificate@;
                self.keys.push(certificate_hash);
                self.certificates.push(certificate);
                self.total_certificates = self.total_certificates + 1;
                proof {
                    let n = old_self.keys@.len() as int;
                    assert forall|i: int, j: int|
                        0 <= i < j < self.keys@.len() implies #[trigger] self.keys@[i]@
                        != #[trigger] self.keys@[j]@ by {
                        if j == n {
                            assert(old_self.has_key_at(self.keys@[i]@, i));
                        } else {
                            assert(old_self.keys@[i]@ != old_self.keys@[j]@);
                        }
                    }
                    assert forall|kk: Seq<u8>| self@.contains_key(kk) <==> old_self@.insert(k, c).contains_key(kk) by {
                        if self@.contains_key(kk) {
                            let i = choose|i: int| self.has_key_at(kk, i);
                            if i < n {
                                assert(old_self.has_key_at(kk, i));
                            }
                        }
                        if old_self@.contains_key(kk) {
                            let i = choose|i: int| old_self.has_key_at(kk, i);
                            assert(self.has_key_at(kk, i));
                        }
                        if kk == k {
                            assert(self.has_key_at(kk, n));
                        }
                    }
                    assert forall|kk: Seq<u8>| #[trigger] self@.contains_key(kk) implies self@[kk] == old_self@.insert(k, c)[kk] by {
                        let i = choose|i: int| self.has_key_at(kk, i);
                        self.lemma_at(i);
                        if i < n {
                            old_self.lemma_at(i);
                        }
                    }
                    assert(self@ =~= old_self@.insert(k, c));
                }
                true
            },
        }
    }

    /// The certificate stored under `certificate_hash`, if any.
    pub fn get_certificate(&self, certificate_hash: &Vec<u8>) -> (r: Option<Certificate>)
        requires
            self.wf(),
        ensures
            match r {
                Some(c) => self@.contains_key(certificate_hash@) && c@ == self@[certificate_hash@],
                None => !self@.contains_key(certificate_hash@),
            },
    {
        match self.find(certificate_hash) {
            Some(i) => Some(self.certificates[i].duplicate()),
            None => None,
        }
    }

    /// The number of certificates stored so far.
    pub fn total_certificates(&self) -> (r: u64)
        requires
            self.wf(),
        ensures
            r == self.count(),
    {
        self.total_certificates
    }

    /// Replaces the mutable fields of the entry at position `i`.
    fn set_fields(&mut self, i: usize, expiration_date: Timestamp, is_revoked: bool, owner: CertificateOwner)
        requires
            old(self).wf(),
            i < old(self).keys@.len(),
        ensures
            final(self).wf(),
            final(self).count() == old(self).count(),
            final(self)@ == old(self)@.insert(
                old(self).keys@[i as int]@,
                CertificateView {
                    expiration_date,
                    is_revoked,
                    owner,
                    ..old(self)@[old(self).keys@[i as int]@]
                },
            ),
    {
        let ghost old_self = *self;
        proof {
            old_self.lemma_at(i as int);
        }
        let ghost k = old_self.keys@[i as int]@;
        let mut c = self.certificates.remove(i);
        c.expiration_date = expiration_date;
        c.is_revoked = is_revoked;
        c.owner = owner;
        self.certificates.insert(i, c);
        proof {
            let nv = CertificateView { expiration_date, is_revoked, owner, ..old_self@[k] };
            assert(self.certificates@ =~= old_self.certificates@.update(i as int, c));
            assert forall|kk: Seq<u8>| self@.contains_key(kk) <==> old_self@.insert(k, nv).contains_key(kk) by {
                if self@.contains_key(kk) {
                    let j = choose|j: int| self.has_key_at(kk, j);
                    assert(old_self.has_key_at(kk, j));
                }
                if old_self@.contains_key(kk) {
                    let j = choose|j: int| old_self.has_key_at(kk, j);
                    assert(self.has_key_at(kk, j));
                }
            }
            assert forall|kk: Seq<u8>| #[trigger] self@.contains_key(kk) implies self@[kk] == old_self@.insert(k, nv)[kk] by {
                let j = choose|j: int| self.has_key_at(kk, j);
                self.lemma_at(j);
                old_self.lemma_at(j);
            }
            assert(self@ =~= old_self@.insert(k, nv));
        }
    }

    /// Updates the mutable fields of the certificate under `fp`. The
    /// revocation flag is one-way: a revoked certificate stays revoked.
    pub fn update_certificate(
        &mut self,
        fp: &Vec<u8>,
        expiration_date: Timestamp,
        is_revoked: bool,
        owner: CertificateOwner,
    ) -> (r: Result<(), CertificateError>)
        requires
            old(self).wf(),
        ensures
            final(self).wf(),
            final(self).count() == old(self).count(),
            old(self)@.contains_key(fp@) ==> r is Ok && final(self)@ == old(self)@.insert(
                fp@,
                CertificateView {
                    expiration_date,
                    is_revoked: is_revoked || old(self)@[fp@].is_revoked,
                    owner,
                    ..old(self)@[fp@]
                },
            ),
            !old(self)@.contains_key(fp@) ==> r == Err::<(), CertificateError>(CertificateError::NotFound)
                && final(self)@ == old(self)@,
    {
        match self.find(fp) {
            Some(i) => {
                let revoked = is_revoked || self.certificates[i].is_revoked;
                self.set_fields(i, expiration_date, revoked, owner);
                Ok(())
            },
            None => Err(CertificateError::NotFound),
        }
    }
}

} // verus!
