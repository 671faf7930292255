//! The serial-number counter and the store of issued certificates.
use vstd::prelude::*;
use crate::key::{AcmeKey, Certificate, CertificatePlan, key_material, name_der_of, validity_spec};
use crate::digest::keccak512_of;
use crate::types::AcmeServerError;

verus! {

/// A certificate that was issued, with the order it was issued for.
#[derive(Debug, Clone)]
pub struct IssuedCertificate {
    pub serial_number: u64,
    pub order: usize,
    pub pem: String,
}

/// Hands out serial numbers from a counter that only grows and keeps the
/// PEM text of each issued certificate under its serial number.
pub struct CertificateManager {
    serial_number_registry: u64,
    issued: Vec<IssuedCertificate>,
    stored: Ghost<Map<u64, Seq<char>>>,
    positions: Ghost<Map<u64, int>>,
}

/// `after` is `before` with the serial number `s` handed out.
pub open spec fn reserved(before: CertificateManager, after: CertificateManager, s: u64) -> bool {
    &&& s == before.next_serial_spec()
    &&& after.next_serial_spec() == before.next_serial_spec() + 1
    &&& after.certificates() == before.certificates()
}

/// `r` is what fetching the certificate under `serial_number` from `m`
/// gives: its PEM text where one is stored, else `CertificateNotFound`.
pub open spec fn fetched(m: CertificateManager, serial_number: u64, r: Result<String, AcmeServerError>) -> bool {
    &&& r is Ok <==> m.certificates().contains_key(serial_number)
    &&& r matches Ok(pem) ==> pem@ == m.certificates()[serial_number]
    &&& r is Err ==> r == Err::<String, AcmeServerError>(AcmeServerError::CertificateNotFound)
}

/// Serial numbers strictly increase from one hand-out to the next: where a
/// second serial number is handed out from a counter at least as far as the
/// first hand-out left it, the second is larger. Two hand-outs never give
/// the same serial number.
pub proof fn lemma_serials_strictly_increase(
    a: CertificateManager,
    b: CertificateManager,
    s1: u64,
    c: CertificateManager,
    d: CertificateManager,
    s2: u64,
)
    requires
        reserved(a, b, s1),
        b.next_serial_spec() <= c.next_serial_spec(),
        reserved(c, d, s2),
    ensures
        s1 < s2,
{
}

/// Fetching an issued certificate twice gives the same PEM text, also where
/// other certificates were stored or serial numbers handed out in between.
pub proof fn lemma_fetch_idempotent(
    m1: CertificateManager,
    m2: CertificateManager,
    serial_number: u64,
    r1: Result<String, AcmeServerError>,
    r2: Result<String, AcmeServerError>,
)
    requires
        m1.certificates().contains_key(serial_number),
        m1.certificates() <= m2.certificates(),
        fetched(m1, serial_number, r1),
        fetched(m2, serial_number, r2),
    ensures
        r1 is Ok && r2 is Ok,
        r1->Ok_0@ == r2->Ok_0@,
{
}

/// Storing a certificate keeps every certificate stored before.
pub proof fn lemma_store_keeps(before: CertificateManager, after: CertificateManager, serial_number: u64, pem: Seq<char>)
    requires
        !before.certificates().contains_key(serial_number),
        after.certificates() == before.certificates().insert(serial_number, pem),
    ensures
        before.certificates() <= after.certificates(),
{
}

impl CertificateManager {
    /// The next serial number to hand out.
    pub closed spec fn next_serial_spec(self) -> u64 {
        self.serial_number_registry
    }

    /// The stored certificates: PEM text by serial number.
    pub closed spec fn certificates(self) -> Map<u64, Seq<char>> {
        self.stored@
    }

    pub closed spec fn wf(self) -> bool {
        &&& forall|s: u64| #[trigger] self.stored@.contains_key(s) ==> s < self.serial_number_registry
        &&& forall|i: int|
            0 <= i < self.issued@.len() ==> {
                &&& #[trigger] self.stored@.contains_key(self.issued@[i].serial_number)
                &&& self.stored@[self.issued@[i].serial_number] == self.issued@[i].pem@
            }
        &&& forall|s: u64| #[trigger]
            self.stored@.contains_key(s) ==> {
                &&& self.positions@.contains_key(s)
                &&& 0 <= self.positions@[s] < self.issued@.len()
                &&& self.issued@[self.positions@[s]].serial_number == s
            }
    }

    /// Starts from the counter value that was persisted last.
    pub fn new(next_serial: u64) -> (r: CertificateManager)
        ensures
            r.wf(),
            r.next_serial_spec() == next_serial,
            r.certificates() == Map::<u64, Seq<char>>::empty(),
    {
        CertificateManager {
            serial_number_registry: next_serial,
            issued: Vec::new(),
            stored: Ghost(Map::empty()),
            positions: Ghost(Map::empty()),
        }
    }

    pub fn next_serial(&self) -> (r: u64)
        ensures
            r == self.next_serial_spec(),
    {
        self.serial_number_registry
    }

    /// Reads the counter and advances it by one, atomically; fails with
    /// `StorageFailure` once the counter cannot grow.
    pub fn _inc_serial_number(&mut self) -> (r: Result<u64, AcmeServerError>)
        requires
            old(self).wf(),
        ensures
            final(self).wf(),
            old(self).next_serial_spec() < u64::MAX ==> r == Ok::<u64, AcmeServerError>(
                old(self).next_serial_spec(),
            ) && reserved(*old(self), *final(self), r->Ok_0),
            old(self).next_serial_spec() == u64::MAX ==> r == Err::<u64, AcmeServerError>(
                AcmeServerError::StorageFailure,
            ) && *final(self) == *old(self),
    {
        let current = self.serial_number_registry;
        if current == u64::MAX {
            return Err(AcmeServerError::StorageFailure);
        }
        self.serial_number_registry = current + 1;
        assert forall|s: u64| #[trigger] self.stored@.contains_key(s) implies s
            < self.serial_number_registry by {
            assert(old(self).stored@.contains_key(s));
        }
        Ok(current)
    }

    /// Plans a certificate for `domain` under a fresh serial number. The
    /// serial number is spent even where planning then fails: `BadCsr` for a
    /// subject that is no X.509 name, `ValidationError` for a validity
    /// window that does not fit.
    pub fn generate_cert(&mut self, domain: &str, now: u64) -> (r: Result<
        CertificatePlan,
        AcmeServerError,
    >)
        requires
            old(self).wf(),
        ensures
            final(self).wf(),
            final(self).certificates() == old(self).certificates(),
            old(self).next_serial_spec() == u64::MAX ==> r == Err::<CertificatePlan, AcmeServerError>(
                AcmeServerError::StorageFailure,
            ) && *final(self) == *old(self),
            old(self).next_serial_spec() < u64::MAX ==> {
                &&& final(self).next_serial_spec() == old(self).next_serial_spec() + 1
                &&& name_der_of(domain@) is None ==> r == Err::<CertificatePlan, AcmeServerError>(
                    AcmeServerError::BadCsr,
                )
                &&& name_der_of(domain@) is Some && validity_spec(now) is None ==> r == Err::<
                    CertificatePlan,
                    AcmeServerError,
                >(AcmeServerError::ValidationError)
                &&& name_der_of(domain@) is Some && validity_spec(now) is Some ==> (r matches Ok(p)
                    && p.serial_number == old(self).next_serial_spec() && p.subject@ == domain@
                    && Some(p.validity) == validity_spec(now) && p.derivation_path@
                    == keccak512_of(
                    key_material(name_der_of(domain@)->Some_0, old(self).next_serial_spec()),
                ))
            },
    {
        let serial_number = match self._inc_serial_number() {
            Ok(s) => s,
            Err(e) => return Err(e),
        };
        let key = match AcmeKey::new(domain, serial_number) {
            Some(k) => k,
            None => return Err(AcmeServerError::BadCsr),
        };
        match Certificate::new(key).build_leaf(now) {
            Some(plan) => Ok(plan),
            None => Err(AcmeServerError::ValidationError),
        }
    }

    /// Keeps the PEM text of a certificate issued under a serial number that
    /// was handed out and is not stored yet; else `ValidationError` and
    /// nothing changes.
    pub fn store_certificate(&mut self, serial_number: u64, order: usize, pem: String) -> (r: Result<
        (),
        AcmeServerError,
    >)
        requires
            old(self).wf(),
        ensures
            final(self).wf(),
            final(self).next_serial_spec() == old(self).next_serial_spec(),
            r is Ok <==> (serial_number < old(self).next_serial_spec()
                && !old(self).certificates().contains_key(serial_number)),
            r is Ok ==> final(self).certificates() == old(self).certificates().insert(
                serial_number,
                pem@,
            ),
            r is Err ==> r == Err::<(), AcmeServerError>(AcmeServerError::ValidationError)
                && *final(self) == *old(self),
    {
        if serial_number >= self.serial_number_registry {
            return Err(AcmeServerError::ValidationError);
        }
        let found = self.find(serial_number);
        if found.is_some() {
            return Err(AcmeServerError::ValidationError);
        }
        let ghost old_issued = self.issued@;
        let ghost p = pem@;
        self.issued.push(IssuedCertificate { serial_number, order, pem });
        self.stored = Ghost(self.stored@.insert(serial_number, p));
        self.positions = Ghost(self.positions@.insert(serial_number, old_issued.len() as int));
        assert forall|s: u64| #[trigger] self.stored@.contains_key(s) implies s
            < self.serial_number_registry by {
            if s != serial_number {
                assert(old(self).stored@.contains_key(s));
            }
        }
        assert forall|i: int| 0 <= i < self.issued@.len() implies {
            &&& #[trigger] self.stored@.contains_key(self.issued@[i].serial_number)
            &&& self.stored@[self.issued@[i].serial_number] == self.issued@[i].pem@
        } by {
            if i < old_issued.len() {
                assert(self.issued@[i] == old_issued[i]);
                assert(old(self).stored@.contains_key(old_issued[i].serial_number));
            }
        }
        assert forall|s: u64| #[trigger] self.stored@.contains_key(s) implies {
            &&& self.positions@.contains_key(s)
            &&& 0 <= self.positions@[s] < self.issued@.len()
            &&& self.issued@[self.positions@[s]].serial_number == s
        } by {
            if s != serial_number {
                assert(old(self).stored@.contains_key(s));
            }
        }
        Ok(())
    }

    fn find(&self, serial_number: u64) -> (r: Option<usize>)
        requires
            self.wf(),
        ensures
            r is Some <==> self.certificates().contains_key(serial_number),
            r matches Some(i) ==> i < self.issued@.len() && self.issued@[i as int].serial_number
                == serial_number,
    {
        let mut i: usize = 0;
        while i < self.issued.len()
            invariant
                self.wf(),
                i <= self.issued@.len(),
                forall|j: int| 0 <= j < i ==> #[trigger] self.issued@[j].serial_number != serial_number,
            decreases self.issued@.len() - i,
        {
            if self.issued[i].serial_number == serial_number {
                return Some(i);
            }
            i = i + 1;
        }
        None
    }

    /// The PEM text stored under a serial number, else `CertificateNotFound`.
    pub fn fetch_certificate(&self, serial_number: u64) -> (r: Result<String, AcmeServerError>)
        requires
            self.wf(),
        ensures
            fetched(*self, serial_number, r),
    {
        match self.find(serial_number) {
            Some(i) => Ok(self.issued[i].pem.clone()),
            None => Err(AcmeServerError::CertificateNotFound),
        }
    }
}

} // verus!
