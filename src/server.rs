//! The endpoints of the certificate authority, over its nonces, accounts,
//! orders and certificates. Work that waits on the outside world (drawing
//! random tokens, fetching a challenge resource, asking the signing
//! authority for a key or a signature) is done by the caller between the
//! steps offered here; each step re-checks the state it depends on.
use vstd::prelude::*;
use crate::account::{AccountRegistry, registration_outcome};
use crate::cert_manager::{CertificateManager, fetched};
use crate::csr::{csr_names, csr_names_spec, csr_subject, csr_subject_of};
use crate::digest::{b64url_bytes_of, b64url_decode};
use crate::issuance::{
    IssuanceState, finalize_outcome, order_creation_outcome, start_outcome, texts,
    validation_outcome,
};
use crate::jws::Authenticated;
use crate::key::{CertificatePlan, name_der_of, validity_spec};
use crate::nonce::{NonceService, expiry_of};
use crate::types::{
    AcmeServerError, ChallengeStatus, NewAccountRequest, NewOrderRequest, OrderStatus,
};

verus! {

/// The whole state of the certificate authority.
pub struct AcmeServer {
    pub nonces: NonceService,
    pub accounts: AccountRegistry,
    pub issuance: IssuanceState,
    pub certs: CertificateManager,
}

impl AcmeServer {
    pub open spec fn wf(self) -> bool {
        &&& self.nonces.wf()
        &&& self.accounts.wf()
        &&& self.issuance.wf()
        &&& self.certs.wf()
    }

    /// A fresh authority whose serial numbers start at `next_serial`.
    pub fn new(next_serial: u64) -> (r: AcmeServer)
        ensures
            r.wf(),
            r.certs.next_serial_spec() == next_serial,
            r.issuance.orders().len() == 0,
            r.accounts.accounts().len() == 0,
    {
        AcmeServer {
            nonces: NonceService::new(),
            accounts: AccountRegistry::new(),
            issuance: IssuanceState::new(),
            certs: CertificateManager::new(next_serial),
        }
    }

    /// Registers the key of an envelope signed with an embedded `jwk`; an
    /// envelope that names an account (`kid`) gives `MalformedRequest`.
    pub fn new_account(
        &mut self,
        auth: &Authenticated,
        body: NewAccountRequest,
        now: u64,
        ip: Option<String>,
    ) -> (r: Result<(usize, bool), AcmeServerError>)
        requires
            old(self).wf(),
        ensures
            final(self).wf(),
            final(self).nonces == old(self).nonces,
            final(self).issuance == old(self).issuance,
            final(self).certs == old(self).certs,
            auth.account is Some ==> r == Err::<(usize, bool), AcmeServerError>(
                AcmeServerError::MalformedRequest,
            ) && final(self).accounts == old(self).accounts,
            auth.account is None ==> registration_outcome(
                old(self).accounts,
                final(self).accounts,
                auth.jwk,
                body,
                now,
                ip,
                r,
            ),
    {
        if auth.account.is_some() {
            return Err(AcmeServerError::MalformedRequest);
        }
        self.accounts.new_account(&auth.jwk, body, now, ip)
    }

    /// Creates an order for the account of an envelope signed with `kid`;
    /// see `IssuanceState::new_order`. An envelope without an account gives
    /// `MalformedRequest`.
    pub fn new_order(
        &mut self,
        auth: &Authenticated,
        body: NewOrderRequest,
        tokens: &Vec<String>,
        expires: Option<u64>,
    ) -> (r: Result<usize, AcmeServerError>)
        requires
            old(self).wf(),
            tokens@.len() == body.identifiers@.len(),
            forall|j: int| 0 <= j < tokens@.len() ==> (#[trigger] tokens@[j])@.len() > 0,
        ensures
            final(self).wf(),
            final(self).nonces == old(self).nonces,
            final(self).accounts == old(self).accounts,
            final(self).certs == old(self).certs,
            auth.account is None ==> r == Err::<usize, AcmeServerError>(
                AcmeServerError::MalformedRequest,
            ) && final(self).issuance == old(self).issuance,
            auth.account matches Some(a) ==> order_creation_outcome(
                old(self).issuance,
                final(self).issuance,
                a,
                body.identifiers@,
                tokens@,
                expires,
                r,
            ),
    {
        let account = match auth.account {
            Some(a) => a,
            None => return Err(AcmeServerError::MalformedRequest),
        };
        self.issuance.new_order(account, body.identifiers, tokens, expires)
    }

    /// The client asks for challenge `c` to be checked; see
    /// `IssuanceState::start_validation`.
    pub fn respond_challenge(&mut self, auth: &Authenticated, c: usize) -> (r: Result<(), AcmeServerError>)
        requires
            old(self).wf(),
        ensures
            final(self).wf(),
            final(self).nonces == old(self).nonces,
            final(self).accounts == old(self).accounts,
            final(self).certs == old(self).certs,
            auth.account is None ==> r == Err::<(), AcmeServerError>(AcmeServerError::MalformedRequest)
                && final(self).issuance == old(self).issuance,
            auth.account matches Some(a) ==> start_outcome(old(self).issuance, final(self).issuance, a, c, r),
    {
        let account = match auth.account {
            Some(a) => a,
            None => return Err(AcmeServerError::MalformedRequest),
        };
        self.issuance.start_validation(account, c)
    }

    /// Completes the check of challenge `c` against what was fetched, with
    /// the thumbprint of the owning account's key; see
    /// `IssuanceState::complete_validation`. An unknown challenge gives
    /// `InvalidChallenge`; an owner that is not registered gives
    /// `AccountDoesNotExist`.
    pub fn complete_challenge(&mut self, c: usize, fetched_text: Option<String>, now: u64) -> (r: Result<
        ChallengeStatus,
        AcmeServerError,
    >)
        requires
            old(self).wf(),
        ensures
            final(self).wf(),
            final(self).nonces == old(self).nonces,
            final(self).accounts == old(self).accounts,
            final(self).certs == old(self).certs,
            c >= old(self).issuance.challenges().len() ==> r == Err::<ChallengeStatus, AcmeServerError>(
                AcmeServerError::InvalidChallenge,
            ) && final(self).issuance == old(self).issuance,
            c < old(self).issuance.challenges().len() ==> {
                let owner = old(self).issuance.challenge_owner(c as int);
                &&& owner >= old(self).accounts.accounts().len() ==> r == Err::<ChallengeStatus, AcmeServerError>(
                    AcmeServerError::AccountDoesNotExist,
                ) && final(self).issuance == old(self).issuance
                &&& owner < old(self).accounts.accounts().len() ==> validation_outcome(
                    old(self).issuance,
                    final(self).issuance,
                    c,
                    old(self).accounts.accounts()[owner as int].thumbprint@,
                    fetched_text,
                    now,
                    r,
                )
            },
    {
        let owner = {
            let ch = match self.issuance.challenge(c) {
                Some(ch) => ch,
                None => return Err(AcmeServerError::InvalidChallenge),
            };
            let authz = self.issuance.authorization(ch.authorization).unwrap();
            let order = self.issuance.order(authz.order).unwrap();
            order.account
        };
        let thumbprint = match self.accounts.account(owner) {
            Some(acct) => acct.thumbprint.clone(),
            None => return Err(AcmeServerError::AccountDoesNotExist),
        };
        self.issuance.complete_validation(c, thumbprint.as_str(), fetched_text, now)
    }

    /// Finalizes order `o` with a DER-encoded CSR at time `now`: the order
    /// checks of `IssuanceState::finalize` on the CSR's names, then a
    /// serial number and a certificate plan for the CSR's subject. Where
    /// planning fails the order becomes `invalid` and the error is returned.
    pub fn finalize(&mut self, auth: &Authenticated, o: usize, csr_der: &[u8], now: u64) -> (r: Result<
        CertificatePlan,
        AcmeServerError,
    >)
        requires
            old(self).wf(),
        ensures
            final(self).wf(),
            final(self).nonces == old(self).nonces,
            final(self).accounts == old(self).accounts,
            auth.account is None ==> r == Err::<CertificatePlan, AcmeServerError>(
                AcmeServerError::MalformedRequest,
            ) && *final(self) == *old(self),
            auth.account matches Some(a) ==> {
                let checks = finalize_outcome(old(self).issuance, a, o, csr_names_spec(csr_der@));
                &&& checks is Err ==> r == Err::<CertificatePlan, AcmeServerError>(checks->Err_0)
                    && *final(self) == *old(self)
                &&& checks is Ok ==> (r is Ok <==> (old(self).certs.next_serial_spec() < u64::MAX
                    && (csr_subject_of(csr_der@) matches Some(subject) && name_der_of(subject) is Some)
                    && validity_spec(now) is Some))
                &&& checks is Ok && r is Ok ==> final(self).issuance.orders()[o as int].status is Processing
                    && r->Ok_0.serial_number == old(self).certs.next_serial_spec()
                    && final(self).certs.next_serial_spec() == old(self).certs.next_serial_spec() + 1
                    && Some(r->Ok_0.subject@) == csr_subject_of(csr_der@)
                    && Some(r->Ok_0.validity) == validity_spec(now)
                &&& checks is Ok && r is Err ==> final(self).issuance.orders()[o as int].status is Invalid
            },
    {
        let account = match auth.account {
            Some(a) => a,
            None => return Err(AcmeServerError::MalformedRequest),
        };
        let names = csr_names(csr_der);
        match self.issuance.finalize(account, o, &names) {
            Ok(()) => {},
            Err(e) => return Err(e),
        }
        let subject = csr_subject(csr_der).unwrap();
        match self.certs.generate_cert(subject.as_str(), now) {
            Ok(plan) => Ok(plan),
            Err(e) => {
                let _ = self.issuance.fail_issuance(o);
                Err(e)
            },
        }
    }

    /// Finalizes order `o` with the base64url text of a DER CSR, as a
    /// finalize request carries it; text that is no base64url counts as a
    /// CSR that asks for no name, so the order checks decide or `BadCsr`
    /// comes, and nothing changes.
    pub fn finalize_request(&mut self, auth: &Authenticated, o: usize, csr: &str, now: u64) -> (r: Result<
        CertificatePlan,
        AcmeServerError,
    >)
        requires
            old(self).wf(),
        ensures
            final(self).wf(),
            final(self).nonces == old(self).nonces,
            final(self).accounts == old(self).accounts,
            auth.account is None ==> r == Err::<CertificatePlan, AcmeServerError>(
                AcmeServerError::MalformedRequest,
            ) && *final(self) == *old(self),
            b64url_bytes_of(csr@) is None ==> r is Err && *final(self) == *old(self),
            auth.account matches Some(a) ==> b64url_bytes_of(csr@) is None ==> r == Err::<CertificatePlan, AcmeServerError>(
                finalize_outcome(old(self).issuance, a, o, Seq::empty())->Err_0,
            ),
            b64url_bytes_of(csr@) matches Some(der) ==> auth.account matches Some(a) ==> {
                let checks = finalize_outcome(old(self).issuance, a, o, csr_names_spec(der));
                &&& checks is Err ==> r == Err::<CertificatePlan, AcmeServerError>(checks->Err_0)
                    && *final(self) == *old(self)
                &&& checks is Ok ==> (r is Ok <==> (old(self).certs.next_serial_spec() < u64::MAX
                    && (csr_subject_of(der) matches Some(subject) && name_der_of(subject) is Some)
                    && validity_spec(now) is Some))
                &&& checks is Ok && r is Ok ==> final(self).issuance.orders()[o as int].status is Processing
                    && r->Ok_0.serial_number == old(self).certs.next_serial_spec()
                    && Some(r->Ok_0.subject@) == csr_subject_of(der)
                &&& checks is Ok && r is Err ==> final(self).issuance.orders()[o as int].status is Invalid
            },
    {
        let account = match auth.account {
            Some(a) => a,
            None => return Err(AcmeServerError::MalformedRequest),
        };
        match b64url_decode(csr) {
            Some(der) => self.finalize(auth, o, der.as_slice(), now),
            None => {
                let no_names: Vec<String> = Vec::new();
                assert(texts(no_names@) =~= Seq::<Seq<char>>::empty());
                match self.issuance.finalize(account, o, &no_names) {
                    Ok(()) => {
                        assert(false);
                        Err(AcmeServerError::BadCsr)
                    },
                    Err(e) => Err(e),
                }
            },
        }
    }

    /// The certificate with serial number `serial_number` was built and
    /// signed for order `o` and is given as PEM text: where the order is
    /// still `processing` and the serial number was handed out and is not
    /// used yet, the certificate is stored and the order becomes `valid`. Else `ValidationError` (`OrderNotFound` for an
    /// unknown order) and nothing changes.
    pub fn finish_issuance(&mut self, o: usize, serial_number: u64, pem: String) -> (r: Result<(), AcmeServerError>)
        requires
            old(self).wf(),
        ensures
            final(self).wf(),
            final(self).nonces == old(self).nonces,
            final(self).accounts == old(self).accounts,
            r is Err ==> *final(self) == *old(self),
            r is Ok <==> (o < old(self).issuance.orders().len()
                && old(self).issuance.orders()[o as int].status is Processing
                && serial_number < old(self).certs.next_serial_spec()
                && !old(self).certs.certificates().contains_key(serial_number)),
            r is Ok ==> final(self).certs.certificates() == old(self).certs.certificates().insert(serial_number, pem@)
                && final(self).issuance.orders()[o as int].status is Valid
                && final(self).issuance.orders()[o as int].certificate == Some(serial_number),
    {
        match self.issuance.order(o) {
            Some(order) => {
                if order.status != OrderStatus::Processing {
                    return Err(AcmeServerError::ValidationError);
                }
            },
            None => return Err(AcmeServerError::OrderNotFound),
        }
        match self.certs.store_certificate(serial_number, o, pem) {
            Ok(()) => {},
            Err(e) => return Err(e),
        }
        let done = self.issuance.complete_issuance(o, serial_number);
        assert(done is Ok);
        Ok(())
    }

    /// The signing authority failed for order `o`: see
    /// `IssuanceState::fail_issuance`.
    pub fn abort_issuance(&mut self, o: usize) -> (r: Result<(), AcmeServerError>)
        requires
            old(self).wf(),
        ensures
            final(self).wf(),
            final(self).nonces == old(self).nonces,
            final(self).accounts == old(self).accounts,
            final(self).certs == old(self).certs,
            r is Err ==> *final(self) == *old(self),
            o >= old(self).issuance.orders().len() ==> r == Err::<(), AcmeServerError>(AcmeServerError::OrderNotFound),
            o < old(self).issuance.orders().len() ==> (r is Ok <==> old(self).issuance.orders()[o as int].status is Processing),
            r is Ok ==> final(self).issuance.orders()[o as int].status is Invalid,
    {
        self.issuance.fail_issuance(o)
    }

    /// The PEM text of the certificate with serial number `serial_number`.
    pub fn certificate(&self, serial_number: u64) -> (r: Result<String, AcmeServerError>)
        requires
            self.wf(),
        ensures
            fetched(self.certs, serial_number, r),
    {
        self.certs.fetch_certificate(serial_number)
    }

    /// Records a freshly drawn nonce; see `NonceService::issue`.
    pub fn new_nonce(&mut self, token: String, now: u64) -> (r: bool)
        requires
            old(self).wf(),
        ensures
            final(self).wf(),
            final(self).accounts == old(self).accounts,
            final(self).issuance == old(self).issuance,
            final(self).certs == old(self).certs,
            r == !old(self).nonces.known().contains(token@),
            r ==> final(self).nonces.known() == old(self).nonces.known().insert(token@)
                && final(self).nonces.outstanding(token@, now) == (now < expiry_of(now)),
            !r ==> final(self).nonces == old(self).nonces,
    {
        self.nonces.issue(token, now)
    }
}

} // verus!
