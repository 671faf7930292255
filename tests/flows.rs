use std::str::FromStr;

use acme_ic::account::AccountRegistry;
use acme_ic::es256k::jwk_thumbprint;
use acme_ic::issuance::key_authorization;
use acme_ic::jws::{authenticate, GeneralRequest};
use acme_ic::nonce::NonceService;
use acme_ic::server::AcmeServer;
use acme_ic::types::{
    AccountStatus, AcmeServerError, AuthorizationStatus, ChallengeStatus, Identifier,
    JwkPublicKey, NewAccountRequest, NewOrderRequest, OrderStatus,
};
use base64::Engine;
use k256::ecdsa::signature::Signer;
use k256::ecdsa::{Signature, SigningKey};
use k256::pkcs8::EncodePublicKey;
use x509_cert::der::Encode;

fn b64(bytes: &[u8]) -> String {
    base64::engine::general_purpose::URL_SAFE_NO_PAD.encode(bytes)
}

fn signing_key(seed: u8) -> SigningKey {
    SigningKey::from_slice(&[seed; 32]).unwrap()
}

fn jwk_of(sk: &SigningKey) -> JwkPublicKey {
    let point = sk.verifying_key().to_encoded_point(false);
    JwkPublicKey {
        kty: "EC".to_string(),
        crv: "secp256k1".to_string(),
        x: b64(point.x().unwrap()),
        y: Some(b64(point.y().unwrap())),
    }
}

fn jwk_json(jwk: &JwkPublicKey) -> String {
    format!(
        "{{\"kty\":\"{}\",\"crv\":\"{}\",\"x\":\"{}\",\"y\":\"{}\"}}",
        jwk.kty,
        jwk.crv,
        jwk.x,
        jwk.y.as_ref().unwrap()
    )
}

fn sign_envelope(sk: &SigningKey, header: &str, payload: &str) -> GeneralRequest {
    let protected = b64(header.as_bytes());
    let payload = b64(payload.as_bytes());
    let input = format!("{}.{}", protected, payload);
    let sig: Signature = sk.sign(input.as_bytes());
    GeneralRequest { protected, payload, signature: b64(&sig.to_bytes()) }
}

fn jwk_header(sk: &SigningKey, nonce: &str) -> String {
    format!(
        "{{\"alg\":\"ES256K\",\"url\":\"https://ca.test/new-account\",\"nonce\":\"{}\",\"jwk\":{}}}",
        nonce,
        jwk_json(&jwk_of(sk))
    )
}

fn kid_header(kid: &str, nonce: &str) -> String {
    format!(
        "{{\"alg\":\"ES256K\",\"url\":\"https://ca.test/order\",\"nonce\":\"{}\",\"kid\":\"{}\"}}",
        nonce, kid
    )
}

fn flip_bit(text: &str) -> String {
    let mut bytes = base64::engine::general_purpose::URL_SAFE_NO_PAD.decode(text).unwrap();
    bytes[0] ^= 1;
    b64(&bytes)
}

fn dns(value: &str) -> Identifier {
    Identifier { kind: "dns".to_string(), value: value.to_string() }
}

fn csr_for(sk: &SigningKey, subject: &str) -> Vec<u8> {
    let name = x509_cert::name::Name::from_str(subject).unwrap();
    let spki_der = sk.verifying_key().to_public_key_der().unwrap();
    let public_key =
        x509_cert::spki::SubjectPublicKeyInfoOwned::try_from(spki_der.as_bytes()).unwrap();
    let req = x509_cert::request::CertReq {
        info: x509_cert::request::CertReqInfo {
            version: x509_cert::request::Version::V1,
            subject: name,
            public_key,
            attributes: Default::default(),
        },
        algorithm: x509_cert::spki::AlgorithmIdentifierOwned {
            oid: x509_cert::spki::ObjectIdentifier::new_unwrap("1.2.840.10045.4.3.2"),
            parameters: None,
        },
        signature: x509_cert::der::asn1::BitString::from_bytes(&[0u8; 8]).unwrap(),
    };
    req.to_der().unwrap()
}

/// A server with one valid account, created through a signed new-account
/// request; returns the server, the account index and its thumbprint.
fn server_with_account(sk: &SigningKey) -> (AcmeServer, usize, String) {
    let mut server = AcmeServer::new(1);
    assert!(server.new_nonce("n-acct".to_string(), 100));
    let req = sign_envelope(sk, &jwk_header(sk, "n-acct"), "{\"termsOfServiceAgreed\":true}");
    let auth = authenticate(&mut server.nonces, &server.accounts, &req, 101).unwrap();
    let body = NewAccountRequest { terms_of_service_agreed: true, contact: None };
    let (id, created) = server.new_account(&auth, body, 101, None).unwrap();
    assert!(created);
    let thumbprint = jwk_thumbprint(&jwk_of(sk)).unwrap();
    (server, id, thumbprint)
}

#[test]
fn new_account_with_fresh_key_is_valid() {
    let sk = signing_key(7);
    let (server, id, thumbprint) = server_with_account(&sk);
    let account = server.accounts.account(id).unwrap();
    assert_eq!(account.status, AccountStatus::Valid);
    assert_eq!(account.status.as_str(), "valid");
    assert!(account.terms_of_service_agreed);
    assert_eq!(account.thumbprint, thumbprint);
    assert_eq!(server.accounts.find(&thumbprint), Some(id));
}

#[test]
fn new_account_twice_returns_existing() {
    let sk = signing_key(7);
    let (mut server, id, _) = server_with_account(&sk);
    assert!(server.new_nonce("n2".to_string(), 200));
    let req = sign_envelope(&sk, &jwk_header(&sk, "n2"), "{}");
    let auth = authenticate(&mut server.nonces, &server.accounts, &req, 201).unwrap();
    let body = NewAccountRequest { terms_of_service_agreed: true, contact: None };
    assert_eq!(server.new_account(&auth, body, 201, None), Ok((id, false)));
}

#[test]
fn deactivated_account_is_refused() {
    let sk = signing_key(7);
    let (mut server, id, thumbprint) = server_with_account(&sk);
    assert_eq!(server.accounts.deactivate(id), Ok(()));
    assert!(server.new_nonce("n3".to_string(), 300));
    let req = sign_envelope(&sk, &kid_header(&thumbprint, "n3"), "{}");
    assert_eq!(
        authenticate(&mut server.nonces, &server.accounts, &req, 301).unwrap_err(),
        AcmeServerError::Unauthorized
    );
}

#[test]
fn flipped_payload_bit_fails_verification() {
    let sk = signing_key(9);
    let mut nonces = NonceService::new();
    let accounts = AccountRegistry::new();
    assert!(nonces.issue("env-nonce-1".to_string(), 0));
    let mut req = sign_envelope(&sk, &jwk_header(&sk, "env-nonce-1"), "{\"contact\":[]}");
    req.payload = flip_bit(&req.payload);
    assert_eq!(
        authenticate(&mut nonces, &accounts, &req, 1).unwrap_err(),
        AcmeServerError::Unauthorized
    );
}

#[test]
fn flipped_signature_bit_fails_verification() {
    let sk = signing_key(9);
    let mut nonces = NonceService::new();
    let accounts = AccountRegistry::new();
    assert!(nonces.issue("env-nonce-2".to_string(), 0));
    let mut req = sign_envelope(&sk, &jwk_header(&sk, "env-nonce-2"), "{}");
    req.signature = flip_bit(&req.signature);
    assert_eq!(
        authenticate(&mut nonces, &accounts, &req, 1).unwrap_err(),
        AcmeServerError::Unauthorized
    );
}

#[test]
fn untouched_envelope_verifies() {
    let sk = signing_key(9);
    let mut nonces = NonceService::new();
    let accounts = AccountRegistry::new();
    assert!(nonces.issue("env-nonce-3".to_string(), 0));
    let req = sign_envelope(&sk, &jwk_header(&sk, "env-nonce-3"), "{\"a\":1}");
    let auth = authenticate(&mut nonces, &accounts, &req, 1).unwrap();
    assert_eq!(auth.payload, b"{\"a\":1}".to_vec());
    assert_eq!(auth.url, "https://ca.test/new-account");
    assert_eq!(auth.account, None);
    assert_eq!(auth.jwk.x, jwk_of(&sk).x);
}

#[test]
fn replayed_envelope_has_bad_nonce() {
    let sk = signing_key(9);
    let mut nonces = NonceService::new();
    let accounts = AccountRegistry::new();
    assert!(nonces.issue("env-nonce-4".to_string(), 0));
    let req = sign_envelope(&sk, &jwk_header(&sk, "env-nonce-4"), "{}");
    assert!(authenticate(&mut nonces, &accounts, &req, 1).is_ok());
    assert_eq!(
        authenticate(&mut nonces, &accounts, &req, 2).unwrap_err(),
        AcmeServerError::BadNonce
    );
}

#[test]
fn malformed_envelope_is_refused() {
    let mut nonces = NonceService::new();
    let accounts = AccountRegistry::new();
    let req = GeneralRequest {
        protected: "***".to_string(),
        payload: "e30".to_string(),
        signature: "AA".to_string(),
    };
    assert_eq!(
        authenticate(&mut nonces, &accounts, &req, 1).unwrap_err(),
        AcmeServerError::MalformedRequest
    );
}

#[test]
fn header_with_kid_and_jwk_is_malformed() {
    let sk = signing_key(3);
    let mut nonces = NonceService::new();
    let accounts = AccountRegistry::new();
    assert!(nonces.issue("env-nonce-5".to_string(), 0));
    let header = format!(
        "{{\"alg\":\"ES256K\",\"url\":\"u\",\"nonce\":\"env-nonce-5\",\"kid\":\"k\",\"jwk\":{}}}",
        jwk_json(&jwk_of(&sk))
    );
    let req = sign_envelope(&sk, &header, "{}");
    assert_eq!(
        authenticate(&mut nonces, &accounts, &req, 1).unwrap_err(),
        AcmeServerError::MalformedRequest
    );
    assert_eq!(nonces.consume("env-nonce-5", 1), Ok(()));
}

#[test]
fn unsupported_alg_is_refused() {
    let sk = signing_key(3);
    let mut nonces = NonceService::new();
    let accounts = AccountRegistry::new();
    assert!(nonces.issue("env-nonce-6".to_string(), 0));
    let header = jwk_header(&sk, "env-nonce-6").replace("ES256K", "RS256");
    let req = sign_envelope(&sk, &header, "{}");
    assert_eq!(
        authenticate(&mut nonces, &accounts, &req, 1).unwrap_err(),
        AcmeServerError::BadSignatureAlgorithm
    );
}

#[test]
fn unknown_kid_is_refused() {
    let sk = signing_key(3);
    let mut nonces = NonceService::new();
    let accounts = AccountRegistry::new();
    assert!(nonces.issue("env-nonce-7".to_string(), 0));
    let req = sign_envelope(&sk, &kid_header("nobody", "env-nonce-7"), "{}");
    assert_eq!(
        authenticate(&mut nonces, &accounts, &req, 1).unwrap_err(),
        AcmeServerError::AccountDoesNotExist
    );
}

#[test]
fn new_order_creates_pending_http01_challenge() {
    let sk = signing_key(7);
    let (mut server, id, thumbprint) = server_with_account(&sk);
    assert!(server.new_nonce("o1".to_string(), 400));
    let req = sign_envelope(&sk, &kid_header(&thumbprint, "o1"), "{}");
    let auth = authenticate(&mut server.nonces, &server.accounts, &req, 401).unwrap();
    assert_eq!(auth.account, Some(id));
    let body = NewOrderRequest { identifiers: vec![dns("example.com")], not_before: None, not_after: None };
    let o = server.new_order(&auth, body, &vec!["tok-1".to_string()], None).unwrap();
    let order = server.issuance.order(o).unwrap();
    assert_eq!(order.status, OrderStatus::Pending);
    assert_eq!(order.authorizations.len(), 1);
    let authz = server.issuance.authorization(order.authorizations[0]).unwrap();
    assert_eq!(authz.status, AuthorizationStatus::Pending);
    assert_eq!(authz.identifier.value, "example.com");
    assert_eq!(authz.challenges.len(), 1);
    let ch = server.issuance.challenge(authz.challenges[0]).unwrap();
    assert_eq!(ch.kind, "http-01");
    assert_eq!(ch.status, ChallengeStatus::Pending);
    assert!(!ch.token.is_empty());
}

/// Creates an order for `example.com` and validates its challenge with the
/// correct key authorization; returns the server, account, order and
/// challenge.
fn ready_order(sk: &SigningKey) -> (AcmeServer, acme_ic::jws::Authenticated, usize, usize) {
    let (mut server, _, thumbprint) = server_with_account(sk);
    assert!(server.new_nonce("r1".to_string(), 500));
    let req = sign_envelope(sk, &kid_header(&thumbprint, "r1"), "{}");
    let auth = authenticate(&mut server.nonces, &server.accounts, &req, 501).unwrap();
    let body = NewOrderRequest { identifiers: vec![dns("example.com")], not_before: None, not_after: None };
    let o = server.new_order(&auth, body, &vec!["tok-r".to_string()], None).unwrap();
    let a = server.issuance.order(o).unwrap().authorizations[0];
    let c = server.issuance.authorization(a).unwrap().challenges[0];
    assert_eq!(server.respond_challenge(&auth, c), Ok(()));
    assert_eq!(server.issuance.challenge(c).unwrap().status, ChallengeStatus::Processing);
    let fetched = key_authorization("tok-r", &thumbprint);
    assert_eq!(server.complete_challenge(c, Some(fetched), 502), Ok(ChallengeStatus::Valid));
    (server, auth, o, c)
}

#[test]
fn correct_key_authorization_makes_order_ready() {
    let sk = signing_key(7);
    let (server, _, o, c) = ready_order(&sk);
    let ch = server.issuance.challenge(c).unwrap();
    assert_eq!(ch.status, ChallengeStatus::Valid);
    assert_eq!(ch.validated, Some(502));
    let a = ch.authorization;
    assert_eq!(server.issuance.authorization(a).unwrap().status, AuthorizationStatus::Valid);
    assert_eq!(server.issuance.order(o).unwrap().status, OrderStatus::Ready);
}

#[test]
fn wrong_key_authorization_invalidates() {
    let sk = signing_key(7);
    let (mut server, _, thumbprint) = server_with_account(&sk);
    assert!(server.new_nonce("w1".to_string(), 600));
    let req = sign_envelope(&sk, &kid_header(&thumbprint, "w1"), "{}");
    let auth = authenticate(&mut server.nonces, &server.accounts, &req, 601).unwrap();
    let body = NewOrderRequest { identifiers: vec![dns("example.com")], not_before: None, not_after: None };
    let o = server.new_order(&auth, body, &vec!["tok-w".to_string()], None).unwrap();
    let a = server.issuance.order(o).unwrap().authorizations[0];
    let c = server.issuance.authorization(a).unwrap().challenges[0];
    assert_eq!(server.respond_challenge(&auth, c), Ok(()));
    let wrong = format!("tok-w.{}x", thumbprint);
    assert_eq!(server.complete_challenge(c, Some(wrong), 602), Ok(ChallengeStatus::Invalid));
    let ch = server.issuance.challenge(c).unwrap();
    assert_eq!(ch.status, ChallengeStatus::Invalid);
    let err = ch.error.as_ref().unwrap();
    assert_eq!(err.kind, "urn:ietf:params:acme:error:incorrectResponse");
    assert!(!err.detail.is_empty());
    assert_eq!(server.issuance.authorization(a).unwrap().status, AuthorizationStatus::Invalid);
    assert_eq!(server.issuance.order(o).unwrap().status, OrderStatus::Invalid);
}

#[test]
fn failed_fetch_invalidates() {
    let sk = signing_key(7);
    let (mut server, _, thumbprint) = server_with_account(&sk);
    assert!(server.new_nonce("f1".to_string(), 600));
    let req = sign_envelope(&sk, &kid_header(&thumbprint, "f1"), "{}");
    let auth = authenticate(&mut server.nonces, &server.accounts, &req, 601).unwrap();
    let body = NewOrderRequest { identifiers: vec![dns("example.com")], not_before: None, not_after: None };
    let o = server.new_order(&auth, body, &vec!["tok-f".to_string()], None).unwrap();
    let a = server.issuance.order(o).unwrap().authorizations[0];
    let c = server.issuance.authorization(a).unwrap().challenges[0];
    assert_eq!(server.respond_challenge(&auth, c), Ok(()));
    assert_eq!(server.complete_challenge(c, None, 602), Ok(ChallengeStatus::Invalid));
    assert!(server.issuance.challenge(c).unwrap().error.is_some());
}

#[test]
fn finalize_with_foreign_domain_is_bad_csr() {
    let sk = signing_key(7);
    let (mut server, auth, o, _) = ready_order(&sk);
    let csr = csr_for(&sk, "CN=other.org");
    assert_eq!(server.finalize(&auth, o, &csr, 700).unwrap_err(), AcmeServerError::BadCsr);
    assert_eq!(server.issuance.order(o).unwrap().status, OrderStatus::Ready);
}

#[test]
fn finalize_with_garbage_csr_is_bad_csr() {
    let sk = signing_key(7);
    let (mut server, auth, o, _) = ready_order(&sk);
    assert_eq!(server.finalize(&auth, o, &[1, 2, 3], 700).unwrap_err(), AcmeServerError::BadCsr);
    assert_eq!(server.issuance.order(o).unwrap().status, OrderStatus::Ready);
}

#[test]
fn finalize_and_issue_certificate() {
    let sk = signing_key(7);
    let (mut server, auth, o, _) = ready_order(&sk);
    let csr = csr_for(&sk, "CN=example.com");
    let plan = server.finalize(&auth, o, &csr, 700).unwrap();
    assert_eq!(plan.serial_number, 1);
    assert_eq!(plan.subject, "CN=example.com");
    assert_eq!(plan.validity.not_before, 700);
    assert_eq!(plan.validity.not_after, 700 + acme_ic::key::ONE_YEAR_VALIDITY_NANOS);
    assert_eq!(plan.derivation_path.len(), 64);
    assert_eq!(server.issuance.order(o).unwrap().status, OrderStatus::Processing);
    let pem = "-----BEGIN CERTIFICATE-----\nAA==\n-----END CERTIFICATE-----\n".to_string();
    assert_eq!(server.finish_issuance(o, plan.serial_number, pem.clone()), Ok(()));
    assert_eq!(server.issuance.order(o).unwrap().status, OrderStatus::Valid);
    assert_eq!(server.issuance.order(o).unwrap().certificate, Some(1));
    let first = server.certificate(1).unwrap();
    let second = server.certificate(1).unwrap();
    assert_eq!(first, pem);
    assert_eq!(first.as_bytes(), second.as_bytes());
}

#[test]
fn signing_failure_invalidates_order() {
    let sk = signing_key(7);
    let (mut server, auth, o, _) = ready_order(&sk);
    let csr = csr_for(&sk, "CN=example.com");
    let _plan = server.finalize(&auth, o, &csr, 700).unwrap();
    assert_eq!(server.abort_issuance(o), Ok(()));
    assert_eq!(server.issuance.order(o).unwrap().status, OrderStatus::Invalid);
    assert_eq!(
        server.finish_issuance(o, 1, "x".to_string()),
        Err(AcmeServerError::ValidationError)
    );
}

#[test]
fn finalize_before_ready_is_refused() {
    let sk = signing_key(7);
    let (mut server, _, thumbprint) = server_with_account(&sk);
    assert!(server.new_nonce("b1".to_string(), 800));
    let req = sign_envelope(&sk, &kid_header(&thumbprint, "b1"), "{}");
    let auth = authenticate(&mut server.nonces, &server.accounts, &req, 801).unwrap();
    let body = NewOrderRequest { identifiers: vec![dns("example.com")], not_before: None, not_after: None };
    let o = server.new_order(&auth, body, &vec!["tok-b".to_string()], None).unwrap();
    let csr = csr_for(&sk, "CN=example.com");
    assert_eq!(server.finalize(&auth, o, &csr, 802).unwrap_err(), AcmeServerError::ValidationError);
    assert_eq!(server.finalize(&auth, o + 5, &csr, 802).unwrap_err(), AcmeServerError::OrderNotFound);
}

#[test]
fn finalize_with_non_base64_csr_is_bad_csr() {
    let sk = signing_key(7);
    let (mut server, auth, o, _) = ready_order(&sk);
    assert_eq!(server.finalize_request(&auth, o, "%%%", 700).unwrap_err(), AcmeServerError::BadCsr);
    assert_eq!(server.issuance.order(o).unwrap().status, OrderStatus::Ready);
    let csr = b64(&csr_for(&sk, "CN=example.com"));
    let plan = server.finalize_request(&auth, o, &csr, 701).unwrap();
    assert_eq!(plan.subject, "CN=example.com");
}

#[test]
fn interleaved_finalizations_get_distinct_increasing_serials() {
    let sk = signing_key(7);
    let (mut server, _, thumbprint) = server_with_account(&sk);
    let mut orders = Vec::new();
    for (i, domain) in ["a.example", "b.example"].iter().enumerate() {
        let nonce = format!("i-{}", i);
        assert!(server.new_nonce(nonce.clone(), 900));
        let req = sign_envelope(&sk, &kid_header(&thumbprint, &nonce), "{}");
        let auth = authenticate(&mut server.nonces, &server.accounts, &req, 901).unwrap();
        let token = format!("tok-{}", i);
        let body = NewOrderRequest { identifiers: vec![dns(domain)], not_before: None, not_after: None };
        let o = server.new_order(&auth, body, &vec![token.clone()], None).unwrap();
        let a = server.issuance.order(o).unwrap().authorizations[0];
        let c = server.issuance.authorization(a).unwrap().challenges[0];
        assert_eq!(server.respond_challenge(&auth, c), Ok(()));
        let fetched = key_authorization(&token, &thumbprint);
        assert_eq!(server.complete_challenge(c, Some(fetched), 902), Ok(ChallengeStatus::Valid));
        orders.push((auth, o, domain.to_string()));
    }
    let mut plans = Vec::new();
    for (auth, o, domain) in &orders {
        let csr = csr_for(&sk, &format!("CN={}", domain));
        plans.push(server.finalize(auth, *o, &csr, 903).unwrap());
    }
    assert_eq!(plans[0].serial_number, 1);
    assert_eq!(plans[1].serial_number, 2);
    assert_ne!(plans[0].derivation_path, plans[1].derivation_path);
    assert_eq!(server.finish_issuance(orders[1].1, plans[1].serial_number, "second".to_string()), Ok(()));
    assert_eq!(server.finish_issuance(orders[0].1, plans[0].serial_number, "first".to_string()), Ok(()));
    assert_eq!(server.certificate(1), Ok("first".to_string()));
    assert_eq!(server.certificate(2), Ok("second".to_string()));
    assert_eq!(server.certs.next_serial(), 3);
}
