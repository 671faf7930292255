use std::str::FromStr;

use acme_ic::account::{contact_ok, AccountRegistry};
use acme_ic::cert_manager::CertificateManager;
use acme_ic::csr::subject_domain;
use acme_ic::es256k::{jwk_thumbprint, Es256kPublicKey, RawJwkPublicKey};
use acme_ic::handler::{GenericError, Method};
use acme_ic::issuance::{identifiers_ok, key_authorization, names_covered, IssuanceState};
use acme_ic::key::{
    be_bytes, AcmeKey, Asn1EncodedSignature, Certificate, EcdsaKeyIds, Profile, Validity,
    ONE_YEAR_VALIDITY_NANOS, ROOT_NAME,
};
use acme_ic::types::{
    AcmeServerError, AuthorizationStatus, ChallengeStatus, Identifier, JwkPublicKey,
    NewAccountRequest, OrderStatus,
};
use base64::Engine;
use k256::ecdsa::signature::Signer;
use k256::ecdsa::{Signature, SigningKey};
use k256::pkcs8::EncodePublicKey;
use k256::sha2::Digest;
use tiny_keccak::Hasher;
use x509_cert::der::Encode;

fn b64(bytes: &[u8]) -> String {
    base64::engine::general_purpose::URL_SAFE_NO_PAD.encode(bytes)
}

fn dns(value: &str) -> Identifier {
    Identifier { kind: "dns".to_string(), value: value.to_string() }
}

fn jwk_of(sk: &SigningKey) -> JwkPublicKey {
    let point = sk.verifying_key().to_encoded_point(false);
    JwkPublicKey {
        kty: "EC".to_string(),
        crv: "secp256k1".to_string(),
        x: b64(point.x().unwrap()),
        y: Some(b64(point.y().unwrap())),
    }
}

#[test]
fn method_names() {
    assert_eq!(Method::GET.as_str(), "GET");
    assert_eq!(Method::POST.as_str(), "POST");
    assert_eq!(Method::from_str("POST"), Ok(Method::POST));
    assert_eq!(Method::from_str("GET"), Ok(Method::GET));
    assert_eq!(Method::from_str("PUT"), Err(AcmeServerError::MalformedRequest));
}

#[test]
fn problem_documents() {
    let p = AcmeServerError::BadNonce.problem("stale");
    assert_eq!(p.kind, "urn:ietf:params:acme:error:badNonce");
    assert_eq!(p.status, 400);
    assert_eq!(p.detail, "stale");
    assert!(p.instance.is_none());
    assert_eq!(AcmeServerError::BadCsr.problem_type(), "urn:ietf:params:acme:error:badCSR");
    assert_eq!(AcmeServerError::CertificateNotFound.status_code(), 404);
    assert_eq!(AcmeServerError::SigningUnavailable.status_code(), 503);
    assert_eq!(AcmeServerError::RateLimited.status_code(), 429);
}

#[test]
fn generic_error_codes() {
    assert_eq!(GenericError::forbidden(AcmeServerError::Unauthorized).code, 403);
    assert_eq!(GenericError::bad_request(AcmeServerError::BadCsr).code, 400);
    let d = GenericError::default_bad_request();
    assert_eq!((d.err, d.code), (AcmeServerError::MalformedRequest, 400));
    assert_eq!(GenericError::from_error(AcmeServerError::OrderNotFound).code, 404);
}

#[test]
fn serial_bytes_are_big_endian() {
    assert_eq!(be_bytes(0x0102030405060708), vec![1, 2, 3, 4, 5, 6, 7, 8]);
    assert_eq!(be_bytes(0), vec![0; 8]);
    assert_eq!(be_bytes(u64::MAX), vec![255; 8]);
}

#[test]
fn validity_is_one_year() {
    assert_eq!(
        Certificate::generate_validity_info(5),
        Some(Validity { not_before: 5, not_after: 5 + 31536000000000000 })
    );
    assert_eq!(Certificate::generate_validity_info(u64::MAX - ONE_YEAR_VALIDITY_NANOS + 1), None);
    assert!(Certificate::generate_validity_info(u64::MAX - ONE_YEAR_VALIDITY_NANOS).is_some());
}

#[test]
fn key_id_is_keccak_of_name_and_serial() {
    let key = AcmeKey::new("CN=example.com", 42).unwrap();
    let id = key.id();
    let der = x509_cert::name::Name::from_str("CN=example.com").unwrap().to_der().unwrap();
    let mut hasher = tiny_keccak::Keccak::v512();
    hasher.update(&der);
    hasher.update(&42u64.to_be_bytes());
    let mut expected = [0u8; 64];
    hasher.finalize(&mut expected);
    assert_eq!(id, expected.to_vec());
    assert_ne!(id, AcmeKey::new("CN=example.com", 43).unwrap().id());
    assert_eq!(key.serial_number(), 42);
    assert_eq!(key.domain(), "CN=example.com");
}

#[test]
fn root_and_leaf_profiles() {
    let root = AcmeKey::new(ROOT_NAME, 0).unwrap();
    assert!(root.is_root());
    assert!(matches!(Certificate::new(root).profile(), Profile::Root));
    let leaf = AcmeKey::new("CN=example.com", 3).unwrap();
    assert!(!leaf.is_root());
    match Certificate::new(leaf).profile() {
        Profile::Leaf { issuer, enable_key_agreement, enable_key_encipherment } => {
            assert_eq!(issuer, "CN=IC ENCRYPT");
            assert!(enable_key_agreement && enable_key_encipherment);
        }
        Profile::Root => panic!("leaf expected"),
    }
    assert_eq!(Certificate::root_name(), ROOT_NAME);
}

#[test]
fn root_plan() {
    let plan = Certificate::build_root(10).unwrap();
    assert_eq!(plan.serial_number, 0);
    assert_eq!(plan.subject, ROOT_NAME);
    assert!(matches!(plan.profile, Profile::Root));
    assert_eq!(plan.validity.not_before, 10);
    assert_eq!(plan.derivation_path, AcmeKey::new(ROOT_NAME, 0).unwrap().id());
}

#[test]
fn unparsable_subject_has_no_key() {
    assert!(AcmeKey::new("not a name", 1).is_none());
}

#[test]
fn sign_request_hashes_tbs() {
    let key = AcmeKey::new("CN=example.com", 5).unwrap();
    let id = key.id();
    let req = Certificate::new(key).sign_request(b"to be signed");
    assert_eq!(req.message_hash, k256::sha2::Sha256::digest(b"to be signed").to_vec());
    assert_eq!(req.derivation_path, id);
    assert_eq!(AcmeKey::hash_mesage(b"").len(), 32);
}

#[test]
fn raw_signature_to_der() {
    let sk = SigningKey::from_slice(&[5u8; 32]).unwrap();
    let sig: Signature = sk.sign(b"msg");
    let encoded = Asn1EncodedSignature::new(&sig.to_bytes()).unwrap();
    assert_eq!(encoded.der, sig.to_der().as_bytes().to_vec());
    assert!(Asn1EncodedSignature::new(&[1u8; 10]).is_none());
}

#[test]
fn key_names() {
    assert_eq!(EcdsaKeyIds::TestKeyLocalDevelopment.key_name(), "dfx_test_key");
    assert_eq!(EcdsaKeyIds::TestKey1.key_name(), "test_key_1");
    assert_eq!(EcdsaKeyIds::ProductionKey1.key_name(), "key_1");
}

#[test]
fn serials_strictly_increase() {
    let mut m = CertificateManager::new(7);
    assert_eq!(m._inc_serial_number(), Ok(7));
    assert_eq!(m._inc_serial_number(), Ok(8));
    assert_eq!(m.next_serial(), 9);
    let plan = m.generate_cert("CN=a.example", 1).unwrap();
    assert_eq!(plan.serial_number, 9);
    assert_eq!(m.next_serial(), 10);
}

#[test]
fn serial_counter_exhausted() {
    let mut m = CertificateManager::new(u64::MAX);
    assert_eq!(m._inc_serial_number(), Err(AcmeServerError::StorageFailure));
    assert_eq!(m.next_serial(), u64::MAX);
}

#[test]
fn bad_subject_spends_serial() {
    let mut m = CertificateManager::new(1);
    assert_eq!(m.generate_cert("garbage", 1).unwrap_err(), AcmeServerError::BadCsr);
    assert_eq!(m.next_serial(), 2);
}

#[test]
fn certificate_store_rules() {
    let mut m = CertificateManager::new(1);
    assert_eq!(m.store_certificate(1, 0, "pem".to_string()), Err(AcmeServerError::ValidationError));
    assert_eq!(m._inc_serial_number(), Ok(1));
    assert_eq!(m.store_certificate(1, 0, "pem-1".to_string()), Ok(()));
    assert_eq!(m.store_certificate(1, 0, "other".to_string()), Err(AcmeServerError::ValidationError));
    assert_eq!(m.fetch_certificate(1), Ok("pem-1".to_string()));
    assert_eq!(m.fetch_certificate(1), m.fetch_certificate(1));
    assert_eq!(m.fetch_certificate(2), Err(AcmeServerError::CertificateNotFound));
}

#[test]
fn thumbprint_matches_rfc7638_input() {
    let sk = SigningKey::from_slice(&[11u8; 32]).unwrap();
    let jwk = jwk_of(&sk);
    let input = format!(
        "{{\"crv\":\"secp256k1\",\"kty\":\"EC\",\"x\":\"{}\",\"y\":\"{}\"}}",
        jwk.x,
        jwk.y.as_ref().unwrap()
    );
    let expected = b64(&k256::sha2::Sha256::digest(input.as_bytes()));
    assert_eq!(jwk_thumbprint(&jwk), Some(expected));
    let no_y = JwkPublicKey { y: None, ..jwk };
    assert_eq!(jwk_thumbprint(&no_y), None);
}

#[test]
fn jwk_reconstruction_errors() {
    let sk = SigningKey::from_slice(&[11u8; 32]).unwrap();
    let jwk = jwk_of(&sk);
    assert!(Es256kPublicKey::from_jwk(&jwk).is_ok());
    let wrong_curve = JwkPublicKey { crv: "P-256".to_string(), ..jwk.clone() };
    assert_eq!(Es256kPublicKey::from_jwk(&wrong_curve).unwrap_err(), AcmeServerError::BadSignatureAlgorithm);
    let bad_x = JwkPublicKey { x: "!!".to_string(), ..jwk.clone() };
    assert_eq!(Es256kPublicKey::from_jwk(&bad_x).unwrap_err(), AcmeServerError::MalformedRequest);
    let short_x = JwkPublicKey { x: b64(&[1u8; 31]), ..jwk.clone() };
    assert_eq!(Es256kPublicKey::from_jwk(&short_x).unwrap_err(), AcmeServerError::MalformedRequest);
    let off_curve = JwkPublicKey { x: b64(&[0u8; 32]), y: Some(b64(&[0u8; 32])), ..jwk.clone() };
    assert_eq!(Es256kPublicKey::from_jwk(&off_curve).unwrap_err(), AcmeServerError::BadSignatureAlgorithm);
    let ed = JwkPublicKey { kty: "OKP".to_string(), crv: "Ed25519".to_string(), x: "AA".to_string(), y: None };
    let raw = RawJwkPublicKey::from_jwk(&ed).unwrap();
    assert!(matches!(raw, RawJwkPublicKey::Ed25519));
    assert_eq!(raw.es256k().unwrap_err(), AcmeServerError::BadSignatureAlgorithm);
}

#[test]
fn key_from_der_verifies_signatures() {
    let sk = SigningKey::from_slice(&[12u8; 32]).unwrap();
    let der = sk.verifying_key().to_public_key_der().unwrap();
    let key = Es256kPublicKey::from_public_key_der(der.as_bytes()).unwrap();
    let sig: Signature = sk.sign(b"hello");
    assert!(key.verify(b"hello", &sig.to_bytes()));
    assert!(!key.verify(b"hellO", &sig.to_bytes()));
    assert!(!key.verify(b"hello", &[0u8; 3]));
    assert_eq!(
        Es256kPublicKey::from_public_key_der(&[1, 2, 3]).unwrap_err(),
        AcmeServerError::MalformedRequest
    );
}

#[test]
fn key_authorization_text() {
    assert_eq!(key_authorization("tok", "thumb"), "tok.thumb");
}

#[test]
fn csr_subject_domains() {
    assert_eq!(subject_domain("CN=example.com"), Some("example.com".to_string()));
    assert_eq!(subject_domain("CN=a.com,O=Org"), None);
    assert_eq!(subject_domain("O=Org"), None);
    assert_eq!(subject_domain("CN="), None);
}

#[test]
fn contacts() {
    assert!(contact_ok("mailto:admin@example.com"));
    assert!(!contact_ok("mailto:"));
    assert!(!contact_ok("tel:+1"));
}

#[test]
fn new_account_rejections() {
    let sk = SigningKey::from_slice(&[13u8; 32]).unwrap();
    let jwk = jwk_of(&sk);
    let mut reg = AccountRegistry::new();
    let no_tos = NewAccountRequest { terms_of_service_agreed: false, contact: None };
    assert_eq!(reg.new_account(&jwk, no_tos, 1, None), Err(AcmeServerError::MalformedRequest));
    let bad_contact = NewAccountRequest {
        terms_of_service_agreed: true,
        contact: Some(vec!["mailto:a@b.c".to_string(), "http://x".to_string()]),
    };
    assert_eq!(reg.new_account(&jwk, bad_contact, 1, None), Err(AcmeServerError::InvalidContact));
    let good = NewAccountRequest {
        terms_of_service_agreed: true,
        contact: Some(vec!["mailto:a@b.c".to_string()]),
    };
    assert_eq!(reg.new_account(&jwk, good, 1, Some("10.0.0.1".to_string())), Ok((0, true)));
    assert_eq!(reg.account(0).unwrap().initial_ip, Some("10.0.0.1".to_string()));
    assert_eq!(reg.deactivate(3), Err(AcmeServerError::AccountDoesNotExist));
}

#[test]
fn identifiers_validation() {
    assert!(identifiers_ok(&vec![dns("a.com")]));
    assert!(!identifiers_ok(&vec![]));
    assert!(!identifiers_ok(&vec![Identifier { kind: "ip".to_string(), value: "1.2.3.4".to_string() }]));
    assert!(!identifiers_ok(&vec![dns("")]));
    let mut st = IssuanceState::new();
    assert_eq!(st.new_order(0, vec![], &vec![], None), Err(AcmeServerError::MalformedRequest));
}

#[test]
fn names_coverage() {
    let ids = vec![dns("a.com"), dns("b.com")];
    assert!(names_covered(&vec!["b.com".to_string()], &ids));
    assert!(names_covered(&vec!["a.com".to_string(), "b.com".to_string()], &ids));
    assert!(!names_covered(&vec!["c.com".to_string()], &ids));
    assert!(!names_covered(&vec![], &ids));
}

#[test]
fn order_ready_only_when_all_authorizations_valid() {
    let mut st = IssuanceState::new();
    let o = st
        .new_order(4, vec![dns("a.com"), dns("b.com")], &vec!["t1".to_string(), "t2".to_string()], Some(99))
        .unwrap();
    let order = st.order(o).unwrap();
    assert_eq!(order.expires, Some(99));
    let (a1, a2) = (order.authorizations[0], order.authorizations[1]);
    let c1 = st.authorization(a1).unwrap().challenges[0];
    let c2 = st.authorization(a2).unwrap().challenges[0];
    assert_eq!(st.challenge(c2).unwrap().token, "t2");
    assert_eq!(st.start_validation(4, c1), Ok(()));
    assert_eq!(st.complete_validation(c1, "th", Some("t1.th".to_string()), 5), Ok(ChallengeStatus::Valid));
    assert_eq!(st.authorization(a1).unwrap().status, AuthorizationStatus::Valid);
    assert_eq!(st.order(o).unwrap().status, OrderStatus::Pending);
    assert_eq!(st.start_validation(4, c2), Ok(()));
    assert_eq!(st.complete_validation(c2, "th", Some("t2.th".to_string()), 6), Ok(ChallengeStatus::Valid));
    assert_eq!(st.order(o).unwrap().status, OrderStatus::Ready);
}

#[test]
fn challenge_state_rules() {
    let mut st = IssuanceState::new();
    let o = st.new_order(1, vec![dns("a.com")], &vec!["t".to_string()], None).unwrap();
    let a = st.order(o).unwrap().authorizations[0];
    let c = st.authorization(a).unwrap().challenges[0];
    assert_eq!(st.start_validation(2, c), Err(AcmeServerError::UnauthorizedForOrder));
    assert_eq!(st.complete_validation(c, "th", Some("t.th".to_string()), 1), Err(AcmeServerError::InvalidChallenge));
    assert_eq!(st.start_validation(1, c), Ok(()));
    assert_eq!(st.start_validation(1, c), Err(AcmeServerError::InvalidChallenge));
    assert_eq!(st.start_validation(1, c + 10), Err(AcmeServerError::InvalidChallenge));
    assert_eq!(st.complete_issuance(o, 3), Err(AcmeServerError::ValidationError));
    assert_eq!(st.fail_issuance(o + 1), Err(AcmeServerError::OrderNotFound));
    assert_eq!(st.finalize(2, o, &vec!["a.com".to_string()]), Err(AcmeServerError::UnauthorizedForOrder));
}

#[test]
fn orders_expire_lazily() {
    let mut st = IssuanceState::new();
    let o = st.new_order(1, vec![dns("a.com")], &vec!["t".to_string()], Some(100)).unwrap();
    assert!(!st.expire_order(o, 99));
    assert_eq!(st.order(o).unwrap().status, OrderStatus::Pending);
    assert!(st.expire_order(o, 100));
    assert_eq!(st.order(o).unwrap().status, OrderStatus::Invalid);
    assert!(!st.expire_order(o, 200));
    let never = st.new_order(1, vec![dns("b.com")], &vec!["u".to_string()], None).unwrap();
    assert!(!st.expire_order(never, u64::MAX));
}

#[test]
fn challenge_paths() {
    let p = acme_ic::types::HttpChallengePath::new("example.com", "tok", "th");
    assert_eq!(p.file_path, "/.well-known/acme-challenge/tok");
    assert_eq!(p.validation_url, "http://example.com/.well-known/acme-challenge/tok");
    assert_eq!(p.key_authorization, "tok.th");
    let k = acme_ic::types::KeyAuthorizationComputed::new("tok", "th");
    assert_eq!((k.token.as_str(), k.thumbprint.as_str(), k.key_authorization.as_str()), ("tok", "th", "tok.th"));
    let h = acme_ic::handler::HandleOutcome::created(5u8);
    assert_eq!((h.data, h.status_code), (5, 201));
}

#[test]
fn contact_updates() {
    let sk = SigningKey::from_slice(&[14u8; 32]).unwrap();
    let mut reg = AccountRegistry::new();
    let req = NewAccountRequest { terms_of_service_agreed: true, contact: None };
    assert_eq!(reg.new_account(&jwk_of(&sk), req, 1, None), Ok((0, true)));
    assert_eq!(reg.update_contact(0, Some(vec!["tel:1".to_string()])), Err(AcmeServerError::InvalidContact));
    assert_eq!(reg.update_contact(0, Some(vec!["mailto:x@y.z".to_string()])), Ok(()));
    assert_eq!(reg.account(0).unwrap().contact, Some(vec!["mailto:x@y.z".to_string()]));
    assert_eq!(reg.update_contact(1, None), Err(AcmeServerError::AccountDoesNotExist));
    assert_eq!(reg.deactivate(0), Ok(()));
    assert_eq!(reg.update_contact(0, None), Err(AcmeServerError::Unauthorized));
}

#[test]
fn fresh_nonce_rule() {
    assert!(acme_ic::handler::replay_nonce_due(None));
    assert!(acme_ic::handler::replay_nonce_due(Some(AcmeServerError::BadCsr)));
    assert!(!acme_ic::handler::replay_nonce_due(Some(AcmeServerError::BadNonce)));
}
