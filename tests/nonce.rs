use acme_ic::nonce::NonceService;
use acme_ic::types::AcmeServerError;

#[test]
fn nonce_consumed_once() {
    let mut nonces = NonceService::new();
    assert!(nonces.issue("abc".to_string(), 10));
    assert_eq!(nonces.consume("abc", 11), Ok(()));
    assert_eq!(nonces.consume("abc", 12), Err(AcmeServerError::BadNonce));
}

#[test]
fn nonce_unknown_is_refused() {
    let mut nonces = NonceService::new();
    assert_eq!(nonces.consume("never", 1), Err(AcmeServerError::BadNonce));
}

#[test]
fn nonce_expires() {
    let mut nonces = NonceService::new();
    assert!(nonces.issue("n1".to_string(), 0));
    assert_eq!(
        nonces.consume("n1", acme_ic::nonce::NONCE_LIFETIME_NANOS),
        Err(AcmeServerError::BadNonce)
    );
}

#[test]
fn nonce_reissue_refused() {
    let mut nonces = NonceService::new();
    assert!(nonces.issue("n2".to_string(), 0));
    assert!(!nonces.issue("n2".to_string(), 5));
    assert_eq!(nonces.consume("n2", 5), Ok(()));
    assert!(!nonces.issue("n2".to_string(), 6));
    assert_eq!(nonces.consume("n2", 6), Err(AcmeServerError::BadNonce));
}
