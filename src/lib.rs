//! An ACME certificate authority engine: single-use nonces, signed-envelope
//! authentication, the account registry, the order / authorization /
//! challenge state machine, and the certificate issuer's serial numbers,
//! signing identities and certificate plans.

pub mod types;
pub mod handler;
pub mod digest;
pub mod nonce;
pub mod es256k;
pub mod jws;
pub mod account;
pub mod issuance;
pub mod csr;
pub mod key;
pub mod cert_manager;
pub mod server;
