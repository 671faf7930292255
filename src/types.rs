//! The data model shared by the endpoints: identifiers, problem documents,
//! statuses of the protocol's entities and the request / response bodies.
use vstd::prelude::*;

verus! {

/// A name that a certificate is requested for (`type` is `dns`).
#[derive(Debug, Clone)]
pub struct Identifier {
    pub kind: String,
    pub value: String,
}

/// A problem document: `{type, title, detail, status, instance?}`.
#[derive(Debug, Clone)]
pub struct Error {
    pub kind: String,
    pub title: String,
    pub detail: String,
    pub status: u16,
    pub instance: Option<String>,
}

#[derive(Debug, Clone)]
pub struct DirectoryMeta {
    pub terms_of_service: Option<String>,
    pub website: Option<String>,
    pub caa_identities: Option<Vec<String>>,
    pub external_account_required: Option<bool>,
}

#[derive(Debug, Clone)]
pub struct Directory {
    pub new_nonce: String,
    pub new_account: String,
    pub new_order: String,
    pub revoke_cert: String,
    pub key_change: String,
    pub meta: Option<DirectoryMeta>,
}

/// A public key in JWK form; `y` is present for elliptic-curve keys.
#[derive(Debug, Clone)]
pub struct JwkPublicKey {
    pub kty: String,
    pub crv: String,
    pub x: String,
    pub y: Option<String>,
}

/// The body of a new-account request.
#[derive(Debug, Clone)]
pub struct NewAccountRequest {
    pub terms_of_service_agreed: bool,
    pub contact: Option<Vec<String>>,
}

/// The body of a new-order request.
#[derive(Debug, Clone)]
pub struct NewOrderRequest {
    pub identifiers: Vec<Identifier>,
    pub not_before: Option<String>,
    pub not_after: Option<String>,
}

/// The body of a finalize request: a base64url-encoded DER CSR.
#[derive(Debug, Clone)]
pub struct FinalizeRequest {
    pub csr: String,
}

#[derive(Debug, Clone)]
pub struct RevocationRequest {
    pub certificate: String,
    pub reason: Option<u8>,
}

/// The parts of a computed key authorization.
#[derive(Debug, Clone)]
pub struct KeyAuthorizationComputed {
    pub token: String,
    pub thumbprint: String,
    pub key_authorization: String,
}

#[derive(Debug, Clone)]
pub struct HttpChallengePath {
    pub domain: String,
    pub token: String,
    pub key_authorization: String,
    pub file_path: String,
    pub validation_url: String,
}

#[derive(Debug, Clone)]
pub struct ClientConfig {
    pub server_url: String,
    pub email: Option<String>,
    pub webroot_path: Option<String>,
    pub domains: Vec<String>,
    pub cert_path: String,
    pub key_path: String,
    pub account_key_path: String,
    pub agree_tos: bool,
    pub verbose: bool,
}

#[derive(Debug, Clone)]
pub struct ClientState {
    pub directory: Directory,
    pub account_url: Option<String>,
    pub current_nonce: Option<String>,
}

/// An issued certificate as a client keeps it.
#[derive(Debug, Clone)]
pub struct Certificate {
    pub domains: Vec<String>,
    pub not_before: String,
    pub not_after: String,
    pub pem: String,
    pub der: String,
    pub issued_at: String,
}

#[derive(Debug, Clone)]
pub struct RateLimit {
    pub requests_per_minute: u32,
    pub accounts_per_hour: u32,
    pub challenges_per_hour: u32,
    pub certificates_per_week: u32,
}

#[derive(Debug, Clone)]
pub struct ServerConfig {
    pub port: u16,
    pub hostname: String,
    pub ca_key_path: String,
    pub ca_cert_path: String,
    pub data_dir: String,
    pub challenge_timeout: u64,
    pub challenge_attempts: u8,
    pub cert_validity_days: u32,
    pub rate_limit: RateLimit,
}

#[derive(Debug, Clone)]
pub struct StoredAccount {
    pub id: String,
    pub public_key: JwkPublicKey,
    pub contact: Vec<String>,
    pub status: String,
    pub created_at: String,
    pub initial_ip: String,
    pub last_seen_ip: String,
    pub last_seen_at: String,
}

#[derive(Debug, Clone)]
pub struct CsrInfo {
    pub common_name: String,
    pub organization: Option<String>,
    pub organization_unit: Option<String>,
    pub country: Option<String>,
    pub state: Option<String>,
    pub locality: Option<String>,
    pub domains: Vec<String>,
}

#[derive(Debug, Clone)]
pub struct NonceResponse {
    pub nonce: String,
}

#[derive(Debug, Clone)]
pub struct EmptyRequest {}

#[derive(Debug, Clone)]
pub struct EmptyResponse {}

/// Failures that an endpoint reports to its caller.
#[derive(Debug, Clone, Copy, PartialEq, Eq, Structural)]
pub enum AcmeServerError {
    BadNonce,
    BadCsr,
    BadSignatureAlgorithm,
    AccountDoesNotExist,
    UnauthorizedForOrder,
    InvalidChallenge,
    DatabaseError,
    ValidationError,
    CertificateNotFound,
    OrderNotFound,
    RateLimited,
    InvalidContact,
    MalformedRequest,
    Unauthorized,
    SigningUnavailable,
    StorageFailure,
}

impl Identifier {
    /// A field-by-field copy.
    pub fn duplicate(&self) -> (r: Identifier)
        ensures
            r == *self,
    {
        Identifier { kind: self.kind.clone(), value: self.value.clone() }
    }
}

/// The text of a JWK's members.
pub ghost struct JwkView {
    pub kty: Seq<char>,
    pub crv: Seq<char>,
    pub x: Seq<char>,
    pub y: Option<Seq<char>>,
}

impl JwkPublicKey {
    pub open spec fn view(self) -> JwkView {
        JwkView {
            kty: self.kty@,
            crv: self.crv@,
            x: self.x@,
            y: match self.y {
                Some(y) => Some(y@),
                None => None,
            },
        }
    }

    /// A field-by-field copy.
    pub fn duplicate(&self) -> (r: JwkPublicKey)
        ensures
            r == *self,
    {
        JwkPublicKey {
            kty: self.kty.clone(),
            crv: self.crv.clone(),
            x: self.x.clone(),
            y: match &self.y {
                Some(y) => Some(y.clone()),
                None => None,
            },
        }
    }
}

/// The life cycle of an account.
#[derive(Debug, Clone, Copy, PartialEq, Eq, Structural)]
pub enum AccountStatus {
    Pending,
    Valid,
    Deactivated,
}

/// The life cycle of an order.
#[derive(Debug, Clone, Copy, PartialEq, Eq, Structural)]
pub enum OrderStatus {
    Pending,
    Ready,
    Processing,
    Valid,
    Invalid,
}

/// The life cycle of an authorization.
#[derive(Debug, Clone, Copy, PartialEq, Eq, Structural)]
pub enum AuthorizationStatus {
    Pending,
    Valid,
    Invalid,
    Expired,
}

/// The life cycle of a challenge.
#[derive(Debug, Clone, Copy, PartialEq, Eq, Structural)]
pub enum ChallengeStatus {
    Pending,
    Processing,
    Valid,
    Invalid,
}

impl AccountStatus {
    pub fn as_str(&self) -> (r: &'static str)
        ensures
            r@ == (match *self {
                AccountStatus::Pending => "pending"@,
                AccountStatus::Valid => "valid"@,
                AccountStatus::Deactivated => "deactivated"@,
            }),
    {
        match self {
            AccountStatus::Pending => "pending",
            AccountStatus::Valid => "valid",
            AccountStatus::Deactivated => "deactivated",
        }
    }
}

impl OrderStatus {
    pub fn as_str(&self) -> (r: &'static str)
        ensures
            r@ == (match *self {
                OrderStatus::Pending => "pending"@,
                OrderStatus::Ready => "ready"@,
                OrderStatus::Processing => "processing"@,
                OrderStatus::Valid => "valid"@,
                OrderStatus::Invalid => "invalid"@,
            }),
    {
        match self {
            OrderStatus::Pending => "pending",
            OrderStatus::Ready => "ready",
            OrderStatus::Processing => "processing",
            OrderStatus::Valid => "valid",
            OrderStatus::Invalid => "invalid",
        }
    }
}

impl AuthorizationStatus {
    pub fn as_str(&self) -> (r: &'static str)
        ensures
            r@ == (match *self {
                AuthorizationStatus::Pending => "pending"@,
                AuthorizationStatus::Valid => "valid"@,
                AuthorizationStatus::Invalid => "invalid"@,
                AuthorizationStatus::Expired => "expired"@,
            }),
    {
        match self {
            AuthorizationStatus::Pending => "pending",
            AuthorizationStatus::Valid => "valid",
            AuthorizationStatus::Invalid => "invalid",
            AuthorizationStatus::Expired => "expired",
        }
    }
}

impl ChallengeStatus {
    pub fn as_str(&self) -> (r: &'static str)
        ensures
            r@ == (match *self {
                ChallengeStatus::Pending => "pending"@,
                ChallengeStatus::Processing => "processing"@,
                ChallengeStatus::Valid => "valid"@,
                ChallengeStatus::Invalid => "invalid"@,
            }),
    {
        match self {
            ChallengeStatus::Pending => "pending",
            ChallengeStatus::Processing => "processing",
            ChallengeStatus::Valid => "valid",
            ChallengeStatus::Invalid => "invalid",
        }
    }
}

/// An account, keyed by the thumbprint of its public key.
#[derive(Debug, Clone)]
pub struct Account {
    pub thumbprint: String,
    pub key: JwkPublicKey,
    pub status: AccountStatus,
    pub contact: Option<Vec<String>>,
    pub terms_of_service_agreed: bool,
    pub created_at: u64,
    pub initial_ip: Option<String>,
}

/// A challenge: proof of control of an identifier, by the `http-01` method.
#[derive(Debug, Clone)]
pub struct Challenge {
    pub authorization: usize,
    pub kind: String,
    pub token: String,
    pub status: ChallengeStatus,
    pub validated: Option<u64>,
    pub error: Option<Error>,
}

/// The authorization of one identifier of an order.
#[derive(Debug, Clone)]
pub struct Authorization {
    pub order: usize,
    pub status: AuthorizationStatus,
    pub identifier: Identifier,
    pub challenges: Vec<usize>,
    pub wildcard: Option<bool>,
}

/// A request for a certificate, owned by one account.
#[derive(Debug, Clone)]
pub struct Order {
    pub account: usize,
    pub status: OrderStatus,
    pub expires: Option<u64>,
    pub identifiers: Vec<Identifier>,
    pub authorizations: Vec<usize>,
    pub certificate: Option<u64>,
}

} // verus!
