//! Request-level vocabulary: HTTP methods and error codes handed back to the
//! dispatch layer.
use vstd::prelude::*;
use crate::types::{AcmeServerError, Error};

verus! {

/// The HTTP methods that ACME endpoints answer to.
#[derive(Debug, Clone, Copy, PartialEq, Eq, Structural)]
pub enum Method {
    GET,
    POST,
}

/// The text form of a method.
pub open spec fn method_text(m: Method) -> Seq<char> {
    match m {
        Method::GET => "GET"@,
        Method::POST => "POST"@,
    }
}

impl Method {
    pub fn as_str(&self) -> (r: &'static str)
        ensures
            r@ == method_text(*self),
    {
        match self {
            Method::GET => "GET",
            Method::POST => "POST",
        }
    }

    /// Parses a method name; only `GET` and `POST` are understood, others
    /// give `MalformedRequest`.
    pub fn from_str(s: &str) -> (r: Result<Method, AcmeServerError>)
        ensures
            r == (if s@ == "GET"@ {
                Ok(Method::GET)
            } else if s@ == "POST"@ {
                Ok(Method::POST)
            } else {
                Err::<Method, AcmeServerError>(AcmeServerError::MalformedRequest)
            }),
    {
        if str_eq(s, "GET") {
            Ok(Method::GET)
        } else if str_eq(s, "POST") {
            Ok(Method::POST)
        } else {
            Err(AcmeServerError::MalformedRequest)
        }
    }
}

/// Character-wise equality of two string slices.
pub fn str_eq(a: &str, b: &str) -> (r: bool)
    ensures
        r == (a@ == b@),
{
    let x = a.to_owned();
    let y = b.to_owned();
    x == y
}

/// The problem type URN of an error.
pub open spec fn problem_type_spec(e: AcmeServerError) -> Seq<char> {
    match e {
        AcmeServerError::BadNonce => "urn:ietf:params:acme:error:badNonce"@,
        AcmeServerError::BadCsr => "urn:ietf:params:acme:error:badCSR"@,
        AcmeServerError::BadSignatureAlgorithm => "urn:ietf:params:acme:error:badSignatureAlgorithm"@,
        AcmeServerError::AccountDoesNotExist => "urn:ietf:params:acme:error:accountDoesNotExist"@,
        AcmeServerError::UnauthorizedForOrder => "urn:ietf:params:acme:error:unauthorized"@,
        AcmeServerError::InvalidChallenge => "urn:ietf:params:acme:error:incorrectResponse"@,
        AcmeServerError::DatabaseError => "urn:ietf:params:acme:error:serverInternal"@,
        AcmeServerError::ValidationError => "urn:ietf:params:acme:error:orderNotReady"@,
        AcmeServerError::CertificateNotFound => "urn:ietf:params:acme:error:malformed"@,
        AcmeServerError::OrderNotFound => "urn:ietf:params:acme:error:malformed"@,
        AcmeServerError::RateLimited => "urn:ietf:params:acme:error:rateLimited"@,
        AcmeServerError::InvalidContact => "urn:ietf:params:acme:error:invalidContact"@,
        AcmeServerError::MalformedRequest => "urn:ietf:params:acme:error:malformed"@,
        AcmeServerError::Unauthorized => "urn:ietf:params:acme:error:unauthorized"@,
        AcmeServerError::SigningUnavailable => "urn:ietf:params:acme:error:serverInternal"@,
        AcmeServerError::StorageFailure => "urn:ietf:params:acme:error:serverInternal"@,
    }
}

/// The HTTP status code that reports an error.
pub open spec fn status_code_spec(e: AcmeServerError) -> u16 {
    match e {
        AcmeServerError::BadNonce => 400,
        AcmeServerError::BadCsr => 400,
        AcmeServerError::BadSignatureAlgorithm => 400,
        AcmeServerError::AccountDoesNotExist => 400,
        AcmeServerError::UnauthorizedForOrder => 403,
        AcmeServerError::InvalidChallenge => 403,
        AcmeServerError::DatabaseError => 500,
        AcmeServerError::ValidationError => 403,
        AcmeServerError::CertificateNotFound => 404,
        AcmeServerError::OrderNotFound => 404,
        AcmeServerError::RateLimited => 429,
        AcmeServerError::InvalidContact => 400,
        AcmeServerError::MalformedRequest => 400,
        AcmeServerError::Unauthorized => 403,
        AcmeServerError::SigningUnavailable => 503,
        AcmeServerError::StorageFailure => 500,
    }
}

impl AcmeServerError {
    pub fn problem_type(&self) -> (r: &'static str)
        ensures
            r@ == problem_type_spec(*self),
    {
        match self {
            AcmeServerError::BadNonce => "urn:ietf:params:acme:error:badNonce",
            AcmeServerError::BadCsr => "urn:ietf:params:acme:error:badCSR",
            AcmeServerError::BadSignatureAlgorithm => "urn:ietf:params:acme:error:badSignatureAlgorithm",
            AcmeServerError::AccountDoesNotExist => "urn:ietf:params:acme:error:accountDoesNotExist",
            AcmeServerError::UnauthorizedForOrder => "urn:ietf:params:acme:error:unauthorized",
            AcmeServerError::InvalidChallenge => "urn:ietf:params:acme:error:incorrectResponse",
            AcmeServerError::DatabaseError => "urn:ietf:params:acme:error:serverInternal",
            AcmeServerError::ValidationError => "urn:ietf:params:acme:error:orderNotReady",
            AcmeServerError::CertificateNotFound => "urn:ietf:params:acme:error:malformed",
            AcmeServerError::OrderNotFound => "urn:ietf:params:acme:error:malformed",
            AcmeServerError::RateLimited => "urn:ietf:params:acme:error:rateLimited",
            AcmeServerError::InvalidContact => "urn:ietf:params:acme:error:invalidContact",
            AcmeServerError::MalformedRequest => "urn:ietf:params:acme:error:malformed",
            AcmeServerError::Unauthorized => "urn:ietf:params:acme:error:unauthorized",
            AcmeServerError::SigningUnavailable => "urn:ietf:params:acme:error:serverInternal",
            AcmeServerError::StorageFailure => "urn:ietf:params:acme:error:serverInternal",
        }
    }

    pub fn status_code(&self) -> (r: u16)
        ensures
            r == status_code_spec(*self),
    {
        match self {
            AcmeServerError::BadNonce => 400,
            AcmeServerError::BadCsr => 400,
            AcmeServerError::BadSignatureAlgorithm => 400,
            AcmeServerError::AccountDoesNotExist => 400,
            AcmeServerError::UnauthorizedForOrder => 403,
            AcmeServerError::InvalidChallenge => 403,
            AcmeServerError::DatabaseError => 500,
            AcmeServerError::ValidationError => 403,
            AcmeServerError::CertificateNotFound => 404,
            AcmeServerError::OrderNotFound => 404,
            AcmeServerError::RateLimited => 429,
            AcmeServerError::InvalidContact => 400,
            AcmeServerError::MalformedRequest => 400,
            AcmeServerError::Unauthorized => 403,
            AcmeServerError::SigningUnavailable => 503,
            AcmeServerError::StorageFailure => 500,
        }
    }

    /// The problem document that reports this error, with `detail` as its
    /// explanation.
    pub fn problem(&self, detail: &str) -> (r: Error)
        ensures
            r.kind@ == problem_type_spec(*self),
            r.title@ == problem_type_spec(*self),
            r.detail@ == detail@,
            r.status == status_code_spec(*self),
            r.instance is None,
    {
        Error {
            kind: self.problem_type().to_owned(),
            title: self.problem_type().to_owned(),
            detail: detail.to_owned(),
            status: self.status_code(),
            instance: None,
        }
    }
}

/// Whether a reply to a protocol-mutating request carries a fresh nonce:
/// always, whatever the outcome, except where the request's own nonce was
/// refused (`err` is the request's error, if it failed).
pub fn replay_nonce_due(err: Option<AcmeServerError>) -> (r: bool)
    ensures
        r == (err != Some(AcmeServerError::BadNonce)),
{
    match err {
        Some(AcmeServerError::BadNonce) => false,
        _ => true,
    }
}

/// An error as the dispatch layer reports it: a problem and its HTTP
/// status code.
#[derive(Debug, Clone)]
pub struct GenericError {
    pub err: AcmeServerError,
    pub code: u16,
}

impl GenericError {
    pub fn forbidden(err: AcmeServerError) -> (r: GenericError)
        ensures
            r.err == err && r.code == 403,
    {
        GenericError { err, code: 403 }
    }

    pub fn bad_request(err: AcmeServerError) -> (r: GenericError)
        ensures
            r.err == err && r.code == 400,
    {
        GenericError { err, code: 400 }
    }

    /// The request body could not be read.
    pub fn default_bad_request() -> (r: GenericError)
        ensures
            r.err == AcmeServerError::MalformedRequest && r.code == 400,
    {
        Self::bad_request(AcmeServerError::MalformedRequest)
    }

    /// Reports an error under its own status code.
    pub fn from_error(err: AcmeServerError) -> (r: GenericError)
        ensures
            r.err == err && r.code == status_code_spec(err),
    {
        GenericError { err, code: err.status_code() }
    }
}

/// What an endpoint hands back on success: a body and its status code.
#[derive(Debug, Clone)]
pub struct HandleOutcome<Data> {
    pub data: Data,
    pub status_code: u16,
}

impl<Data> HandleOutcome<Data> {
    /// A `200 OK` outcome.
    pub fn ok(data: Data) -> (r: HandleOutcome<Data>)
        ensures
            r.data == data && r.status_code == 200,
    {
        HandleOutcome { data, status_code: 200 }
    }

    /// A `201 Created` outcome.
    pub fn created(data: Data) -> (r: HandleOutcome<Data>)
        ensures
            r.data == data && r.status_code == 201,
    {
        HandleOutcome { data, status_code: 201 }
    }
}

} // verus!
