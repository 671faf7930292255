//! Signed-envelope (JWS) authentication: decoding, header parsing, key
//! resolution, nonce consumption and the signature check.
use vstd::prelude::*;
use vstd::string::StringExecFns;
use crate::account::AccountRegistry;
use crate::digest::{b64url_bytes_of, b64url_decode};
use crate::es256k::{Es256kPublicKey, es256k_signature_ok, jwk_sec1};
use crate::handler::str_eq;
use crate::nonce::{NonceService, consume_outcome};
use crate::types::{AccountStatus, AcmeServerError, JwkPublicKey, JwkView};

verus! {

/// The string member `key` of the JSON object in `doc`; `None` where `doc`
/// is no JSON object or the member is missing or no string.
pub uninterp spec fn json_str_at(doc: Seq<u8>, key: Seq<char>) -> Option<Seq<char>>;

/// The JSON text of member `key` of the JSON object in `doc`; `None` where
/// `doc` is no JSON object or the member is missing.
pub uninterp spec fn json_member_at(doc: Seq<u8>, key: Seq<char>) -> Option<Seq<u8>>;

/// Relies on serde_json's `from_slice` into a `Value`, `Value::get` and
/// `Value::as_str`.
#[verifier::external_body]
fn json_str_member(doc: &[u8], key: &str) -> (r: Option<String>)
    ensures
        match r {
            Some(s) => json_str_at(doc@, key@) == Some(s@),
            None => json_str_at(doc@, key@) is None,
        },
{
    let v: serde_json::Value = serde_json::from_slice(doc).ok()?;
    v.get(key)?.as_str().map(str::to_owned)
}

/// Relies on serde_json's `from_slice` into a `Value`, `Value::get` and
/// `to_vec`.
#[verifier::external_body]
fn json_member(doc: &[u8], key: &str) -> (r: Option<Vec<u8>>)
    ensures
        match r {
            Some(m) => json_member_at(doc@, key@) == Some(m@),
            None => json_member_at(doc@, key@) is None,
        },
{
    let v: serde_json::Value = serde_json::from_slice(doc).ok()?;
    serde_json::to_vec(v.get(key)?).ok()
}

/// A signed envelope: three base64url strings.
#[derive(Debug, Clone)]
pub struct GeneralRequest {
    pub protected: String,
    pub payload: String,
    pub signature: String,
}

/// The protected header of a signed envelope. Exactly one of `kid` (an
/// account, named by its key thumbprint) and `jwk` (a new key) is present.
#[derive(Debug)]
pub struct JwkHeader {
    pub alg: String,
    pub url: String,
    pub nonce: String,
    pub kid: Option<String>,
    pub jwk: Option<JwkPublicKey>,
}

pub ghost struct HeaderView {
    pub alg: Seq<char>,
    pub url: Seq<char>,
    pub nonce: Seq<char>,
    pub kid: Option<Seq<char>>,
    pub jwk: Option<JwkView>,
}

impl JwkHeader {
    pub open spec fn view(self) -> HeaderView {
        HeaderView {
            alg: self.alg@,
            url: self.url@,
            nonce: self.nonce@,
            kid: match self.kid {
                Some(k) => Some(k@),
                None => None,
            },
            jwk: match self.jwk {
                Some(j) => Some(j.view()),
                None => None,
            },
        }
    }
}

/// The JWK given as the JSON text `m`: `kty`, `crv` and `x` are required
/// strings, `y` an optional one.
pub open spec fn jwk_json_spec(m: Seq<u8>) -> Option<JwkView> {
    let kty = json_str_at(m, "kty"@);
    let crv = json_str_at(m, "crv"@);
    let x = json_str_at(m, "x"@);
    if kty is Some && crv is Some && x is Some {
        Some(JwkView { kty: kty->Some_0, crv: crv->Some_0, x: x->Some_0, y: json_str_at(m, "y"@) })
    } else {
        None
    }
}

/// The header given as the JSON text `doc`: `alg`, `url` and `nonce` are
/// required strings, and exactly one of `kid` (a string) and `jwk` (a JWK)
/// is present.
pub open spec fn header_spec(doc: Seq<u8>) -> Option<HeaderView> {
    let alg = json_str_at(doc, "alg"@);
    let url = json_str_at(doc, "url"@);
    let nonce = json_str_at(doc, "nonce"@);
    let kid = json_str_at(doc, "kid"@);
    let jwk = match json_member_at(doc, "jwk"@) {
        Some(m) => Some(jwk_json_spec(m)),
        None => None,
    };
    if alg is None || url is None || nonce is None {
        None
    } else if kid is Some == jwk is Some {
        None
    } else if jwk matches Some(j) && j is None {
        None
    } else {
        Some(HeaderView {
            alg: alg->Some_0,
            url: url->Some_0,
            nonce: nonce->Some_0,
            kid,
            jwk: match jwk {
                Some(j) => j,
                None => None,
            },
        })
    }
}

fn parse_jwk(m: &[u8]) -> (r: Option<JwkPublicKey>)
    ensures
        match jwk_json_spec(m@) {
            Some(v) => r matches Some(j) && j.view() == v,
            None => r is None,
        },
{
    let kty = json_str_member(m, "kty");
    let crv = json_str_member(m, "crv");
    let x = json_str_member(m, "x");
    let y = json_str_member(m, "y");
    match (kty, crv, x) {
        (Some(kty), Some(crv), Some(x)) => Some(JwkPublicKey { kty, crv, x, y }),
        _ => None,
    }
}

impl GeneralRequest {
    /// Parses the protected header from its decoded JSON bytes; a header
    /// that `header_spec` refuses gives `MalformedRequest`.
    pub fn parse_header(doc: &[u8]) -> (r: Result<JwkHeader, AcmeServerError>)
        ensures
            match header_spec(doc@) {
                Some(h) => r matches Ok(hd) && hd.view() == h,
                None => r == Err::<JwkHeader, AcmeServerError>(AcmeServerError::MalformedRequest),
            },
    {
        let alg = json_str_member(doc, "alg");
        let url = json_str_member(doc, "url");
        let nonce = json_str_member(doc, "nonce");
        let kid = json_str_member(doc, "kid");
        let jwk_text = json_member(doc, "jwk");
        let (alg, url, nonce) = match (alg, url, nonce) {
            (Some(a), Some(u), Some(n)) => (a, u, n),
            _ => return Err(AcmeServerError::MalformedRequest),
        };
        if kid.is_some() == jwk_text.is_some() {
            return Err(AcmeServerError::MalformedRequest);
        }
        let jwk = match jwk_text {
            Some(m) => match parse_jwk(m.as_slice()) {
                Some(j) => Some(j),
                None => return Err(AcmeServerError::MalformedRequest),
            },
            None => None,
        };
        Ok(JwkHeader { alg, url, nonce, kid, jwk })
    }

    /// Decodes and parses the protected header; `MalformedRequest` where
    /// it is no base64url or no acceptable header.
    pub fn jwk_header(&self) -> (r: Result<JwkHeader, AcmeServerError>)
        ensures
            match b64url_bytes_of(self.protected@) {
                Some(doc) => match header_spec(doc) {
                    Some(h) => r matches Ok(hd) && hd.view() == h,
                    None => r == Err::<JwkHeader, AcmeServerError>(AcmeServerError::MalformedRequest),
                },
                None => r == Err::<JwkHeader, AcmeServerError>(AcmeServerError::MalformedRequest),
            },
    {
        match b64url_decode(self.protected.as_str()) {
            Some(doc) => Self::parse_header(doc.as_slice()),
            None => Err(AcmeServerError::MalformedRequest),
        }
    }

    /// The decoded payload bytes; `MalformedRequest` where they are no
    /// base64url.
    pub fn payload(&self) -> (r: Result<Vec<u8>, AcmeServerError>)
        ensures
            match b64url_bytes_of(self.payload@) {
                Some(p) => r matches Ok(v) && v@ == p,
                None => r == Err::<Vec<u8>, AcmeServerError>(AcmeServerError::MalformedRequest),
            },
    {
        match b64url_decode(self.payload.as_str()) {
            Some(p) => Ok(p),
            None => Err(AcmeServerError::MalformedRequest),
        }
    }

    /// The decoded signature bytes; `MalformedRequest` where they are no
    /// base64url.
    pub fn raw_signature(&self) -> (r: Result<Vec<u8>, AcmeServerError>)
        ensures
            match b64url_bytes_of(self.signature@) {
                Some(p) => r matches Ok(v) && v@ == p,
                None => r == Err::<Vec<u8>, AcmeServerError>(AcmeServerError::MalformedRequest),
            },
    {
        match b64url_decode(self.signature.as_str()) {
            Some(p) => Ok(p),
            None => Err(AcmeServerError::MalformedRequest),
        }
    }

    /// The bytes that the signature covers: `protected || "." || payload`,
    /// the base64url texts as sent.
    pub fn signing_input(&self) -> (r: Vec<u8>)
        ensures
            r@ == signing_input_spec(*self),
    {
        let mut s = self.protected.clone();
        s.append(".");
        s.append(self.payload.as_str());
        let b = s.as_str().as_bytes();
        let mut v: Vec<u8> = Vec::new();
        let mut i: usize = 0;
        while i < b.len()
            invariant
                i <= b@.len(),
                v@ == b@.subrange(0, i as int),
            decreases b@.len() - i,
        {
            v.push(b[i]);
            i = i + 1;
            assert(v@ =~= b@.subrange(0, i as int));
        }
        assert(v@ =~= b@);
        v
    }
}

pub open spec fn signing_input_spec(req: GeneralRequest) -> Seq<u8> {
    vstd::utf8::encode_utf8(req.protected@ + "."@ + req.payload@)
}

/// What the key of a header resolves to: its SEC1 point, the account it
/// belongs to (for `kid`) and its JWK. A `kid` must name a registered
/// (`AccountDoesNotExist`), valid (`Unauthorized`) account; the key must be
/// an ES256K key (`jwk_sec1`).
pub open spec fn resolve_spec(accounts: AccountRegistry, h: HeaderView) -> Result<
    (Seq<u8>, Option<int>, JwkView),
    AcmeServerError,
> {
    match h.kid {
        Some(k) => if !accounts.registered(k) {
            Err(AcmeServerError::AccountDoesNotExist)
        } else {
            let i = choose|i: int|
                0 <= i < accounts.accounts().len() && #[trigger] accounts.accounts()[i].thumbprint@ == k;
            if !(accounts.accounts()[i].status is Valid) {
                Err(AcmeServerError::Unauthorized)
            } else {
                match jwk_sec1(accounts.accounts()[i].key.view()) {
                    Ok(sec1) => Ok((sec1, Some(i), accounts.accounts()[i].key.view())),
                    Err(e) => Err(e),
                }
            }
        },
        None => match jwk_sec1(h.jwk->Some_0) {
            Ok(sec1) => Ok((sec1, None, h.jwk->Some_0)),
            Err(e) => Err(e),
        },
    }
}

/// The outcome of an authenticated request.
#[derive(Debug)]
pub struct Authenticated {
    pub account: Option<usize>,
    pub jwk: JwkPublicKey,
    pub url: String,
    pub payload: Vec<u8>,
}

pub ghost struct AuthenticatedView {
    pub account: Option<int>,
    pub jwk: JwkView,
    pub url: Seq<char>,
    pub payload: Seq<u8>,
}

impl Authenticated {
    pub open spec fn view(self) -> AuthenticatedView {
        AuthenticatedView {
            account: match self.account {
                Some(a) => Some(a as int),
                None => None,
            },
            jwk: self.jwk.view(),
            url: self.url@,
            payload: self.payload@,
        }
    }
}

/// What authenticating `req` at time `now` answers, with the nonces as
/// they were before: each step in turn, the first failure deciding.
pub open spec fn authenticate_spec(
    nonces: NonceService,
    accounts: AccountRegistry,
    req: GeneralRequest,
    now: u64,
) -> Result<AuthenticatedView, AcmeServerError> {
    let doc = b64url_bytes_of(req.protected@);
    let payload = b64url_bytes_of(req.payload@);
    let sig = b64url_bytes_of(req.signature@);
    if doc is None || payload is None || sig is None {
        Err(AcmeServerError::MalformedRequest)
    } else {
        match header_spec(doc->Some_0) {
            None => Err(AcmeServerError::MalformedRequest),
            Some(h) => if !nonces.outstanding(h.nonce, now) {
                Err(AcmeServerError::BadNonce)
            } else if h.alg != "ES256K"@ {
                Err(AcmeServerError::BadSignatureAlgorithm)
            } else {
                match resolve_spec(accounts, h) {
                    Err(e) => Err(e),
                    Ok((sec1, account, jwk)) => if !es256k_signature_ok(
                        sec1,
                        signing_input_spec(req),
                        sig->Some_0,
                    ) {
                        Err(AcmeServerError::Unauthorized)
                    } else {
                        Ok(AuthenticatedView { account, jwk, url: h.url, payload: payload->Some_0 })
                    },
                }
            },
        }
    }
}

/// An envelope is accepted only where k256 accepts its signature bytes, as
/// sent, over its signing input, as sent, under the key that its header
/// resolves to. Any change to the payload or signature text therefore
/// reaches the signature check, and passes only where k256 accepts the
/// changed pair.
pub proof fn lemma_accepted_only_if_signature_ok(
    nonces: NonceService,
    accounts: AccountRegistry,
    req: GeneralRequest,
    now: u64,
)
    requires
        authenticate_spec(nonces, accounts, req, now) is Ok,
    ensures
        b64url_bytes_of(req.protected@) matches Some(doc) && header_spec(doc) matches Some(h)
            && resolve_spec(accounts, h) matches Ok((sec1, _, _)) && b64url_bytes_of(
            req.signature@,
        ) matches Some(sig) && es256k_signature_ok(sec1, signing_input_spec(req), sig),
{
}

/// Resolves the key that a header names.
pub fn resolve_key(accounts: &AccountRegistry, header: &JwkHeader) -> (r: Result<
    (Es256kPublicKey, Option<usize>, JwkPublicKey),
    AcmeServerError,
>)
    requires
        accounts.wf(),
        header.kid is Some || header.jwk is Some,
    ensures
        match resolve_spec(*accounts, header.view()) {
            Ok((sec1, account, jwk)) => r matches Ok((k, a, j)) && k.sec1_view() == sec1 && j.view()
                == jwk && match a {
                Some(i) => account == Some(i as int),
                None => account is None,
            },
            Err(e) => r == Err::<(Es256kPublicKey, Option<usize>, JwkPublicKey), AcmeServerError>(e),
        },
{
    match &header.kid {
        Some(kid) => {
            let i = match accounts.find(kid.as_str()) {
                Some(i) => i,
                None => return Err(AcmeServerError::AccountDoesNotExist),
            };
            let acct = accounts.account(i).unwrap();
            proof {
                let j = choose|j: int|
                    0 <= j < accounts.accounts().len() && #[trigger] accounts.accounts()[j].thumbprint@ == kid@;
                if j < i {
                    assert(accounts.accounts()[j].thumbprint@ != accounts.accounts()[i as int].thumbprint@);
                } else if j > i {
                    assert(accounts.accounts()[i as int].thumbprint@ != accounts.accounts()[j].thumbprint@);
                }
            }
            if acct.status != AccountStatus::Valid {
                return Err(AcmeServerError::Unauthorized);
            }
            match Es256kPublicKey::from_jwk(&acct.key) {
                Ok(k) => Ok((k, Some(i), acct.key.duplicate())),
                Err(e) => Err(e),
            }
        },
        None => {
            let jwk = header.jwk.as_ref().unwrap();
            match Es256kPublicKey::from_jwk(jwk) {
                Ok(k) => Ok((k, None, jwk.duplicate())),
                Err(e) => Err(e),
            }
        },
    }
}

/// Authenticates a signed envelope at time `now`: decodes its three parts,
/// parses the protected header, consumes its nonce, resolves the key and
/// checks the signature over `protected || "." || payload`. The answer is
/// `authenticate_spec`; the nonce is consumed exactly where the header was
/// read and the nonce was outstanding, and the nonces are untouched
/// otherwise.
pub fn authenticate(
    nonces: &mut NonceService,
    accounts: &AccountRegistry,
    req: &GeneralRequest,
    now: u64,
) -> (r: Result<Authenticated, AcmeServerError>)
    requires
        old(nonces).wf(),
        accounts.wf(),
    ensures
        final(nonces).wf(),
        match authenticate_spec(*old(nonces), *accounts, *req, now) {
            Ok(v) => r matches Ok(a) && a.view() == v,
            Err(e) => r == Err::<Authenticated, AcmeServerError>(e),
        },
        match b64url_bytes_of(req.protected@) {
            Some(doc) => match header_spec(doc) {
                Some(h) => if b64url_bytes_of(req.payload@) is Some && b64url_bytes_of(req.signature@) is Some {
                    consume_outcome(
                        *old(nonces),
                        *final(nonces),
                        h.nonce,
                        now,
                        if old(nonces).outstanding(h.nonce, now) {
                            Ok::<(), AcmeServerError>(())
                        } else {
                            Err::<(), AcmeServerError>(AcmeServerError::BadNonce)
                        },
                    )
                } else {
                    *final(nonces) == *old(nonces)
                },
                None => *final(nonces) == *old(nonces),
            },
            None => *final(nonces) == *old(nonces),
        },
{
    let doc = b64url_decode(req.protected.as_str());
    let payload = b64url_decode(req.payload.as_str());
    let sig = b64url_decode(req.signature.as_str());
    let (doc, payload, sig) = match (doc, payload, sig) {
        (Some(d), Some(p), Some(s)) => (d, p, s),
        _ => return Err(AcmeServerError::MalformedRequest),
    };
    let header = match GeneralRequest::parse_header(doc.as_slice()) {
        Ok(h) => h,
        Err(e) => return Err(e),
    };
    let consumed = nonces.consume(header.nonce.as_str(), now);
    if consumed.is_err() {
        return Err(AcmeServerError::BadNonce);
    }
    if !str_eq(header.alg.as_str(), "ES256K") {
        return Err(AcmeServerError::BadSignatureAlgorithm);
    }
    let (key, account, jwk) = match resolve_key(accounts, &header) {
        Ok(t) => t,
        Err(e) => return Err(e),
    };
    let input = req.signing_input();
    if !key.verify(input.as_slice(), sig.as_slice()) {
        return Err(AcmeServerError::Unauthorized);
    }
    Ok(Authenticated { account, jwk, url: header.url, payload })
}

} // verus!
