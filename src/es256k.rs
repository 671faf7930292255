//! ES256K (ECDSA over secp256k1 with SHA-256) public keys: reconstruction
//! from a JWK, the JWK thumbprint, and signature checks through k256.
use vstd::prelude::*;
use vstd::string::StringExecFns;
use k256::pkcs8::DecodePublicKey;
use signature::Verifier;
use crate::digest::{b64url_bytes_of, b64url_decode, b64url_encode, b64url_text_of, sha256, sha256_of};
use crate::handler::str_eq;
use crate::types::{AcmeServerError, JwkPublicKey, JwkView};

verus! {

/// Whether k256 accepts the bytes as a SEC1-encoded secp256k1 point.
pub uninterp spec fn sec1_point_ok(sec1: Seq<u8>) -> bool;

/// Whether `sig` (`r || s`) is a valid ES256K signature of `msg` under the
/// key whose SEC1 encoding is `sec1`, as k256 checks it.
pub uninterp spec fn es256k_signature_ok(sec1: Seq<u8>, msg: Seq<u8>, sig: Seq<u8>) -> bool;

/// The uncompressed SEC1 encoding of the secp256k1 key in a DER
/// SubjectPublicKeyInfo; `None` where there is none.
pub uninterp spec fn spki_sec1_of(der: Seq<u8>) -> Option<Seq<u8>>;

/// Relies on k256's `PublicKey::from_sec1_bytes`.
#[verifier::external_body]
fn sec1_valid(sec1: &[u8]) -> (r: bool)
    ensures
        r == sec1_point_ok(sec1@),
{
    k256::PublicKey::from_sec1_bytes(sec1).is_ok()
}

/// Relies on k256's `VerifyingKey::from_sec1_bytes`, `Signature::from_slice`
/// and `Verifier::verify` (ECDSA over the SHA-256 digest of `msg`); a key or
/// signature that k256 cannot read gives `false`.
#[verifier::external_body]
fn verify_es256k(sec1: &[u8], msg: &[u8], sig: &[u8]) -> (r: bool)
    ensures
        r == es256k_signature_ok(sec1@, msg@, sig@),
{
    let key = match k256::ecdsa::VerifyingKey::from_sec1_bytes(sec1) {
        Ok(k) => k,
        Err(_) => return false,
    };
    let signature = match k256::ecdsa::Signature::from_slice(sig) {
        Ok(s) => s,
        Err(_) => return false,
    };
    key.verify(msg, &signature).is_ok()
}

/// Relies on k256's `PublicKey::from_public_key_der` and
/// `PublicKey::to_sec1_bytes`, which writes the uncompressed point.
#[verifier::external_body]
fn sec1_from_spki_der(der: &[u8]) -> (r: Option<Vec<u8>>)
    ensures
        match r {
            Some(v) => spki_sec1_of(der@) == Some(v@),
            None => spki_sec1_of(der@) is None,
        },
{
    k256::PublicKey::from_public_key_der(der).ok().map(|k| k.to_sec1_bytes().to_vec())
}

/// The uncompressed SEC1 point `0x04 || x || y`.
pub open spec fn sec1_uncompressed(x: Seq<u8>, y: Seq<u8>) -> Seq<u8> {
    seq![4u8] + x + y
}

/// A secp256k1 public key, held as its SEC1 encoding, which k256 accepts.
#[derive(Debug)]
pub struct Es256kPublicKey {
    sec1: Vec<u8>,
}

/// What `Es256kPublicKey::from_jwk` makes of a JWK: `BadSignatureAlgorithm`
/// unless it is an `EC` key on `secp256k1`; `MalformedRequest` unless `x`
/// and `y` are base64url of 32 bytes each; `BadSignatureAlgorithm` unless
/// the point is on the curve; else the point's SEC1 encoding.
pub open spec fn jwk_sec1(jwk: JwkView) -> Result<Seq<u8>, AcmeServerError> {
    if !(jwk.kty == "EC"@ && jwk.crv == "secp256k1"@) {
        Err(AcmeServerError::BadSignatureAlgorithm)
    } else if jwk.y is None {
        Err(AcmeServerError::MalformedRequest)
    } else {
        let x = b64url_bytes_of(jwk.x);
        let y = b64url_bytes_of(jwk.y->Some_0);
        if !(x matches Some(xb) && xb.len() == 32) || !(y matches Some(yb) && yb.len() == 32) {
            Err(AcmeServerError::MalformedRequest)
        } else if !sec1_point_ok(sec1_uncompressed(x->Some_0, y->Some_0)) {
            Err(AcmeServerError::BadSignatureAlgorithm)
        } else {
            Ok(sec1_uncompressed(x->Some_0, y->Some_0))
        }
    }
}

impl Es256kPublicKey {
    #[verifier::type_invariant]
    spec fn on_curve(self) -> bool {
        sec1_point_ok(self.sec1@)
    }

    /// The key's SEC1 encoding.
    pub closed spec fn sec1_view(self) -> Seq<u8> {
        self.sec1@
    }

    /// The key's SEC1 encoding.
    pub fn sec1(&self) -> (r: &Vec<u8>)
        ensures
            r@ == self.sec1_view(),
    {
        &self.sec1
    }

    /// Reads a SEC1-encoded point; `None` where k256 refuses it.
    pub fn from_sec1(bytes: &[u8]) -> (r: Option<Es256kPublicKey>)
        ensures
            r is Some <==> sec1_point_ok(bytes@),
            r matches Some(k) ==> k.sec1_view() == bytes@,
    {
        if sec1_valid(bytes) {
            let mut v: Vec<u8> = Vec::new();
            let mut i: usize = 0;
            while i < bytes.len()
                invariant
                    i <= bytes@.len(),
                    v@ == bytes@.subrange(0, i as int),
                decreases bytes@.len() - i,
            {
                v.push(bytes[i]);
                i = i + 1;
                assert(v@ =~= bytes@.subrange(0, i as int));
            }
            assert(v@ =~= bytes@);
            Some(Es256kPublicKey { sec1: v })
        } else {
            None
        }
    }

    /// Reads a DER SubjectPublicKeyInfo holding a secp256k1 key; else
    /// `MalformedRequest`.
    pub fn from_public_key_der(der: &[u8]) -> (r: Result<Es256kPublicKey, AcmeServerError>)
        ensures
            r is Ok <==> (spki_sec1_of(der@) matches Some(s) && sec1_point_ok(s)),
            r is Ok ==> spki_sec1_of(der@) == Some(r->Ok_0.sec1_view()),
            r is Err ==> r == Err::<Es256kPublicKey, AcmeServerError>(AcmeServerError::MalformedRequest),
    {
        match sec1_from_spki_der(der) {
            Some(sec1) => match Self::from_sec1(sec1.as_slice()) {
                Some(k) => Ok(k),
                None => Err(AcmeServerError::MalformedRequest),
            },
            None => Err(AcmeServerError::MalformedRequest),
        }
    }

    /// Reconstructs the key of a JWK from its curve and coordinates.
    pub fn from_jwk(jwk: &JwkPublicKey) -> (r: Result<Es256kPublicKey, AcmeServerError>)
        ensures
            match jwk_sec1(jwk.view()) {
                Ok(sec1) => r matches Ok(k) && k.sec1_view() == sec1,
                Err(e) => r == Err::<Es256kPublicKey, AcmeServerError>(e),
            },
    {
        if !(str_eq(jwk.kty.as_str(), "EC") && str_eq(jwk.crv.as_str(), "secp256k1")) {
            return Err(AcmeServerError::BadSignatureAlgorithm);
        }
        let y_text = match &jwk.y {
            Some(y) => y,
            None => return Err(AcmeServerError::MalformedRequest),
        };
        let x = b64url_decode(jwk.x.as_str());
        let y = b64url_decode(y_text.as_str());
        let (mut xb, mut yb) = match (x, y) {
            (Some(xb), Some(yb)) => (xb, yb),
            _ => return Err(AcmeServerError::MalformedRequest),
        };
        if xb.len() != 32 || yb.len() != 32 {
            return Err(AcmeServerError::MalformedRequest);
        }
        let ghost xs = xb@;
        let ghost ys = yb@;
        let mut sec1: Vec<u8> = vec![4u8];
        sec1.append(&mut xb);
        sec1.append(&mut yb);
        assert(sec1@ =~= sec1_uncompressed(xs, ys));
        match Self::from_sec1(sec1.as_slice()) {
            Some(k) => Ok(k),
            None => Err(AcmeServerError::BadSignatureAlgorithm),
        }
    }

    /// Checks an ES256K signature (`r || s`) of `msg` under this key.
    pub fn verify(&self, msg: &[u8], sig: &[u8]) -> (r: bool)
        ensures
            r == es256k_signature_ok(self.sec1_view(), msg@, sig@),
    {
        verify_es256k(self.sec1.as_slice(), msg, sig)
    }
}

/// The RFC 7638 thumbprint input of an elliptic-curve JWK: its required
/// members in lexicographic order, without white space.
pub open spec fn thumbprint_json(crv: Seq<char>, kty: Seq<char>, x: Seq<char>, y: Seq<char>) -> Seq<char> {
    "{\"crv\":\""@ + crv + "\",\"kty\":\""@ + kty + "\",\"x\":\""@ + x + "\",\"y\":\""@ + y + "\"}"@
}

/// The thumbprint of a JWK: base64url of the SHA-256 digest of its
/// thumbprint input; `None` for a key without `y`.
pub open spec fn jwk_thumbprint_spec(jwk: JwkPublicKey) -> Option<Seq<char>> {
    match jwk.y {
        Some(y) => Some(b64url_text_of(sha256_of(vstd::utf8::encode_utf8(thumbprint_json(jwk.crv@, jwk.kty@, jwk.x@, y@))))),
        None => None,
    }
}

/// Computes the JWK thumbprint that identifies an account and enters its
/// key authorizations.
pub fn jwk_thumbprint(jwk: &JwkPublicKey) -> (r: Option<String>)
    ensures
        match jwk_thumbprint_spec(*jwk) {
            Some(t) => r matches Some(s) && s@ == t,
            None => r is None,
        },
{
    let y = match &jwk.y {
        Some(y) => y,
        None => return None,
    };
    let mut json = "{\"crv\":\"".to_owned();
    json.append(jwk.crv.as_str());
    json.append("\",\"kty\":\"");
    json.append(jwk.kty.as_str());
    json.append("\",\"x\":\"");
    json.append(jwk.x.as_str());
    json.append("\",\"y\":\"");
    json.append(y.as_str());
    json.append("\"}");
    let digest = sha256(json.as_str().as_bytes());
    Some(b64url_encode(digest.as_slice()))
}

/// A public key of a JWS envelope, by algorithm. Only ES256K keys are
/// supported; an Ed25519 key is recognised and refused.
#[derive(Debug)]
pub enum RawJwkPublicKey {
    ES256K(Es256kPublicKey),
    Ed25519,
}

impl RawJwkPublicKey {
    /// Reads a JWK: an `OKP` key on `Ed25519` is recognised as such, every
    /// other key goes through `Es256kPublicKey::from_jwk`.
    pub fn from_jwk(jwk: &JwkPublicKey) -> (r: Result<RawJwkPublicKey, AcmeServerError>)
        ensures
            jwk.kty@ == "OKP"@ && jwk.crv@ == "Ed25519"@ ==> r matches Ok(RawJwkPublicKey::Ed25519),
            !(jwk.kty@ == "OKP"@ && jwk.crv@ == "Ed25519"@) ==> match jwk_sec1(jwk.view()) {
                Ok(sec1) => r matches Ok(RawJwkPublicKey::ES256K(k)) && k.sec1_view() == sec1,
                Err(e) => r == Err::<RawJwkPublicKey, AcmeServerError>(e),
            },
    {
        if str_eq(jwk.kty.as_str(), "OKP") && str_eq(jwk.crv.as_str(), "Ed25519") {
            return Ok(RawJwkPublicKey::Ed25519);
        }
        match Es256kPublicKey::from_jwk(jwk) {
            Ok(k) => Ok(RawJwkPublicKey::ES256K(k)),
            Err(e) => Err(e),
        }
    }

    /// The key to check ES256K signatures with; an Ed25519 key gives
    /// `BadSignatureAlgorithm`.
    pub fn es256k(self) -> (r: Result<Es256kPublicKey, AcmeServerError>)
        ensures
            match self {
                RawJwkPublicKey::ES256K(k) => r == Ok::<Es256kPublicKey, AcmeServerError>(k),
                RawJwkPublicKey::Ed25519 => r == Err::<Es256kPublicKey, AcmeServerError>(AcmeServerError::BadSignatureAlgorithm),
            },
    {
        match self {
            RawJwkPublicKey::ES256K(k) => Ok(k),
            RawJwkPublicKey::Ed25519 => Err(AcmeServerError::BadSignatureAlgorithm),
        }
    }
}

} // verus!
