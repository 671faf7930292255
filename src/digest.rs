//! Hash functions and encodings of outside crates, each behind one trusted
//! item whose result is named by a spec function of its arguments.
use vstd::prelude::*;
use base64::Engine;
use k256::sha2::Digest;
use tiny_keccak::Hasher;

verus! {

/// The Keccak-512 digest of a byte string.
pub uninterp spec fn keccak512_of(data: Seq<u8>) -> Seq<u8>;

/// The SHA-256 digest of a byte string.
pub uninterp spec fn sha256_of(data: Seq<u8>) -> Seq<u8>;

/// The unpadded base64url text of a byte string.
pub uninterp spec fn b64url_text_of(data: Seq<u8>) -> Seq<char>;

/// What unpadded base64url decoding makes of a text; `None` where it is no
/// such encoding.
pub uninterp spec fn b64url_bytes_of(text: Seq<char>) -> Option<Seq<u8>>;

/// Relies on tiny_keccak's `Keccak::v512`: `finalize` fills the 64-byte
/// output with the digest of all bytes given to `update`.
#[verifier::external_body]
pub(crate) fn keccak512(data: &[u8]) -> (r: Vec<u8>)
    ensures
        r@ == keccak512_of(data@),
        r@.len() == 64,
{
    let mut hasher = tiny_keccak::Keccak::v512();
    hasher.update(data);
    let mut out = vec![0u8; 64];
    hasher.finalize(&mut out);
    out
}

/// Relies on sha2's `Sha256::digest` (re-exported by k256): a 32-byte digest.
#[verifier::external_body]
pub(crate) fn sha256(data: &[u8]) -> (r: Vec<u8>)
    ensures
        r@ == sha256_of(data@),
        r@.len() == 32,
{
    k256::sha2::Sha256::digest(data).to_vec()
}

/// Relies on base64's `URL_SAFE_NO_PAD.encode`.
#[verifier::external_body]
pub(crate) fn b64url_encode(data: &[u8]) -> (r: String)
    ensures
        r@ == b64url_text_of(data@),
{
    base64::engine::general_purpose::URL_SAFE_NO_PAD.encode(data)
}

/// Relies on base64's `URL_SAFE_NO_PAD.decode`, which fails on text that is
/// not unpadded base64url.
#[verifier::external_body]
pub(crate) fn b64url_decode(text: &str) -> (r: Option<Vec<u8>>)
    ensures
        match r {
            Some(v) => b64url_bytes_of(text@) == Some(v@),
            None => b64url_bytes_of(text@) is None,
        },
{
    base64::engine::general_purpose::URL_SAFE_NO_PAD.decode(text).ok()
}

} // verus!
