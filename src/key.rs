//! Signing identities and certificate plans.
//!
//! A signing identity is derived from a subject name and a serial number;
//! it is the derivation path handed to the signing authority. A certificate
//! plan gathers everything the issuer decides before the signing authority
//! is asked for a key and a signature.
use vstd::prelude::*;
use x509_cert::der::Encode;
use crate::digest::{keccak512, keccak512_of, sha256, sha256_of};
use crate::es256k::{Es256kPublicKey, sec1_point_ok};

verus! {

/// Subject and issuer name of the root certificate.
pub const ROOT_NAME: &'static str = "CN=IC ENCRYPT";

/// Serial number of the root certificate.
pub const ROOT_SERIAL_NUMBER: u64 = 0;

/// One year in nanoseconds (a year of 365 days).
pub const ONE_YEAR_VALIDITY_NANOS: u64 = 31536000000000000;

/// The DER encoding of the X.509 name that an RFC 4514 string denotes;
/// `None` where the string denotes none.
pub uninterp spec fn name_der_of(subject: Seq<char>) -> Option<Seq<u8>>;

/// The DER form of an ECDSA/secp256k1 signature given as `r || s`; `None`
/// where the bytes are no such signature.
pub uninterp spec fn ecdsa_der_of(raw: Seq<u8>) -> Option<Seq<u8>>;

/// Relies on x509_cert's `Name::from_str` (RFC 4514 parsing) followed by
/// der's `Encode::to_der`.
#[verifier::external_body]
fn encode_name(subject: &str) -> (r: Option<Vec<u8>>)
    ensures
        match r {
            Some(v) => name_der_of(subject@) == Some(v@),
            None => name_der_of(subject@) is None,
        },
{
    <x509_cert::name::Name as core::str::FromStr>::from_str(subject).ok()?.to_der().ok()
}

/// Relies on k256's `Signature::from_slice`, which takes exactly 64 bytes
/// `r || s`, and on `Signature::to_der`.
#[verifier::external_body]
fn raw_signature_to_der(raw: &[u8]) -> (r: Option<Vec<u8>>)
    ensures
        match r {
            Some(v) => ecdsa_der_of(raw@) == Some(v@),
            None => ecdsa_der_of(raw@) is None,
        },
        r is Some ==> raw@.len() == 64,
{
    let sig = k256::ecdsa::Signature::from_slice(raw).ok()?;
    Some(sig.to_der().as_bytes().to_vec())
}

/// The eight big-endian bytes of a serial number.
pub open spec fn be_bytes_spec(n: u64) -> Seq<u8> {
    Seq::new(8, |i: int| ((n as int / pow256(7 - i)) % 256) as u8)
}

pub open spec fn pow256(e: int) -> int
    decreases e,
{
    if e <= 0 {
        1
    } else {
        256 * pow256(e - 1)
    }
}

/// Writes a serial number as eight big-endian bytes.
pub fn be_bytes(n: u64) -> (r: Vec<u8>)
    ensures
        r@ == be_bytes_spec(n),
{
    let mut r: Vec<u8> = Vec::new();
    let mut k: usize = 0;
    while k < 8
        invariant
            k <= 8,
            r@.len() == k,
            forall|j: int| 0 <= j < k ==> r@[j] == be_bytes_spec(n)[j],
        decreases 8 - k,
    {
        let shift: u64 = (8 * (7 - k)) as u64;
        let b: u8 = ((n >> shift) & 0xff) as u8;
        proof {
            lemma_shift_byte(n, (7 - k) as u64);
        }
        r.push(b);
        k = k + 1;
    }
    assert(r@ =~= be_bytes_spec(n));
    r
}

proof fn lemma_shift_byte(n: u64, e: u64)
    requires
        e <= 7,
    ensures
        ((n >> (8 * e)) & 0xff) as u8 == ((n as int / pow256(e as int)) % 256) as u8,
{
    assert(pow256(0) == 1);
    assert(pow256(1) == 0x100);
    assert(pow256(2) == 0x10000);
    assert(pow256(3) == 0x1000000);
    assert(pow256(4) == 0x100000000);
    assert(pow256(5) == 0x10000000000);
    assert(pow256(6) == 0x1000000000000);
    assert(pow256(7) == 0x100000000000000);
    if e == 0 {
        assert(((n >> 0u64) & 0xff) as u8 == (n % 256) as u8) by (bit_vector);
    } else if e == 1 {
        assert(((n >> 8u64) & 0xff) as u8 == ((n / 0x100) % 256) as u8) by (bit_vector);
    } else if e == 2 {
        assert(((n >> 16u64) & 0xff) as u8 == ((n / 0x10000) % 256) as u8) by (bit_vector);
    } else if e == 3 {
        assert(((n >> 24u64) & 0xff) as u8 == ((n / 0x1000000) % 256) as u8) by (bit_vector);
    } else if e == 4 {
        assert(((n >> 32u64) & 0xff) as u8 == ((n / 0x100000000) % 256) as u8) by (bit_vector);
    } else if e == 5 {
        assert(((n >> 40u64) & 0xff) as u8 == ((n / 0x10000000000) % 256) as u8) by (bit_vector);
    } else if e == 6 {
        assert(((n >> 48u64) & 0xff) as u8 == ((n / 0x1000000000000) % 256) as u8) by (bit_vector);
    } else {
        assert(((n >> 56u64) & 0xff) as u8 == ((n / 0x100000000000000) % 256) as u8) by (bit_vector);
    }
}

/// The Keccak-512 input that identifies a subject and serial number: the
/// subject's DER name followed by the serial number's big-endian bytes.
pub open spec fn key_material(der: Seq<u8>, serial: u64) -> Seq<u8> {
    der + be_bytes_spec(serial)
}

/// A signing identity: a subject name and the serial number of the
/// certificate it is bound to.
#[derive(Debug)]
pub struct AcmeKey {
    domain: String,
    domain_der: Vec<u8>,
    serial_number: u64,
}

impl AcmeKey {
    #[verifier::type_invariant]
    spec fn encoded(self) -> bool {
        name_der_of(self.domain@) == Some(self.domain_der@)
    }

    /// The subject name, in RFC 4514 form.
    pub closed spec fn subject(self) -> Seq<char> {
        self.domain@
    }

    pub closed spec fn serial(self) -> u64 {
        self.serial_number
    }

    /// Binds a subject to a serial number; `None` where the subject is no
    /// X.509 name.
    pub fn new(domain: &str, serial_number: u64) -> (r: Option<AcmeKey>)
        ensures
            r is Some <==> name_der_of(domain@) is Some,
            r matches Some(k) ==> k.subject() == domain@ && k.serial() == serial_number,
    {
        match encode_name(domain) {
            Some(der) => Some(AcmeKey { domain: domain.to_owned(), domain_der: der, serial_number }),
            None => None,
        }
    }

    pub fn domain(&self) -> (r: &String)
        ensures
            r@ == self.subject(),
    {
        &self.domain
    }

    pub fn serial_number(&self) -> (r: u64)
        ensures
            r == self.serial(),
    {
        self.serial_number
    }

    /// The identity of this key: Keccak-512 over the subject's DER name and
    /// the serial number's big-endian bytes. It is the derivation path
    /// handed to the signing authority.
    pub fn id(&self) -> (r: Vec<u8>)
        ensures
            name_der_of(self.subject()) is Some,
            r@ == keccak512_of(key_material(name_der_of(self.subject())->Some_0, self.serial())),
            r@.len() == 64,
    {
        proof {
            use_type_invariant(self);
        }
        let mut buff = self.domain_der.clone();
        let mut serial = be_bytes(self.serial_number);
        buff.append(&mut serial);
        keccak512(buff.as_slice())
    }

    /// Whether this key belongs to the root certificate: its subject is the
    /// empty name or the root's name.
    pub fn is_root(&self) -> (r: bool)
        ensures
            r == (self.subject().len() == 0 || self.subject() == ROOT_NAME@),
    {
        self.domain.as_str().is_empty() || crate::handler::str_eq(self.domain.as_str(), ROOT_NAME)
    }

    /// The digest that the signing authority signs for a message: its
    /// SHA-256 hash.
    pub fn hash_mesage(msg: &[u8]) -> (r: Vec<u8>)
        ensures
            r@ == sha256_of(msg@),
            r@.len() == 32,
    {
        sha256(msg)
    }
}

/// The threshold-ECDSA keys that a signing authority offers; all are on
/// secp256k1.
#[derive(Debug, Clone, Copy, PartialEq, Eq, Structural)]
pub enum EcdsaKeyIds {
    TestKeyLocalDevelopment,
    TestKey1,
    ProductionKey1,
}

pub open spec fn key_name_spec(k: EcdsaKeyIds) -> Seq<char> {
    match k {
        EcdsaKeyIds::TestKeyLocalDevelopment => "dfx_test_key"@,
        EcdsaKeyIds::TestKey1 => "test_key_1"@,
        EcdsaKeyIds::ProductionKey1 => "key_1"@,
    }
}

impl EcdsaKeyIds {
    /// The name under which the signing authority knows the key.
    pub fn key_name(&self) -> (r: &'static str)
        ensures
            r@ == key_name_spec(*self),
    {
        match self {
            EcdsaKeyIds::TestKeyLocalDevelopment => "dfx_test_key",
            EcdsaKeyIds::TestKey1 => "test_key_1",
            EcdsaKeyIds::ProductionKey1 => "key_1",
        }
    }
}

/// How a certificate is issued: self-signed as the root, or as a leaf under
/// an issuer.
#[derive(Debug, Clone)]
pub enum Profile {
    Root,
    Leaf { issuer: String, enable_key_agreement: bool, enable_key_encipherment: bool },
}

/// A validity window in nanoseconds since the Unix epoch.
#[derive(Debug, Clone, Copy, PartialEq, Eq, Structural)]
pub struct Validity {
    pub not_before: u64,
    pub not_after: u64,
}

/// What the issuer has decided about a certificate before the signing
/// authority is asked for the subject's key and for a signature.
#[derive(Debug)]
pub struct CertificatePlan {
    pub serial_number: u64,
    pub subject: String,
    pub profile: Profile,
    pub validity: Validity,
    pub derivation_path: Vec<u8>,
}

/// A request to the signing authority: sign `message_hash` with the key
/// derived along `derivation_path`.
#[derive(Debug)]
pub struct SignRequest {
    pub message_hash: Vec<u8>,
    pub derivation_path: Vec<u8>,
}

/// A certificate under construction for one signing identity.
#[derive(Debug)]
pub struct Certificate {
    key: AcmeKey,
}

pub open spec fn is_root_name(subject: Seq<char>) -> bool {
    subject.len() == 0 || subject == ROOT_NAME@
}

pub open spec fn validity_spec(now: u64) -> Option<Validity> {
    if now as int + ONE_YEAR_VALIDITY_NANOS as int <= u64::MAX as int {
        Some(Validity { not_before: now, not_after: (now + ONE_YEAR_VALIDITY_NANOS) as u64 })
    } else {
        None
    }
}

impl Certificate {
    pub closed spec fn key_view(self) -> AcmeKey {
        self.key
    }

    pub fn new(key: AcmeKey) -> (r: Certificate)
        ensures
            r.key_view() == key,
    {
        Certificate { key }
    }

    /// The root certificate's identity; `None` only where the root's name
    /// cannot be encoded.
    pub fn root() -> (r: Option<Certificate>)
        ensures
            r is Some <==> name_der_of(ROOT_NAME@) is Some,
            r matches Some(c) ==> c.key_view().subject() == ROOT_NAME@ && c.key_view().serial()
                == ROOT_SERIAL_NUMBER,
    {
        match AcmeKey::new(ROOT_NAME, ROOT_SERIAL_NUMBER) {
            Some(key) => Some(Certificate { key }),
            None => None,
        }
    }

    pub fn root_name() -> (r: String)
        ensures
            r@ == ROOT_NAME@,
    {
        ROOT_NAME.to_owned()
    }

    /// The root profile for the root's identity, else a leaf issued by the
    /// root.
    pub fn profile(&self) -> (r: Profile)
        ensures
            is_root_name(self.key_view().subject()) ==> r is Root,
            !is_root_name(self.key_view().subject()) ==> (r matches Profile::Leaf {
                issuer,
                enable_key_agreement,
                enable_key_encipherment,
            } && issuer@ == ROOT_NAME@ && enable_key_agreement && enable_key_encipherment),
    {
        if self.key.is_root() {
            return Profile::Root;
        }
        Profile::Leaf {
            issuer: Self::root_name(),
            enable_key_agreement: true,
            enable_key_encipherment: true,
        }
    }

    /// Valid from `now` for one year; `None` where the end does not fit in
    /// 64 bits.
    pub fn generate_validity_info(now: u64) -> (r: Option<Validity>)
        ensures
            r == validity_spec(now),
    {
        if now <= u64::MAX - ONE_YEAR_VALIDITY_NANOS {
            Some(Validity { not_before: now, not_after: now + ONE_YEAR_VALIDITY_NANOS })
        } else {
            None
        }
    }

    /// Plans this certificate at time `now`: its serial number and subject
    /// are the identity's, its profile is `profile()`, its validity window
    /// is `generate_validity_info(now)` and its derivation path is the
    /// identity's `id()`.
    pub fn build_leaf(self, now: u64) -> (r: Option<CertificatePlan>)
        ensures
            r is Some <==> validity_spec(now) is Some,
            r matches Some(p) ==> {
                &&& p.serial_number == self.key_view().serial()
                &&& p.subject@ == self.key_view().subject()
                &&& Some(p.validity) == validity_spec(now)
                &&& p.derivation_path@ == keccak512_of(
                    key_material(
                        name_der_of(self.key_view().subject())->Some_0,
                        self.key_view().serial(),
                    ),
                )
                &&& (p.profile is Root <==> is_root_name(self.key_view().subject()))
            },
    {
        let validity = match Self::generate_validity_info(now) {
            Some(v) => v,
            None => return None,
        };
        let profile = self.profile();
        let derivation_path = self.key.id();
        Some(CertificatePlan {
            serial_number: self.key.serial_number,
            subject: self.key.domain.clone(),
            profile,
            validity,
            derivation_path,
        })
    }

    /// Plans the root certificate at time `now`.
    pub fn build_root(now: u64) -> (r: Option<CertificatePlan>)
        ensures
            r is Some <==> name_der_of(ROOT_NAME@) is Some && validity_spec(now) is Some,
            r matches Some(p) ==> p.serial_number == ROOT_SERIAL_NUMBER && p.subject@ == ROOT_NAME@
                && p.profile is Root && Some(p.validity) == validity_spec(now),
    {
        match Self::root() {
            Some(c) => c.build_leaf(now),
            None => None,
        }
    }

    /// The signing request for a to-be-signed certificate: the SHA-256
    /// digest of its DER bytes, under this identity's derivation path.
    pub fn sign_request(&self, tbs_der: &[u8]) -> (r: SignRequest)
        ensures
            r.message_hash@ == sha256_of(tbs_der@),
            r.derivation_path@ == keccak512_of(
                key_material(name_der_of(self.key_view().subject())->Some_0, self.key_view().serial()),
            ),
    {
        SignRequest { message_hash: AcmeKey::hash_mesage(tbs_der), derivation_path: self.key.id() }
    }
}

/// A signature in the ASN.1 DER form that a certificate carries.
#[derive(Debug, Clone)]
pub struct Asn1EncodedSignature {
    pub der: Vec<u8>,
}

impl Asn1EncodedSignature {
    /// Encodes a signing authority's `r || s` signature; `None` where the
    /// bytes are no secp256k1 signature.
    pub fn new(raw: &[u8]) -> (r: Option<Asn1EncodedSignature>)
        ensures
            r is Some <==> ecdsa_der_of(raw@) is Some,
            r matches Some(s) ==> Some(s.der@) == ecdsa_der_of(raw@) && raw@.len() == 64,
    {
        match raw_signature_to_der(raw) {
            Some(der) => Some(Asn1EncodedSignature { der }),
            None => None,
        }
    }
}

/// The public key that the signing authority derived for an identity.
#[derive(Debug)]
pub struct AcmeVerifyingKey {
    pub key: Es256kPublicKey,
}

impl AcmeVerifyingKey {
    /// Reads the SEC1 point that the signing authority returned; `None`
    /// where it is malformed.
    pub fn from_sec1(bytes: &[u8]) -> (r: Option<AcmeVerifyingKey>)
        ensures
            r is Some <==> sec1_point_ok(bytes@),
            r matches Some(k) ==> k.key.sec1_view() == bytes@,
    {
        match Es256kPublicKey::from_sec1(bytes) {
            Some(key) => Some(AcmeVerifyingKey { key }),
            None => None,
        }
    }
}

} // verus!
