//! Certificate signing requests: the name a CSR asks for.
use vstd::prelude::*;
use vstd::string::StrSliceExecFns;
use x509_cert::der::Decode;

verus! {

/// The RFC 4514 text of the subject of the DER-encoded CSR `der`; `None`
/// where `der` is no CSR.
pub uninterp spec fn csr_subject_of(der: Seq<u8>) -> Option<Seq<char>>;

/// Relies on x509_cert's `CertReq::from_der` and the RFC 4514 `Display` of
/// the subject `Name`.
#[verifier::external_body]
pub(crate) fn csr_subject(der: &[u8]) -> (r: Option<String>)
    ensures
        match r {
            Some(s) => csr_subject_of(der@) == Some(s@),
            None => csr_subject_of(der@) is None,
        },
{
    x509_cert::request::CertReq::from_der(der).ok().map(|req| req.info.subject.to_string())
}

/// The domain of a subject made of one common name: `CN=<domain>` with a
/// non-empty domain holding neither `,` nor `+`.
pub open spec fn subject_domain_spec(s: Seq<char>) -> Option<Seq<char>> {
    if s.len() > 3 && s.subrange(0, 3) == "CN="@ && (forall|i: int|
        3 <= i < s.len() ==> #[trigger] s[i] != ',' && s[i] != '+') {
        Some(s.subrange(3, s.len() as int))
    } else {
        None
    }
}

/// Reads the domain out of a subject of the form `CN=<domain>`.
pub fn subject_domain(s: &str) -> (r: Option<String>)
    ensures
        match subject_domain_spec(s@) {
            Some(d) => r matches Some(v) && v@ == d,
            None => r is None,
        },
{
    proof {
        reveal_strlit("CN=");
    }
    let n = s.unicode_len();
    if n <= 3 {
        return None;
    }
    if !crate::handler::str_eq(s.substring_char(0, 3), "CN=") {
        return None;
    }
    let mut i: usize = 3;
    while i < n
        invariant
            n == s@.len(),
            3 <= i <= n,
            forall|k: int| 3 <= k < i ==> #[trigger] s@[k] != ',' && s@[k] != '+',
        decreases n - i,
    {
        let c = s.get_char(i);
        if c == ',' || c == '+' {
            assert(s@[i as int] == c);
            return None;
        }
        i = i + 1;
    }
    Some(s.substring_char(3, n).to_owned())
}

/// The names that a DER-encoded CSR asks for: the domain of its subject,
/// where the subject is a single common name; else none.
pub open spec fn csr_names_spec(der: Seq<u8>) -> Seq<Seq<char>> {
    match csr_subject_of(der) {
        Some(subject) => match subject_domain_spec(subject) {
            Some(d) => seq![d],
            None => Seq::empty(),
        },
        None => Seq::empty(),
    }
}

/// Collects the names that a DER-encoded CSR asks for.
pub fn csr_names(der: &[u8]) -> (r: Vec<String>)
    ensures
        crate::issuance::texts(r@) == csr_names_spec(der@),
{
    let mut names: Vec<String> = Vec::new();
    match csr_subject(der) {
        Some(subject) => match subject_domain(subject.as_str()) {
            Some(d) => {
                names.push(d);
            },
            None => {},
        },
        None => {},
    }
    assert(crate::issuance::texts(names@) =~= csr_names_spec(der@));
    names
}

} // verus!
