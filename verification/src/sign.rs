//! Code-signing configuration.
//!
//! Signing itself runs external tools and lives with the caller; what is
//! decided here is whether signing happens at all (only on a Darwin host
//! with a complete set of credentials) and how the environment-supplied
//! certificate is decoded and validated.

use vstd::prelude::*;
use vstd::string::*;
use base64::Engine;
use crate::errors::{DistError, DistResult};

verus! {

/// Whether the six characters starting at `i` spell the Darwin OS name.
pub open spec fn spec_darwin_at(s: Seq<char>, i: int) -> bool {
    &&& s[i] == 'd'
    &&& s[i + 1] == 'a'
    &&& s[i + 2] == 'r'
    &&& s[i + 3] == 'w'
    &&& s[i + 4] == 'i'
    &&& s[i + 5] == 'n'
}

/// Whether a target triple names Darwin as its OS.
pub open spec fn spec_is_darwin_triple(s: Seq<char>) -> bool {
    exists|i: int| 0 <= i && i + 6 <= s.len() && spec_darwin_at(s, i)
}

/// Whether `target` names Darwin as its OS.
pub fn triple_is_darwin(target: &str) -> (r: bool)
    ensures
        r == spec_is_darwin_triple(target@),
{
    let n = target.unicode_len();
    if n < 6 {
        return false;
    }
    let mut i: usize = 0;
    while i <= n - 6
        invariant
            6 <= n,
            n == target@.len(),
            i <= n - 6 + 1,
            forall|j: int| 0 <= j < i ==> !#[trigger] spec_darwin_at(target@, j),
        decreases n - i,
    {
        if target.get_char(i) == 'd' && target.get_char(i + 1) == 'a' && target.get_char(i + 2)
            == 'r' && target.get_char(i + 3) == 'w' && target.get_char(i + 4) == 'i'
            && target.get_char(i + 5) == 'n' {
            assert(spec_darwin_at(target@, i as int));
            return true;
        }
        i = i + 1;
    }
    false
}

/// The bytes the standard padded base64 alphabet decodes a string to, when
/// the string is valid base64 at all.
pub uninterp spec fn base64_standard_decode(s: Seq<char>) -> Option<Seq<u8>>;

/// Relies on base64's `Engine::decode` with the `BASE64_STANDARD` engine:
/// the result is a deterministic function of the input characters alone,
/// either the decoded bytes or a decode error.
#[verifier::external_body]
fn base64_decode_standard(s: &str) -> (r: Option<Vec<u8>>)
    ensures
        (r is Some) == (base64_standard_decode(s@) is Some),
        r is Some ==> r.unwrap()@ == base64_standard_decode(s@).unwrap(),
{
    match base64::prelude::BASE64_STANDARD.decode(s) {
        Ok(v) => Some(v),
        Err(_) => None,
    }
}

/// The credentials signing runs with, decoded and ready to use. The type
/// deliberately has no formatting impls: nothing should print these
/// values.
#[derive(Clone, PartialEq, Eq)]
pub struct CodesignEnv {
    /// The identity of the signing certificate.
    pub identity: String,
    /// The signing certificate's passphrase.
    pub password: String,
    /// The signing certificate itself, decoded from base64.
    pub certificate: Vec<u8>,
    /// The account notarization requests are submitted under.
    pub notarization_apple_id: String,
    /// That account's app-specific password.
    pub notarization_password: String,
}

impl CodesignEnv {
    /// Assemble the signing credentials, decoding the base64-encoded
    /// certificate; an undecodable certificate is rejected.
    pub fn from(
        identity: &str,
        password: &str,
        raw_certificate: &str,
        notarization_apple_id: &str,
        notarization_password: &str,
    ) -> (r: DistResult<Self>)
        ensures
            (r is Ok) == (base64_standard_decode(raw_certificate@) is Some),
            r is Ok ==> {
                let e = r->Ok_0;
                &&& e.identity@ == identity@
                &&& e.password@ == password@
                &&& e.certificate@ == base64_standard_decode(raw_certificate@).unwrap()
                &&& e.notarization_apple_id@ == notarization_apple_id@
                &&& e.notarization_password@ == notarization_password@
            },
            r is Err ==> r->Err_0 == DistError::CertificateDecodeError,
    {
        let certificate = match base64_decode_standard(raw_certificate) {
            Some(v) => v,
            None => {
                return Err(DistError::CertificateDecodeError);
            },
        };
        Ok(
            CodesignEnv {
                identity: identity.to_owned(),
                password: password.to_owned(),
                certificate,
                notarization_apple_id: notarization_apple_id.to_owned(),
                notarization_password: notarization_password.to_owned(),
            },
        )
    }
}

/// Configuration for signing through the host system's own tools.
#[derive(Clone, PartialEq, Eq)]
pub struct Codesign {
    /// The credentials signing runs with.
    pub env: CodesignEnv,
}

impl Codesign {
    /// Decide whether signing happens and assemble its credentials: never
    /// on a non-Darwin host, never with an incomplete credential set, and
    /// only with a certificate that decodes; only an undecodable
    /// certificate is an error.
    pub fn new(
        host_target: &str,
        identity: Option<String>,
        password: Option<String>,
        certificate: Option<String>,
        notarization_apple_id: Option<String>,
        notarization_password: Option<String>,
    ) -> (r: DistResult<Option<Self>>)
        ensures
            !spec_is_darwin_triple(host_target@) ==> r == Ok::<Option<Codesign>, DistError>(None),
            spec_is_darwin_triple(host_target@) && (identity is None || password is None
                || certificate is None || notarization_apple_id is None
                || notarization_password is None) ==> r == Ok::<Option<Codesign>, DistError>(None),
            spec_is_darwin_triple(host_target@) && identity is Some && password is Some
                && certificate is Some && notarization_apple_id is Some
                && notarization_password is Some ==> {
                &&& (r is Ok) == (base64_standard_decode(certificate.unwrap()@) is Some)
                &&& r is Ok ==> r->Ok_0 is Some && {
                    let e = r->Ok_0.unwrap().env;
                    &&& e.identity@ == identity.unwrap()@
                    &&& e.password@ == password.unwrap()@
                    &&& e.certificate@ == base64_standard_decode(certificate.unwrap()@).unwrap()
                    &&& e.notarization_apple_id@ == notarization_apple_id.unwrap()@
                    &&& e.notarization_password@ == notarization_password.unwrap()@
                }
                &&& r is Err ==> r->Err_0 == DistError::CertificateDecodeError
            },
    {
        if !triple_is_darwin(host_target) {
            return Ok(None);
        }
        match (identity, password, certificate, notarization_apple_id, notarization_password) {
            (
                Some(identity),
                Some(password),
                Some(certificate),
                Some(notarization_apple_id),
                Some(notarization_password),
            ) => {
                match CodesignEnv::from(
                    identity.as_str(),
                    password.as_str(),
                    certificate.as_str(),
                    notarization_apple_id.as_str(),
                    notarization_password.as_str(),
                ) {
                    Ok(env) => Ok(Some(Codesign { env })),
                    Err(e) => Err(e),
                }
            },
            _ => Ok(None),
        }
    }
}

} // verus!
