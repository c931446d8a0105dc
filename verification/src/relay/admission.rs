use vstd::prelude::*;
use vstd::string::StrSliceExecFns;
use vstd::string::StringSliceAdditionalSpecFns;
use crate::relay::error::RelayError;

verus! {

/// The header map of the `http` crate, as `axum` hands it on. Nothing is
/// known of its inside: it is read through [`first_value`] alone.
#[verifier::external_type_specification]
#[verifier::external_body]
#[verifier::reject_recursive_types(T)]
pub struct ExHeaderMap<T>(axum::http::HeaderMap<T>);

/// The header value of the `http` crate, which a header map holds unless it
/// is told otherwise. Nothing is known of its inside.
#[verifier::external_type_specification]
#[verifier::external_body]
pub struct ExHeaderValue(axum::http::HeaderValue);

/// What a header map answers for each name it is asked about: the bytes of the
/// first value stored under that name. Names are matched without regard to
/// ASCII letter case, so every spelling of a stored name is a key here.
pub uninterp spec fn first_values(headers: axum::http::HeaderMap) -> Map<Seq<char>, Seq<u8>>;

/// `HeaderMap::get` with a string key, followed by `HeaderValue::as_bytes`.
///
/// Trusted: the result is the first value stored under `name`, copied byte for
/// byte, or `None` when the map holds no value under that name.
#[verifier::external_body]
pub(crate) fn first_value(headers: &axum::http::HeaderMap, name: &str) -> (r: Option<Vec<u8>>)
    ensures
        r is Some <==> first_values(*headers).contains_key(name@),
        r matches Some(v) ==> v@ == first_values(*headers)[name@],
{
    match headers.get(name) {
        Some(value) => Some(value.as_bytes().to_vec()),
        None => None,
    }
}

/// Whether two byte strings are equal, byte for byte.
pub fn bytes_equal(a: &[u8], b: &[u8]) -> (r: bool)
    ensures
        r == (a@ == b@),
{
    if a.len() != b.len() {
        return false;
    }
    let mut i: usize = 0;
    while i < a.len()
        invariant
            i <= a.len(),
            a.len() == b.len(),
            a@.subrange(0, i as int) == b@.subrange(0, i as int),
        decreases a.len() - i,
    {
        if a[i] != b[i] {
            return false;
        }
        assert(a@.subrange(0, i + 1) == a@.subrange(0, i as int).push(a@[i as int]));
        assert(b@.subrange(0, i + 1) == b@.subrange(0, i as int).push(b@[i as int]));
        i = i + 1;
    }
    assert(a@ == a@.subrange(0, a.len() as int));
    assert(b@ == b@.subrange(0, b.len() as int));
    true
}

/// Admission control: one shared bearer credential, fixed at configuration
/// time, against which every upgrade attempt is compared once.
pub struct AdmissionGate {
    credential: Vec<u8>,
}

impl AdmissionGate {
    /// The configured credential: the exact `Authorization` value that is
    /// admitted.
    pub closed spec fn credential(&self) -> Seq<u8> {
        self.credential@
    }

    /// Whether a request carrying `headers` is let through: it names an
    /// `Authorization` value and that value is the credential, byte for byte.
    pub open spec fn admits(&self, headers: axum::http::HeaderMap) -> bool {
        &&& first_values(headers).contains_key("Authorization"@)
        &&& first_values(headers)["Authorization"@] == self.credential()
    }

    /// Admission control that lets `credential` through and nothing else.
    pub fn new(credential: &str) -> (admission: AdmissionGate)
        ensures
            admission.credential() == credential.spec_bytes(),
    {
        AdmissionGate { credential: credential.as_bytes_vec() }
    }

    /// The static-secret comparison: `true` exactly when `value` is the
    /// configured credential.
    pub fn authorize(&self, value: &[u8]) -> (ok: bool)
        ensures
            ok == (value@ == self.credential()),
    {
        bytes_equal(value, self.credential.as_slice())
    }

    /// Checks an upgrade attempt before any upgrade happens. Nothing is
    /// changed either way.
    pub fn authenticate(&self, headers: &axum::http::HeaderMap) -> (r: Result<(), RelayError>)
        ensures
            r is Ok <==> self.admits(*headers),
            r is Err ==> r == Err::<(), RelayError>(RelayError::AdmissionDenied),
    {
        match first_value(headers, "Authorization") {
            Some(value) => {
                if self.authorize(value.as_slice()) {
                    Ok(())
                } else {
                    Err(RelayError::AdmissionDenied)
                }
            },
            None => Err(RelayError::AdmissionDenied),
        }
    }
}

} // verus!
