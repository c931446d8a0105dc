use axum::http::{HeaderMap, HeaderValue};
use broadcast_relay::relay::admission::{bytes_equal, AdmissionGate};
use broadcast_relay::relay::error::RelayError;

fn with_authorization(value: &'static str) -> HeaderMap {
    let mut headers = HeaderMap::new();
    headers.insert("authorization", HeaderValue::from_static(value));
    headers
}

#[test]
fn missing_authorization_is_denied() {
    let admission = AdmissionGate::new("Bearer roken");
    let headers = HeaderMap::new();
    assert_eq!(admission.authenticate(&headers), Err(RelayError::AdmissionDenied));
}

#[test]
fn matching_authorization_is_admitted() {
    let admission = AdmissionGate::new("Bearer roken");
    assert_eq!(admission.authenticate(&with_authorization("Bearer roken")), Ok(()));
}

#[test]
fn wrong_authorization_is_denied() {
    let admission = AdmissionGate::new("Bearer roken");
    for value in ["Bearer token", "bearer roken", "Bearer roken ", "Bearer roke", "roken", ""] {
        assert_eq!(
            admission.authenticate(&with_authorization(value)),
            Err(RelayError::AdmissionDenied),
            "{value:?}"
        );
    }
}

#[test]
fn other_headers_do_not_admit() {
    let admission = AdmissionGate::new("Bearer roken");
    let mut headers = HeaderMap::new();
    headers.insert("x-authorization", HeaderValue::from_static("Bearer roken"));
    headers.insert("cookie", HeaderValue::from_static("Bearer roken"));
    assert_eq!(admission.authenticate(&headers), Err(RelayError::AdmissionDenied));
}

#[test]
fn first_authorization_value_decides() {
    let admission = AdmissionGate::new("Bearer roken");
    let mut wrong_first = HeaderMap::new();
    wrong_first.append("authorization", HeaderValue::from_static("Bearer other"));
    wrong_first.append("authorization", HeaderValue::from_static("Bearer roken"));
    assert_eq!(admission.authenticate(&wrong_first), Err(RelayError::AdmissionDenied));

    let mut right_first = HeaderMap::new();
    right_first.append("authorization", HeaderValue::from_static("Bearer roken"));
    right_first.append("authorization", HeaderValue::from_static("Bearer other"));
    assert_eq!(admission.authenticate(&right_first), Ok(()));
}

#[test]
fn credential_is_compared_byte_for_byte() {
    let admission = AdmissionGate::new("Bearer r\u{f6}ken");
    let mut headers = HeaderMap::new();
    headers.insert(
        "authorization",
        HeaderValue::from_bytes("Bearer r\u{f6}ken".as_bytes()).unwrap(),
    );
    assert_eq!(admission.authenticate(&headers), Ok(()));
    assert!(admission.authorize("Bearer r\u{f6}ken".as_bytes()));
    assert!(!admission.authorize(b"Bearer r\xf6ken"));
    assert!(!admission.authorize(b"Bearer roken"));
}

#[test]
fn authorize_is_exact_equality() {
    let admission = AdmissionGate::new("secret");
    assert!(admission.authorize(b"secret"));
    assert!(!admission.authorize(b"secre"));
    assert!(!admission.authorize(b"secret!"));
    assert!(!admission.authorize(b"Secret"));
    assert!(!admission.authorize(b""));
    assert!(AdmissionGate::new("").authorize(b""));
}

#[test]
fn bytes_equal_compares_length_and_content() {
    assert!(bytes_equal(b"", b""));
    assert!(bytes_equal(b"abc", b"abc"));
    assert!(!bytes_equal(b"abc", b"abd"));
    assert!(!bytes_equal(b"abc", b"ab"));
    assert!(!bytes_equal(b"", b"a"));
}

#[test]
fn only_a_refused_admission_has_a_status() {
    assert_eq!(RelayError::AdmissionDenied.status(), Some(401));
    assert_eq!(RelayError::PeerDisconnected.status(), None);
    assert_eq!(RelayError::SubscriberLagged.status(), None);
    assert_eq!(RelayError::HubUnavailable.status(), None);
}
