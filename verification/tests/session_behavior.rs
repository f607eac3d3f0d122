use omnitak_trust::session::BridgeError;
use omnitak_trust::session::EnrollmentResult;
use omnitak_trust::session::EnrollmentSession;

fn bytes(s: &str) -> Vec<u8> {
    s.as_bytes().to_vec()
}

fn sample_result() -> EnrollmentResult {
    EnrollmentResult {
        cert_pem: bytes("CERT-A"),
        key_pem: bytes("KEY-A"),
        ca_pem: Some(bytes("CA-A")),
        server_host: bytes("host-a.example"),
        server_port: 8443,
    }
}

#[test]
fn init_reports_success() {
    let mut s = EnrollmentSession::new();
    assert_eq!(s.init(), 0);
}

#[test]
fn init_twice_is_observably_identical() {
    let mut once = EnrollmentSession::new();
    assert_eq!(once.init(), 0);
    let mut twice = EnrollmentSession::new();
    assert_eq!(twice.init(), 0);
    assert_eq!(twice.init(), 0);
    let out_once = once.poll_result(Some(16), Some(16), Some(16), Some(16), true);
    let out_twice = twice.poll_result(Some(16), Some(16), Some(16), Some(16), true);
    assert_eq!(out_once.status, out_twice.status);
    assert_eq!(out_once.cert, out_twice.cert);
    let req_once = once.start_enrollment(Some(bytes("https://a")), Some(bytes("u")), Some(bytes("p")), 0);
    let req_twice = twice.start_enrollment(Some(bytes("https://a")), Some(bytes("u")), Some(bytes("p")), 0);
    assert!(req_once.is_ok());
    assert!(req_twice.is_ok());
}

#[test]
fn poll_unavailable_before_any_attempt() {
    let mut s = EnrollmentSession::new();
    let out = s.poll_result(Some(64), Some(64), Some(64), Some(64), true);
    assert_eq!(out.status, -1);
    assert_eq!(out.cert, None);
    assert_eq!(out.key, None);
    assert_eq!(out.ca, None);
    assert_eq!(out.host, None);
    assert_eq!(out.port, None);
    s.init();
    s.clear_result();
    s.init();
    s.clear_result();
    let out = s.poll_result(Some(64), Some(64), Some(64), Some(64), true);
    assert_eq!(out.status, -1);
    assert_eq!(out.cert, None);
}

#[test]
fn start_requires_initialized_session() {
    let s = EnrollmentSession::new();
    let r = s.start_enrollment(Some(bytes("https://tak.example:8443")), Some(bytes("user")), Some(bytes("pw")), 0);
    assert_eq!(r.err(), Some(BridgeError::Uninitialized));
}

#[test]
fn start_rejects_missing_inputs() {
    let mut s = EnrollmentSession::new();
    s.init();
    let r = s.start_enrollment(None, Some(bytes("user")), Some(bytes("pw")), 0);
    assert_eq!(r.err(), Some(BridgeError::InputValidation));
    let r = s.start_enrollment(Some(bytes("https://a")), None, Some(bytes("pw")), 0);
    assert_eq!(r.err(), Some(BridgeError::InputValidation));
    let r = s.start_enrollment(Some(bytes("https://a")), Some(bytes("user")), None, 0);
    assert_eq!(r.err(), Some(BridgeError::InputValidation));
}

#[test]
fn start_rejects_invalid_utf8() {
    let mut s = EnrollmentSession::new();
    s.init();
    let r = s.start_enrollment(Some(vec![0xff, 0xfe, 0x41]), Some(bytes("user")), Some(bytes("pw")), 0);
    assert_eq!(r.err(), Some(BridgeError::InputValidation));
    let r = s.start_enrollment(Some(bytes("https://a")), Some(vec![0xc3, 0x28]), Some(bytes("pw")), 0);
    assert_eq!(r.err(), Some(BridgeError::InputValidation));
}

#[test]
fn start_builds_request_with_default_validity() {
    let mut s = EnrollmentSession::new();
    s.init();
    let req = s
        .start_enrollment(Some(bytes("https://tak.example:8443")), Some(bytes("user")), Some(bytes("pw")), 0)
        .unwrap();
    assert_eq!(req.server_url, bytes("https://tak.example:8443"));
    assert_eq!(req.username, bytes("user"));
    assert_eq!(req.password, bytes("pw"));
    assert_eq!(req.validity_days, None);
    assert_eq!(req.common_name, None);
}

#[test]
fn start_builds_request_with_explicit_validity() {
    let mut s = EnrollmentSession::new();
    s.init();
    let req = s
        .start_enrollment(Some(bytes("https://tak.example:8443")), Some(bytes("user")), Some(bytes("pw")), 30)
        .unwrap();
    assert_eq!(req.validity_days, Some(30));
}

#[test]
fn install_then_poll_returns_all_fields() {
    let mut s = EnrollmentSession::new();
    s.init();
    s.install_outcome(Some(sample_result()));
    let out = s.poll_result(Some(64), Some(64), Some(64), Some(64), true);
    assert_eq!(out.status, 1);
    assert_eq!(out.cert, Some(b"CERT-A\0".to_vec()));
    assert_eq!(out.key, Some(b"KEY-A\0".to_vec()));
    assert_eq!(out.ca, Some(b"CA-A\0".to_vec()));
    assert_eq!(out.host, Some(b"host-a.example\0".to_vec()));
    assert_eq!(out.port, Some(8443));
}

#[test]
fn poll_is_a_pure_snapshot() {
    let mut s = EnrollmentSession::new();
    s.install_outcome(Some(sample_result()));
    let first = s.poll_result(Some(64), None, None, None, false);
    let second = s.poll_result(Some(64), None, None, None, false);
    assert_eq!(first.status, 1);
    assert_eq!(first.cert, second.cert);
}

#[test]
fn truncation_writes_exactly_capacity() {
    let mut s = EnrollmentSession::new();
    let mut r = sample_result();
    r.cert_pem = bytes("ABCDEF");
    s.install_outcome(Some(r));
    let out = s.poll_result(Some(4), None, None, None, false);
    let cert = out.cert.unwrap();
    assert_eq!(cert, b"ABC\0".to_vec());
    assert_eq!(cert.len(), 4);
}

#[test]
fn field_exactly_filling_capacity_is_truncated_for_terminator() {
    let mut s = EnrollmentSession::new();
    let mut r = sample_result();
    r.key_pem = bytes("WXYZ");
    s.install_outcome(Some(r));
    let out = s.poll_result(None, Some(4), None, None, false);
    assert_eq!(out.key, Some(b"WXY\0".to_vec()));
}

#[test]
fn absent_ca_writes_empty_string() {
    let mut s = EnrollmentSession::new();
    let mut r = sample_result();
    r.ca_pem = None;
    s.install_outcome(Some(r));
    let out = s.poll_result(None, None, Some(32), None, false);
    assert_eq!(out.status, 1);
    assert_eq!(out.ca, Some(vec![0u8]));
}

#[test]
fn skipped_and_zero_capacity_buffers_get_nothing() {
    let mut s = EnrollmentSession::new();
    s.install_outcome(Some(sample_result()));
    let out = s.poll_result(None, Some(0), Some(64), None, false);
    assert_eq!(out.status, 1);
    assert_eq!(out.cert, None);
    assert_eq!(out.key, None);
    assert!(out.ca.is_some());
    assert_eq!(out.host, None);
    assert_eq!(out.port, None);
}

#[test]
fn last_writer_wins() {
    let mut s = EnrollmentSession::new();
    s.install_outcome(Some(sample_result()));
    let b = EnrollmentResult {
        cert_pem: bytes("CERT-B"),
        key_pem: bytes("KEY-B"),
        ca_pem: None,
        server_host: bytes("host-b.example"),
        server_port: 9001,
    };
    s.install_outcome(Some(b));
    let out = s.poll_result(Some(64), Some(64), Some(64), Some(64), true);
    assert_eq!(out.status, 1);
    assert_eq!(out.cert, Some(b"CERT-B\0".to_vec()));
    assert_eq!(out.key, Some(b"KEY-B\0".to_vec()));
    assert_eq!(out.ca, Some(vec![0u8]));
    assert_eq!(out.host, Some(b"host-b.example\0".to_vec()));
    assert_eq!(out.port, Some(9001));
}

#[test]
fn failed_attempt_looks_like_no_attempt() {
    let mut s = EnrollmentSession::new();
    s.install_outcome(Some(sample_result()));
    s.install_outcome(None);
    let out = s.poll_result(Some(64), Some(64), Some(64), Some(64), true);
    assert_eq!(out.status, -1);
    assert_eq!(out.cert, None);
    assert_eq!(out.port, None);
}

#[test]
fn clear_empties_the_slot() {
    let mut s = EnrollmentSession::new();
    s.install_outcome(Some(sample_result()));
    s.clear_result();
    let out = s.poll_result(Some(64), None, None, None, false);
    assert_eq!(out.status, -1);
    assert_eq!(out.cert, None);
}

#[test]
fn from_bundle_substitutes_defaults() {
    let r = EnrollmentResult::from_bundle(None, None, None, bytes("h.example"), None);
    assert_eq!(r.cert_pem, Vec::<u8>::new());
    assert_eq!(r.key_pem, Vec::<u8>::new());
    assert_eq!(r.ca_pem, None);
    assert_eq!(r.server_host, bytes("h.example"));
    assert_eq!(r.server_port, 8089);
}

#[test]
fn from_bundle_keeps_present_fields() {
    let r = EnrollmentResult::from_bundle(
        Some(bytes("C")),
        Some(bytes("K")),
        Some(bytes("A")),
        bytes("h.example"),
        Some(1234),
    );
    assert_eq!(r.cert_pem, bytes("C"));
    assert_eq!(r.key_pem, bytes("K"));
    assert_eq!(r.ca_pem, Some(bytes("A")));
    assert_eq!(r.server_port, 1234);
}
