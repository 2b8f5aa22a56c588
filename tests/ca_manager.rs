use pod_cert_ca::codec::parse_certificate;
use pod_cert_ca::controller::CertificateRequest;
use pod_cert_ca::intermediate_ca::{IntermediateCA, INTERMEDIATE_TTL, PKI_MOUNT};
use pod_cert_ca::CaError;

fn now() -> u64 {
    std::time::SystemTime::now()
        .duration_since(std::time::UNIX_EPOCH)
        .unwrap()
        .as_secs()
}

/// Plays the backend: certifies the pending key under the requested name.
fn backend_sign(key_der: &[u8], cn: &str, not_after_year: i32) -> String {
    let key = rcgen::KeyPair::try_from(key_der).unwrap();
    let mut params = rcgen::CertificateParams::new(vec![cn.to_string()]).unwrap();
    params.distinguished_name = rcgen::DistinguishedName::new();
    params.distinguished_name.push(rcgen::DnType::CommonName, cn);
    params.is_ca = rcgen::IsCa::Ca(rcgen::BasicConstraints::Unconstrained);
    params.not_before = rcgen::date_time_ymd(2000, 1, 1);
    params.not_after = rcgen::date_time_ymd(not_after_year, 1, 1);
    params.self_signed(&key).unwrap().pem()
}

fn request(ns: Option<&str>, pod: &str) -> CertificateRequest {
    CertificateRequest {
        name: Some("req-1".to_string()),
        namespace: ns.map(|s| s.to_string()),
        pod_uid: "uid-1".to_string(),
        pod_name: pod.to_string(),
        pkix_public_key: rcgen::KeyPair::generate().unwrap().public_key_der(),
        max_expiration_seconds: Some(86400),
        status: None,
    }
}

#[test]
fn absent_ca_needs_issuance_and_refuses_to_sign() {
    let ca = IntermediateCA::new();
    assert!(ca.current().is_none());
    assert!(ca.needs_issuance(now()));
    let r = ca.sign_certificate(&request(Some("demo"), "worker-1"), now());
    assert!(matches!(r, Err(CaError::CaUnavailable)));
}

#[test]
fn bootstrap_then_sign_for_pod() {
    assert_eq!(PKI_MOUNT, "pki");
    assert_eq!(INTERMEDIATE_TTL, "168h");
    let mut ca = IntermediateCA::new();
    let pending = IntermediateCA::prepare_issuance().unwrap();
    assert!(pending.csr_pem.starts_with("-----BEGIN CERTIFICATE REQUEST-----"));
    let cert_pem = backend_sign(&pending.key_der, &pending.common_name, 2090);
    ca.complete_issuance(pending, cert_pem.clone());
    assert_eq!(ca.current().unwrap().certificate_pem, cert_pem);
    let t = now();
    assert!(!ca.needs_issuance(t));
    let leaf = ca.sign_certificate(&request(Some("demo"), "worker-1"), t).unwrap();
    let intermediate = parse_certificate(&cert_pem).unwrap();
    assert_eq!(leaf.info.subject, "CN=system:pod:demo:worker-1");
    assert_eq!(leaf.info.issuer, intermediate.info.subject);
    assert_eq!(leaf.info.not_after - leaf.info.not_before, 86400);
    assert_eq!(leaf.info.not_before, t);
}

#[test]
fn missing_namespace_signs_under_default() {
    let mut ca = IntermediateCA::new();
    let pending = IntermediateCA::prepare_issuance().unwrap();
    let cert_pem = backend_sign(&pending.key_der, "host", 2090);
    ca.complete_issuance(pending, cert_pem);
    let leaf = ca.sign_certificate(&request(None, "p"), now()).unwrap();
    assert_eq!(leaf.info.subject, "CN=system:pod:default:p");
}

#[test]
fn expired_ca_is_renewed_not_used() {
    let mut ca = IntermediateCA::new();
    let pending = IntermediateCA::prepare_issuance().unwrap();
    let old = backend_sign(&pending.key_der, "host", 2001);
    ca.complete_issuance(pending, old);
    let t = now();
    assert!(ca.current().unwrap().is_expired(t));
    assert!(ca.needs_issuance(t));
    assert!(matches!(ca.sign_certificate(&request(Some("a"), "b"), t), Err(CaError::CaUnavailable)));
    let pending = IntermediateCA::prepare_issuance().unwrap();
    let fresh = backend_sign(&pending.key_der, "host", 2090);
    ca.complete_issuance(pending, fresh);
    assert!(!ca.needs_issuance(t));
    assert!(ca.sign_certificate(&request(Some("a"), "b"), t).is_ok());
}

#[test]
fn second_caller_after_install_issues_nothing() {
    // Two callers saw the CA absent; the first installs, the second checks
    // again under exclusive access and finds nothing to do.
    let mut ca = IntermediateCA::new();
    let t = now();
    let first_saw = ca.needs_issuance(t);
    let second_saw = ca.needs_issuance(t);
    assert!(first_saw && second_saw);
    let pending = IntermediateCA::prepare_issuance().unwrap();
    let cert_pem = backend_sign(&pending.key_der, "host", 2090);
    ca.complete_issuance(pending, cert_pem.clone());
    assert!(!ca.needs_issuance(t));
    assert_eq!(ca.current().unwrap().certificate_pem, cert_pem);
}
