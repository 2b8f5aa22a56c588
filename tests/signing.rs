use pod_cert_ca::codec::{is_expired, parse_certificate, parse_public_key};
use pod_cert_ca::leaf::{leaf_subject_line, sign_certificate, u64_from_be, LEAF_LIFETIME_SECS};
use pod_cert_ca::CaError;

fn now() -> u64 {
    std::time::SystemTime::now()
        .duration_since(std::time::UNIX_EPOCH)
        .unwrap()
        .as_secs()
}

fn make_ca(cn: &str, not_after_year: i32) -> (String, Vec<u8>) {
    let key = rcgen::KeyPair::generate().unwrap();
    let mut params = rcgen::CertificateParams::new(vec![cn.to_string()]).unwrap();
    params.distinguished_name = rcgen::DistinguishedName::new();
    params.distinguished_name.push(rcgen::DnType::CommonName, cn);
    params.is_ca = rcgen::IsCa::Ca(rcgen::BasicConstraints::Unconstrained);
    params.not_before = rcgen::date_time_ymd(2000, 1, 1);
    params.not_after = rcgen::date_time_ymd(not_after_year, 1, 1);
    let cert = params.self_signed(&key).unwrap();
    (cert.pem(), key.serialize_der())
}

fn requester_key() -> Vec<u8> {
    rcgen::KeyPair::generate().unwrap().public_key_der()
}

#[test]
fn leaf_has_issuer_subject_and_day_window() {
    let (ca_pem, ca_key) = make_ca("intermediate-host", 2090);
    let t = now();
    let leaf = sign_certificate(&requester_key(), &ca_pem, &ca_key, "system:pod:ns:pod", [0, 0, 0, 0, 0, 0, 1, 2], t)
        .unwrap();
    let ca = parse_certificate(&ca_pem).unwrap();
    assert_eq!(leaf.info.issuer, ca.info.subject);
    assert_eq!(leaf.info.issuer, "CN=intermediate-host");
    assert_eq!(leaf.info.subject, "CN=system:pod:ns:pod");
    assert_eq!(leaf.info.not_before, t);
    assert_eq!(leaf.info.not_after, t + 86400);
    assert_eq!(LEAF_LIFETIME_SECS, 86400);
    assert_eq!(leaf.serial, 258);
    assert_eq!(leaf.info.serial, vec![1u8, 2]);
}

#[test]
fn serial_is_big_endian_of_the_random_bytes() {
    let (ca_pem, ca_key) = make_ca("ca", 2090);
    let leaf = sign_certificate(&requester_key(), &ca_pem, &ca_key, "x", [0x80, 0, 0, 0, 0, 0, 0, 1], now()).unwrap();
    assert_eq!(leaf.serial, 0x8000_0000_0000_0001);
}

#[test]
fn empty_common_name_gets_placeholder() {
    assert_eq!(leaf_subject_line(""), "CN=pod-certificate");
    assert_eq!(leaf_subject_line("a"), "CN=a");
    let (ca_pem, ca_key) = make_ca("ca", 2090);
    let leaf = sign_certificate(&requester_key(), &ca_pem, &ca_key, "", [7; 8], now()).unwrap();
    assert_eq!(leaf.info.subject, "CN=pod-certificate");
}

#[test]
fn malformed_public_key_is_rejected() {
    let (ca_pem, ca_key) = make_ca("ca", 2090);
    let r = sign_certificate(&[1, 2, 3], &ca_pem, &ca_key, "x", [0; 8], now());
    assert!(matches!(r, Err(CaError::Der(_))));
    assert!(parse_public_key(&[0x30, 0x00]).is_err());
    assert!(parse_public_key(&requester_key()).is_ok());
}

#[test]
fn malformed_ca_certificate_is_rejected() {
    let (_, ca_key) = make_ca("ca", 2090);
    let r = sign_certificate(&requester_key(), "not a certificate", &ca_key, "x", [0; 8], now());
    assert!(matches!(r, Err(CaError::Der(_))));
}

#[test]
fn non_p256_ca_key_is_a_signing_error() {
    let (ca_pem, _) = make_ca("ca", 2090);
    let r = sign_certificate(&requester_key(), &ca_pem, &[0x30, 0x03, 0x02, 0x01, 0x00], "x", [0; 8], now());
    assert!(matches!(r, Err(CaError::Signing(_))));
}

#[test]
fn expiry_fails_closed_and_compares_not_after() {
    let t = now();
    assert!(is_expired("garbage", t));
    assert!(is_expired("", 0));
    let (old_pem, _) = make_ca("old", 2001);
    assert!(is_expired(&old_pem, t));
    let (fresh_pem, _) = make_ca("fresh", 2090);
    assert!(!is_expired(&fresh_pem, t));
    let not_after = parse_certificate(&fresh_pem).unwrap().info.not_after;
    assert!(!is_expired(&fresh_pem, not_after));
    assert!(is_expired(&fresh_pem, not_after + 1));
}

#[test]
fn pem_round_trip_keeps_fields() {
    let (ca_pem, ca_key) = make_ca("ca", 2090);
    let leaf = sign_certificate(&requester_key(), &ca_pem, &ca_key, "system:pod:a:b", [9; 8], now()).unwrap();
    assert!(leaf.pem.starts_with("-----BEGIN CERTIFICATE-----\n"));
    assert!(!leaf.pem.contains('\r'));
    let again = parse_certificate(&leaf.pem).unwrap();
    assert_eq!(again.info.serial, leaf.info.serial);
    assert_eq!(again.info.subject, leaf.info.subject);
    assert_eq!(again.info.issuer, leaf.info.issuer);
    assert_eq!(again.info.not_before, leaf.info.not_before);
    assert_eq!(again.info.not_after, leaf.info.not_after);
}

#[test]
fn p384_ca_key_is_a_signing_error() {
    let (ca_pem, _) = make_ca("ca", 2090);
    let other = rcgen::KeyPair::generate_for(&rcgen::PKCS_ECDSA_P384_SHA384).unwrap();
    let r = sign_certificate(&requester_key(), &ca_pem, &other.serialize_der(), "x", [0; 8], now());
    assert!(matches!(r, Err(CaError::Signing(_))));
}

#[test]
fn window_past_year_9999_is_refused() {
    let (ca_pem, ca_key) = make_ca("ca", 2090);
    let r = sign_certificate(&requester_key(), &ca_pem, &ca_key, "x", [0; 8], 253402300799 - 10);
    assert!(matches!(r, Err(CaError::Der(_))));
    let ok = sign_certificate(&requester_key(), &ca_pem, &ca_key, "x", [0; 8], 253402300799 - 86400);
    assert_eq!(ok.unwrap().info.not_after, 253402300799);
}

#[test]
fn eight_bytes_read_most_significant_first() {
    assert_eq!(u64_from_be([0, 0, 0, 0, 0, 0, 1, 2]), 258);
    assert_eq!(u64_from_be([0xff; 8]), u64::MAX);
    assert_eq!(u64_from_be([1, 0, 0, 0, 0, 0, 0, 0]), 1 << 56);
}
