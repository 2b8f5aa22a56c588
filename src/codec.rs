use vstd::prelude::*;
use der::DecodePem;
use der::Decode;
use der::EncodePem;
use pkcs8::DecodePrivateKey;
use std::str::FromStr;
use x509_cert::builder::{Builder, CertificateBuilder, Profile};
use x509_cert::serial_number::SerialNumber;

use crate::error::CaError;

verus! {

#[verifier::external_type_specification]
#[verifier::external_body]
pub struct ExRdnSequence(x509_cert::name::RdnSequence);

#[verifier::external_type_specification]
#[verifier::external_body]
pub struct ExAny(der::asn1::Any);

#[verifier::external_type_specification]
#[verifier::external_body]
pub struct ExBitString(der::asn1::BitString);

#[verifier::external_type_specification]
#[verifier::external_body]
#[verifier::reject_recursive_types(Params)]
#[verifier::reject_recursive_types(Key)]
pub struct ExSubjectPublicKeyInfo<Params, Key>(spki::SubjectPublicKeyInfo<Params, Key>);

#[verifier::external_type_specification]
#[verifier::external_body]
pub struct ExValidity(x509_cert::time::Validity);

/// The last instant an X.509 time can encode (the end of the year 9999).
pub const MAX_UNIX_TIME: u64 = 253402300799;

/// The unsigned integer that bytes denote, most significant first.
pub open spec fn be_value(b: Seq<u8>) -> nat
    decreases b.len(),
{
    if b.len() == 0 {
        0
    } else {
        be_value(b.drop_last()) * 256 + b.last() as nat
    }
}

/// What the logic reads of an X.509 certificate, as plain values.
pub struct CertificateInfo {
    /// Content octets of the serial number.
    pub serial: Vec<u8>,
    /// The issuer name in RFC 4514 text form.
    pub issuer: String,
    /// The subject name in RFC 4514 text form.
    pub subject: String,
    /// Start of the validity window, in seconds since the Unix epoch.
    pub not_before: u64,
    /// End of the validity window, in seconds since the Unix epoch.
    pub not_after: u64,
}

/// Mathematical model of [`CertificateInfo`].
pub struct CertificateView {
    pub serial: Seq<u8>,
    pub issuer: Seq<char>,
    pub subject: Seq<char>,
    pub not_before: int,
    pub not_after: int,
}

impl View for CertificateInfo {
    type V = CertificateView;

    open spec fn view(&self) -> CertificateView {
        CertificateView {
            serial: self.serial@,
            issuer: self.issuer@,
            subject: self.subject@,
            not_before: self.not_before as int,
            not_after: self.not_after as int,
        }
    }
}

/// A distinguished name together with its RFC 4514 text form.
pub struct DistinguishedName {
    name: x509_cert::name::RdnSequence,
    text: String,
}

impl DistinguishedName {
    pub closed spec fn text_view(&self) -> Seq<char> {
        self.text@
    }

    /// The RFC 4514 text form of the name.
    pub fn text(&self) -> (r: &str)
        ensures
            r@ == self.text_view(),
    {
        self.text.as_str()
    }
}

/// A validity window as the certificate encodes it, with its two ends in
/// seconds since the Unix epoch.
pub struct ValidityWindow {
    validity: x509_cert::time::Validity,
    not_before: u64,
    not_after: u64,
}

impl ValidityWindow {
    /// Start of the window, in seconds since the Unix epoch.
    pub closed spec fn start(&self) -> int {
        self.not_before as int
    }

    /// End of the window, in seconds since the Unix epoch.
    pub closed spec fn end(&self) -> int {
        self.not_after as int
    }
}

/// A decoded certificate: its fields, and its subject name ready to serve as
/// the issuer of certificates signed under it.
pub struct ParsedCertificate {
    pub info: CertificateInfo,
    pub subject: DistinguishedName,
}

impl ParsedCertificate {
    pub open spec fn wf(&self) -> bool {
        self.subject.text_view() == self.info.subject@
    }
}

/// The fields of the certificate that a PEM text holds, or `None` where the
/// text is not a PEM-armoured DER X.509 certificate.
pub uninterp spec fn pem_certificate(pem: Seq<char>) -> Option<CertificateView>;

/// Whether the bytes are a DER-encoded SubjectPublicKeyInfo.
pub uninterp spec fn spki_accepts(der: Seq<u8>) -> bool;

/// Whether the bytes are a PKCS#8 DER private key of the P-256 curve.
pub uninterp spec fn p256_key_accepts(der: Seq<u8>) -> bool;

/// The RFC 4514 text form of the name that a string describes, or `None`
/// where the string is not a distinguished name.
pub uninterp spec fn dn_rendering(s: Seq<char>) -> Option<Seq<char>>;

/// Relies on `x509_cert::Certificate::from_pem` (der's `DecodePem`): the
/// fields read from the decoded certificate depend on the text alone.
#[verifier::external_body]
pub(crate) fn decode_certificate_pem(pem: &str) -> (r: Result<ParsedCertificate, der::Error>)
    ensures
        match r {
            Ok(p) => pem_certificate(pem@) == Some(p.info@) && p.wf(),
            Err(_) => pem_certificate(pem@) is None,
        },
{
    let tbs = x509_cert::Certificate::from_pem(pem)?.tbs_certificate;
    let subject = tbs.subject.to_string();
    Ok(ParsedCertificate {
        info: CertificateInfo {
            serial: tbs.serial_number.as_bytes().to_vec(),
            issuer: tbs.issuer.to_string(),
            subject: subject.clone(),
            not_before: tbs.validity.not_before.to_unix_duration().as_secs(),
            not_after: tbs.validity.not_after.to_unix_duration().as_secs(),
        },
        subject: DistinguishedName { name: tbs.subject, text: subject },
    })
}

/// Relies on `SubjectPublicKeyInfoOwned::from_der`: it accepts or rejects by
/// the bytes alone.
#[verifier::external_body]
pub(crate) fn decode_spki(der: &[u8]) -> (r: Result<spki::SubjectPublicKeyInfoOwned, der::Error>)
    ensures
        r is Ok <==> spki_accepts(der@),
{
    spki::SubjectPublicKeyInfoOwned::from_der(der)
}

/// Relies on `RdnSequence::from_str` and its `Display`: the name, and so its
/// text form, depend on the string alone.
#[verifier::external_body]
pub(crate) fn parse_name(s: &str) -> (r: Option<DistinguishedName>)
    ensures
        match r {
            Some(n) => dn_rendering(s@) == Some(n.text_view()),
            None => dn_rendering(s@) is None,
        },
{
    let name = x509_cert::name::RdnSequence::from_str(s).ok()?;
    Some(DistinguishedName { text: name.to_string(), name })
}

/// Relies on `Time::try_from(SystemTime)` of x509_cert (der's
/// `DateTime::from_unix_duration`): it accepts exactly the instants up to the
/// end of the year 9999, and each end of the window is the given instant.
#[verifier::external_body]
pub(crate) fn validity_window(not_before: u64, not_after: u64) -> (r: Result<ValidityWindow, der::Error>)
    requires
        not_before <= MAX_UNIX_TIME + 86400,
        not_after <= MAX_UNIX_TIME + 86400,
    ensures
        r is Ok <==> (not_before <= MAX_UNIX_TIME && not_after <= MAX_UNIX_TIME),
        r matches Ok(w) ==> w.start() == not_before && w.end() == not_after,
{
    let start = std::time::UNIX_EPOCH + std::time::Duration::from_secs(not_before);
    let end = std::time::UNIX_EPOCH + std::time::Duration::from_secs(not_after);
    let validity = x509_cert::time::Validity {
        not_before: x509_cert::time::Time::try_from(start)?,
        not_after: x509_cert::time::Time::try_from(end)?,
    };
    Ok(ValidityWindow { validity, not_before, not_after })
}

/// Relies on x509_cert's `CertificateBuilder` with the leaf profile and the
/// key-usage choices given, over a P-256 key read by
/// `SigningKey::from_pkcs8_der` (the only step that can fail on decoded
/// inputs), signing ECDSA with DER signatures, and on `to_pem` with LF or CRLF
/// line endings: the certificate carries the issuer, subject, serial and
/// window it was given.
#[verifier::external_body]
pub(crate) fn build_leaf_pem(
    issuer: &DistinguishedName,
    subject: &DistinguishedName,
    serial: u64,
    window: &ValidityWindow,
    spki: spki::SubjectPublicKeyInfoOwned,
    ca_key_der: &[u8],
    key_agreement: bool,
    key_encipherment: bool,
    lf: bool,
) -> (r: Result<String, CaError>)
    ensures
        r is Ok <==> p256_key_accepts(ca_key_der@),
        !p256_key_accepts(ca_key_der@) ==> r matches Err(CaError::Signing(_)),
        r matches Ok(pem) ==> (pem_certificate(pem@) matches Some(c) && c.issuer == issuer.text_view()
            && c.subject == subject.text_view() && c.not_before == window.start()
            && c.not_after == window.end() && be_value(c.serial) == serial as nat),
        r matches Ok(pem) ==> (lf ==> !pem@.contains('\r')),
{
    let key = ecdsa::SigningKey::<p256::NistP256>::from_pkcs8_der(ca_key_der)
        .map_err(|e| CaError::Signing(e.to_string()))?;
    let profile = Profile::Leaf {
        issuer: issuer.name.clone(),
        enable_key_agreement: key_agreement,
        enable_key_encipherment: key_encipherment,
    };
    let builder = CertificateBuilder::new(profile, SerialNumber::from(serial), window.validity, subject.name.clone(), spki, &key)
        .map_err(|e| CaError::Signing(e.to_string()))?;
    let cert = builder.build::<p256::ecdsa::DerSignature>().map_err(|e| CaError::Signing(e.to_string()))?;
    let ending = if lf { der::pem::LineEnding::LF } else { der::pem::LineEnding::CRLF };
    cert.to_pem(ending).map_err(CaError::Der)
}

/// Whether a certificate in PEM form counts as expired at `now`: one that
/// does not decode always does.
pub open spec fn expired_at(pem: Seq<char>, now: int) -> bool {
    match pem_certificate(pem) {
        Some(c) => c.not_after < now,
        None => true,
    }
}

/// Decodes a PEM certificate into its fields.
pub fn parse_certificate(pem: &str) -> (r: Result<ParsedCertificate, CaError>)
    ensures
        match r {
            Ok(p) => pem_certificate(pem@) == Some(p.info@) && p.wf(),
            Err(e) => pem_certificate(pem@) is None && e is Der,
        },
{
    match decode_certificate_pem(pem) {
        Ok(p) => Ok(p),
        Err(e) => Err(CaError::Der(e)),
    }
}

/// Whether the certificate `pem` is expired at `now` (seconds since the
/// epoch); fails closed on text that does not decode.
pub fn is_expired(pem: &str, now: u64) -> (r: bool)
    ensures
        r == expired_at(pem@, now as int),
{
    match decode_certificate_pem(pem) {
        Ok(p) => p.info.not_after < now,
        Err(_) => true,
    }
}

/// Interprets caller-supplied bytes strictly as a DER SubjectPublicKeyInfo.
pub fn parse_public_key(der: &[u8]) -> (r: Result<spki::SubjectPublicKeyInfoOwned, CaError>)
    ensures
        r is Ok <==> spki_accepts(der@),
        r matches Err(e) ==> e is Der,
{
    match decode_spki(der) {
        Ok(k) => Ok(k),
        Err(e) => Err(CaError::Der(e)),
    }
}

} // verus!
