use vstd::prelude::*;

use crate::codec::{expired_at, is_expired, p256_key_accepts, spki_accepts};
use crate::controller::{pod_common_name, request_common_name, CertificateRequest};
use crate::error::CaError;
use crate::leaf::{
    leaf_fits, sign_certificate as sign_leaf, signable, subject_renders, SignedLeaf,
    LEAF_LIFETIME_SECS, MAX_UNIX_TIME,
};

verus! {

#[verifier::external_type_specification]
#[verifier::external_body]
pub struct ExKeyPair(rcgen::KeyPair);

#[verifier::external_type_specification]
#[verifier::external_body]
pub struct ExCertificateParams(rcgen::CertificateParams);

/// Secrets-engine mount of the backend that signs the intermediate CA.
pub const PKI_MOUNT: &'static str = "pki";

/// Lifetime requested for the intermediate CA: 7 days.
pub const INTERMEDIATE_TTL: &'static str = "168h";

/// The intermediate CA's material: its certificate and its private key.
pub struct CACertificate {
    /// PEM of the CA certificate, a chain of one.
    pub certificate_pem: String,
    /// The CA's P-256 private key as PKCS#8 DER.
    pub key_der: Vec<u8>,
}

impl CACertificate {
    /// Whether the CA certificate is expired at `now`; one that does not
    /// decode counts as expired.
    pub fn is_expired(&self, now: u64) -> (r: bool)
        ensures
            r == expired_at(self.certificate_pem@, now as int),
    {
        is_expired(self.certificate_pem.as_str(), now)
    }
}

/// A fresh key pair generated for a CA, with its PKCS#8 DER form.
pub struct GeneratedKey {
    key_pair: rcgen::KeyPair,
    pkcs8_der: Vec<u8>,
}

/// An issuance under way: the new key, and the signing request to send to
/// the backend.
pub struct PendingIssuance {
    pub common_name: String,
    pub csr_pem: String,
    pub key_der: Vec<u8>,
}

/// Relies on `rcgen::KeyPair::generate` (a P-256 key) and on its
/// `serialize_der`, which cannot panic for a key generated locally.
#[verifier::external_body]
fn generate_ca_key() -> (r: Result<GeneratedKey, rcgen::Error>) {
    let key_pair = rcgen::KeyPair::generate()?;
    Ok(GeneratedKey { pkcs8_der: key_pair.serialize_der(), key_pair })
}

/// Relies on `rcgen::CertificateParams::new`: parameters for the given
/// subject alternative names.
#[verifier::external_body]
fn csr_params(subject_alt_names: Vec<String>) -> (r: Result<rcgen::CertificateParams, rcgen::Error>) {
    rcgen::CertificateParams::new(subject_alt_names)
}

/// Relies on `rcgen::DistinguishedName::push`: the subject of `params`
/// becomes a name of one attribute, the given common name.
#[verifier::external_body]
fn set_subject_common_name(params: &mut rcgen::CertificateParams, common_name: &str) {
    let mut name = rcgen::DistinguishedName::new();
    name.push(rcgen::DnType::CommonName, common_name);
    params.distinguished_name = name;
}

/// Relies on `CertificateParams::serialize_request` and the request's `pem`.
#[verifier::external_body]
fn csr_pem(params: &rcgen::CertificateParams, key: &GeneratedKey) -> (r: Result<String, rcgen::Error>) {
    params.serialize_request(&key.key_pair)?.pem()
}

/// Relies on `gethostname::gethostname`; `None` where the name is not UTF-8.
#[verifier::external_body]
fn host_name() -> (r: Option<String>) {
    gethostname::gethostname().into_string().ok()
}

/// Relies on `rand::random`: eight bytes from a cryptographically secure
/// generator.
#[verifier::external_body]
fn random_serial_bytes() -> (r: [u8; 8]) {
    rand::random::<[u8; 8]>()
}

/// Mathematical model of a held CA.
pub struct CaView {
    pub certificate_pem: Seq<char>,
    pub key_der: Seq<u8>,
}

impl View for CACertificate {
    type V = CaView;

    open spec fn view(&self) -> CaView {
        CaView { certificate_pem: self.certificate_pem@, key_der: self.key_der@ }
    }
}

/// The single in-memory intermediate CA, absent until first issued.
///
/// The holder only decides; callers that share it serialise issuance under
/// exclusive access and ask `needs_issuance` again once they hold it.
/// Renewal of an expired CA is a fresh issuance with a new key pair; while no
/// CA valid now is held, signing fails rather than use an expired one.
pub struct IntermediateCA {
    ca: Option<CACertificate>,
}

/// Whether a holder in state `ca` must issue a CA before signing at `now`.
pub open spec fn issuance_needed(ca: Option<CaView>, now: int) -> bool {
    match ca {
        Some(c) => expired_at(c.certificate_pem, now),
        None => true,
    }
}

/// Whether a holder in state `ca` owes a leaf for `pubkey` and common name
/// `cn` at `now`: it holds a CA valid now with a P-256 key, and the leaf
/// inputs are well formed.
pub open spec fn can_sign(ca: Option<CaView>, pubkey: Seq<u8>, cn: Seq<char>, now: int) -> bool {
    &&& !issuance_needed(ca, now)
    &&& ca matches Some(c) && p256_key_accepts(c.key_der)
    &&& spki_accepts(pubkey)
    &&& subject_renders(cn)
    &&& now + LEAF_LIFETIME_SECS <= MAX_UNIX_TIME
}

impl View for IntermediateCA {
    type V = Option<CaView>;

    closed spec fn view(&self) -> Option<CaView> {
        match self.ca {
            Some(c) => Some(c@),
            None => None,
        }
    }
}

impl IntermediateCA {
    /// A holder with no CA yet.
    pub fn new() -> (r: Self)
        ensures
            r@ is None,
    {
        IntermediateCA { ca: None }
    }

    /// The CA held now, if any.
    pub fn current(&self) -> (r: Option<&CACertificate>)
        ensures
            match r {
                Some(c) => self@ == Some(c@),
                None => self@ is None,
            },
    {
        self.ca.as_ref()
    }

    /// Whether a CA must be issued (absent) or renewed (expired at `now`)
    /// before signing.
    pub fn needs_issuance(&self, now: u64) -> (r: bool)
        ensures
            r == issuance_needed(self@, now as int),
    {
        match &self.ca {
            Some(c) => c.is_expired(now),
            None => true,
        }
    }

    /// Prepares an issuance: a fresh P-256 key pair and a signing request
    /// whose subject is the common name alone and whose one alternative name
    /// is that name, this host's name. Nothing is held until
    /// `complete_issuance`.
    pub fn prepare_issuance() -> (r: Result<PendingIssuance, CaError>)
        ensures
            r matches Err(e) ==> (e is CSRCreate || e == CaError::MissingObjectKey("hostname")),
    {
        let key = match generate_ca_key() {
            Ok(k) => k,
            Err(e) => return Err(CaError::CSRCreate(e)),
        };
        let common_name = match host_name() {
            Some(n) => n,
            None => return Err(CaError::MissingObjectKey("hostname")),
        };
        let mut alt_names: Vec<String> = Vec::new();
        alt_names.push(common_name.clone());
        let mut params = match csr_params(alt_names) {
            Ok(p) => p,
            Err(e) => return Err(CaError::CSRCreate(e)),
        };
        set_subject_common_name(&mut params, common_name.as_str());
        let csr = match csr_pem(&params, &key) {
            Ok(c) => c,
            Err(e) => return Err(CaError::CSRCreate(e)),
        };
        Ok(PendingIssuance { common_name, csr_pem: csr, key_der: key.pkcs8_der })
    }

    /// Installs the certificate that the backend signed for `pending`,
    /// replacing whatever was held.
    pub fn complete_issuance(&mut self, pending: PendingIssuance, certificate_pem: String)
        ensures
            final(self)@ == Some(CaView { certificate_pem: certificate_pem@, key_der: pending.key_der@ }),
    {
        self.ca = Some(CACertificate { certificate_pem, key_der: pending.key_der });
    }

    /// Signs a leaf for the request's pod with common name
    /// `system:pod:<namespace>:<pod>`, under the held CA; fails while no CA
    /// valid at `now` is held rather than sign with an expired one.
    pub fn sign_certificate(&self, request: &CertificateRequest, now: u64) -> (r: Result<SignedLeaf, CaError>)
        requires
            now <= MAX_UNIX_TIME,
        ensures
            issuance_needed(self@, now as int) ==> r == Err::<SignedLeaf, CaError>(CaError::CaUnavailable),
            !issuance_needed(self@, now as int) && !spki_accepts(request.pkix_public_key@) ==> (r matches Err(e) && e is Der),
            can_sign(self@, request.pkix_public_key@, pod_common_name(request.namespace, request.pod_name@), now as int)
                <==> r is Ok,
            !issuance_needed(self@, now as int) && spki_accepts(request.pkix_public_key@)
                && subject_renders(pod_common_name(request.namespace, request.pod_name@))
                && now + LEAF_LIFETIME_SECS <= MAX_UNIX_TIME
                && (self@ matches Some(c) && !p256_key_accepts(c.key_der))
                ==> (r matches Err(e) && e is Signing),
            r matches Ok(leaf) ==> (self@ matches Some(ca) && !issuance_needed(self@, now as int)
                && spki_accepts(request.pkix_public_key@)
                && leaf_fits(leaf, ca.certificate_pem, pod_common_name(request.namespace, request.pod_name@), leaf.serial as nat, now as int)),
    {
        let ca = match &self.ca {
            Some(c) => c,
            None => return Err(CaError::CaUnavailable),
        };
        if ca.is_expired(now) {
            return Err(CaError::CaUnavailable);
        }
        let cn = request_common_name(request);
        let serial = random_serial_bytes();
        sign_leaf(request.pkix_public_key.as_slice(), ca.certificate_pem.as_str(), ca.key_der.as_slice(), cn.as_str(), serial, now)
    }
}

/// Once an issuance has installed a certificate valid at `now`, a caller that
/// checks again under exclusive access finds nothing to issue: of any number
/// of callers that saw the CA absent or expired, only the first to gain
/// exclusive access calls the backend, and all then sign under the same CA.
pub proof fn lemma_issuance_settles(after: IntermediateCA, pending: PendingIssuance, certificate_pem: String, now: int)
    requires
        after@ == Some(CaView { certificate_pem: certificate_pem@, key_der: pending.key_der@ }),
        !expired_at(certificate_pem@, now),
    ensures
        !issuance_needed(after@, now),
        after@ matches Some(ca) && ca.certificate_pem == certificate_pem@,
{
}

} // verus!
