use vstd::prelude::*;
use vstd::string::*;

use crate::codec::{
    build_leaf_pem, decode_certificate_pem, decode_spki, parse_name, pem_certificate,
    spki_accepts, dn_rendering, validity_window, CertificateInfo, p256_key_accepts,
};
pub use crate::codec::{be_value, MAX_UNIX_TIME};
use crate::error::CaError;

verus! {

/// Lifetime of every leaf certificate: 24 hours.
pub const LEAF_LIFETIME_SECS: u64 = 86400;

/// Leaves may be used for key agreement: never.
pub const LEAF_KEY_AGREEMENT: bool = false;

/// Leaves may be used for key encipherment: never.
pub const LEAF_KEY_ENCIPHERMENT: bool = false;

/// 256 to the power `i`, for the lengths of a `u64`.
spec fn byte_limit(i: int) -> int {
    if i == 0 {
        1
    } else if i == 1 {
        0x100
    } else if i == 2 {
        0x1_0000
    } else if i == 3 {
        0x100_0000
    } else if i == 4 {
        0x1_0000_0000
    } else if i == 5 {
        0x100_0000_0000
    } else if i == 6 {
        0x1_0000_0000_0000
    } else if i == 7 {
        0x100_0000_0000_0000
    } else {
        0x1_0000_0000_0000_0000
    }
}

/// Reads eight bytes as an unsigned integer, most significant first.
pub fn u64_from_be(b: [u8; 8]) -> (r: u64)
    ensures
        r as nat == be_value(b@),
{
    let mut v: u64 = 0;
    let mut i: usize = 0;
    while i < 8
        invariant
            0 <= i <= 8,
            b@.len() == 8,
            v as nat == be_value(b@.take(i as int)),
            (v as int) < byte_limit(i as int),
        decreases 8 - i,
    {
        assert(b@.take(i as int + 1).drop_last() =~= b@.take(i as int));
        v = v * 256 + b[i] as u64;
        i = i + 1;
    }
    assert(b@.take(8) =~= b@);
    v
}

/// The subject line of a leaf for common name `cn`.
pub open spec fn subject_line(cn: Seq<char>) -> Seq<char> {
    if cn.len() == 0 {
        "CN=pod-certificate"@
    } else {
        "CN="@ + cn
    }
}

/// Builds the subject line `CN=<cn>`, with a placeholder for an empty name.
pub fn leaf_subject_line(cn: &str) -> (r: String)
    ensures
        r@ == subject_line(cn@),
{
    if cn.is_empty() {
        String::from_str("CN=pod-certificate")
    } else {
        String::from_str("CN=").concat(cn)
    }
}

/// A signed leaf certificate: its PEM text, its fields, and the serial number
/// it was given.
pub struct SignedLeaf {
    pub pem: String,
    pub info: CertificateInfo,
    pub serial: u64,
}

/// Whether a subject can be formed for common name `cn`: its own line
/// parses, or else the placeholder does.
pub open spec fn subject_renders(cn: Seq<char>) -> bool {
    dn_rendering(subject_line(cn)) is Some || dn_rendering("CN=pod-certificate"@) is Some
}

/// The inputs on which signing is owed to succeed.
pub open spec fn signable(pubkey: Seq<u8>, ca_pem: Seq<char>, ca_key: Seq<u8>, cn: Seq<char>, now: int) -> bool {
    &&& spki_accepts(pubkey)
    &&& pem_certificate(ca_pem) is Some
    &&& p256_key_accepts(ca_key)
    &&& subject_renders(cn)
    &&& now + LEAF_LIFETIME_SECS <= MAX_UNIX_TIME
}

/// What a leaf signed at `now` under the CA `ca_pem`, for common name `cn`
/// and with serial `serial`, holds.
pub open spec fn leaf_fits(leaf: SignedLeaf, ca_pem: Seq<char>, cn: Seq<char>, serial: nat, now: int) -> bool {
    &&& pem_certificate(leaf.pem@) == Some(leaf.info@)
    &&& pem_certificate(ca_pem) matches Some(ca) && leaf.info.issuer@ == ca.subject
    &&& match dn_rendering(subject_line(cn)) {
        Some(t) => leaf.info.subject@ == t,
        None => dn_rendering("CN=pod-certificate"@) == Some(leaf.info.subject@),
    }
    &&& leaf.info.not_before == now
    &&& leaf.info.not_after == now + LEAF_LIFETIME_SECS
    &&& leaf.serial == serial
    &&& be_value(leaf.info.serial@) == serial
    &&& !leaf.pem@.contains('\r')
}

/// Signs a leaf certificate for the public key `pubkey` (DER
/// SubjectPublicKeyInfo) under the CA certificate `ca_cert_pem` and its
/// PKCS#8 P-256 key `ca_key_der`, valid for 24 hours from `now`, with the
/// leaf profile (no key agreement, no key encipherment), as PEM with LF line
/// endings.
pub fn sign_certificate(
    pubkey: &[u8],
    ca_cert_pem: &str,
    ca_key_der: &[u8],
    cn: &str,
    serial_bytes: [u8; 8],
    now: u64,
) -> (r: Result<SignedLeaf, CaError>)
    requires
        now <= MAX_UNIX_TIME,
    ensures
        signable(pubkey@, ca_cert_pem@, ca_key_der@, cn@, now as int) <==> r is Ok,
        !spki_accepts(pubkey@) ==> (r matches Err(e) && e is Der),
        spki_accepts(pubkey@) && pem_certificate(ca_cert_pem@) is None ==> (r matches Err(e) && e is Der),
        spki_accepts(pubkey@) && pem_certificate(ca_cert_pem@) is Some && subject_renders(cn@)
            && now + LEAF_LIFETIME_SECS > MAX_UNIX_TIME ==> (r matches Err(e) && e is Der),
        spki_accepts(pubkey@) && pem_certificate(ca_cert_pem@) is Some && subject_renders(cn@)
            && now + LEAF_LIFETIME_SECS <= MAX_UNIX_TIME && !p256_key_accepts(ca_key_der@)
            ==> (r matches Err(e) && e is Signing),
        r matches Ok(leaf) ==> leaf_fits(leaf, ca_cert_pem@, cn@, be_value(serial_bytes@), now as int),
{
    let spki = match decode_spki(pubkey) {
        Ok(k) => k,
        Err(e) => return Err(CaError::Der(e)),
    };
    let ca = match decode_certificate_pem(ca_cert_pem) {
        Ok(p) => p,
        Err(e) => return Err(CaError::Der(e)),
    };
    let line = leaf_subject_line(cn);
    let subject = match parse_name(line.as_str()) {
        Some(n) => n,
        None => match parse_name("CN=pod-certificate") {
            Some(n) => n,
            None => return Err(CaError::Signing(String::from_str("placeholder subject rejected"))),
        },
    };
    let serial = u64_from_be(serial_bytes);
    let window = match validity_window(now, now + LEAF_LIFETIME_SECS) {
        Ok(w) => w,
        Err(e) => return Err(CaError::Der(e)),
    };
    let pem = build_leaf_pem(
        &ca.subject,
        &subject,
        serial,
        &window,
        spki,
        ca_key_der,
        LEAF_KEY_AGREEMENT,
        LEAF_KEY_ENCIPHERMENT,
        true,
    )?;
    let info = match decode_certificate_pem(pem.as_str()) {
        Ok(p) => p.info,
        Err(e) => return Err(CaError::Der(e)),
    };
    Ok(SignedLeaf { pem, info, serial })
}

/// An empty common name gives the placeholder subject `CN=pod-certificate`.
pub proof fn lemma_empty_name_placeholder(cn: Seq<char>)
    requires
        cn.len() == 0,
    ensures
        subject_line(cn) == "CN=pod-certificate"@,
{
}

/// Encoding a signed leaf to PEM and decoding it again gives back the serial
/// number, issuer, subject and validity window that it was signed with.
pub proof fn lemma_leaf_pem_round_trip(leaf: SignedLeaf, ca_pem: Seq<char>, cn: Seq<char>, serial: nat, now: int)
    requires
        leaf_fits(leaf, ca_pem, cn, serial, now),
    ensures
        pem_certificate(leaf.pem@) matches Some(c) && be_value(c.serial) == serial
            && c.serial == leaf.info.serial@ && c.subject == leaf.info.subject@
            && (pem_certificate(ca_pem) matches Some(ca) && c.issuer == ca.subject)
            && c.not_before == now && c.not_after == now + LEAF_LIFETIME_SECS,
{
}

} // verus!
