use vstd::prelude::*;
use vstd::string::*;

use crate::error::CaError;
use crate::codec::spki_accepts;
use crate::intermediate_ca::{can_sign, issuance_needed, IntermediateCA};
use crate::codec::p256_key_accepts;
use crate::leaf::{subject_renders, LEAF_LIFETIME_SECS};
use crate::leaf::{leaf_fits, SignedLeaf, MAX_UNIX_TIME};

verus! {

/// Delay before a request is looked at again after a success.
pub const SUCCESS_REQUEUE_SECS: u64 = 300;

/// Delay before a request is retried after a failure.
pub const ERROR_REQUEUE_SECS: u64 = 5;

/// How long before the requester's budget runs out a refresh begins.
pub const REFRESH_LEAD_SECS: i64 = 3600;

/// One condition record of a request's status.
pub struct Condition {
    pub type_: String,
    pub status: String,
    pub reason: String,
    pub message: String,
    /// Seconds since the Unix epoch.
    pub last_transition_time: i64,
}

/// The status of a certificate request: what this system writes.
pub struct RequestStatus {
    pub certificate_chain: Option<String>,
    pub not_before: Option<i64>,
    pub not_after: Option<i64>,
    pub begin_refresh_at: Option<i64>,
    pub conditions: Vec<Condition>,
}

/// The fields of a certificate request that reconciliation reads.
pub struct CertificateRequest {
    pub name: Option<String>,
    pub namespace: Option<String>,
    pub pod_uid: String,
    pub pod_name: String,
    /// DER SubjectPublicKeyInfo of the requester's key.
    pub pkix_public_key: Vec<u8>,
    pub max_expiration_seconds: Option<i32>,
    pub status: Option<RequestStatus>,
}

/// When the driver should look at a request again.
#[derive(PartialEq, Eq, Structural, Debug, Clone, Copy)]
pub struct Action {
    pub requeue_after_secs: u64,
}

/// The status update for one request, keyed by its name and namespace.
pub struct StatusPatch {
    pub name: String,
    pub namespace: String,
    pub status: RequestStatus,
}

/// What one reconciliation decided.
pub enum Reconciled {
    /// The request already holds a certificate: nothing to do.
    AlreadyIssued(Action),
    /// A certificate was signed; this update is to be applied.
    Patch(StatusPatch),
}

/// A request is fulfilled once its status carries a non-empty chain.
pub open spec fn fulfilled(request: &CertificateRequest) -> bool {
    request.status matches Some(s) && s.certificate_chain matches Some(c) && c@.len() > 0
}

/// The common name of the leaf for a pod: `system:pod:<namespace>:<pod>`.
pub open spec fn pod_common_name(namespace: Option<String>, pod_name: Seq<char>) -> Seq<char> {
    let ns = match namespace {
        Some(n) => n@,
        None => "default"@,
    };
    "system:pod:"@ + ns + ":"@ + pod_name
}

/// The instant at which a refresh should begin.
pub open spec fn refresh_at(now: int, max_expiration_seconds: int) -> int {
    now + max_expiration_seconds - REFRESH_LEAD_SECS
}

/// Whether `c` is the record of an issuance at `now`.
pub open spec fn is_issued_condition(c: Condition, now: int) -> bool {
    &&& c.type_@ == "Issued"@
    &&& c.status@ == "True"@
    &&& c.reason@ == "CertificateIssuedSuccessfully"@
    &&& c.message@ == "Certificate issued successfully"@
    &&& c.last_transition_time == now
}

/// The status written after issuing `leaf`: the earlier status with its
/// chain, window and refresh instant set and one issuance record appended.
pub open spec fn issued_status_spec(
    prev: Option<RequestStatus>,
    leaf: SignedLeaf,
    max_expiration_seconds: int,
    now: int,
    st: RequestStatus,
) -> bool {
    let prev_conditions = match prev {
        Some(p) => p.conditions@,
        None => Seq::empty(),
    };
    &&& st.certificate_chain matches Some(c) && c@ == leaf.pem@
    &&& st.not_before == Some(leaf.info.not_before as i64)
    &&& st.not_after == Some(leaf.info.not_after as i64)
    &&& st.begin_refresh_at matches Some(b) && b == refresh_at(now, max_expiration_seconds)
    &&& st.conditions@.len() == prev_conditions.len() + 1
    &&& st.conditions@.drop_last() == prev_conditions
    &&& is_issued_condition(st.conditions@.last(), now)
}

/// Whether the request is already fulfilled.
pub fn is_fulfilled(request: &CertificateRequest) -> (r: bool)
    ensures
        r == fulfilled(request),
{
    match &request.status {
        Some(s) => match &s.certificate_chain {
            Some(c) => !c.as_str().is_empty(),
            None => false,
        },
        None => false,
    }
}

/// Builds the common name of the leaf for the request's pod.
pub fn request_common_name(request: &CertificateRequest) -> (r: String)
    ensures
        r@ == pod_common_name(request.namespace, request.pod_name@),
{
    let ns: &str = match &request.namespace {
        Some(n) => n.as_str(),
        None => "default",
    };
    String::from_str("system:pod:").concat(ns).concat(":").concat(request.pod_name.as_str())
}

/// The record of an issuance at `now`.
pub fn issued_condition(now: i64) -> (r: Condition)
    ensures
        is_issued_condition(r, now as int),
{
    Condition {
        type_: String::from_str("Issued"),
        status: String::from_str("True"),
        reason: String::from_str("CertificateIssuedSuccessfully"),
        message: String::from_str("Certificate issued successfully"),
        last_transition_time: now,
    }
}

/// The status to write after issuing `leaf` at `now`.
pub fn issued_status(
    prev: Option<RequestStatus>,
    leaf: &SignedLeaf,
    max_expiration_seconds: i32,
    now: u64,
) -> (r: RequestStatus)
    requires
        now <= MAX_UNIX_TIME,
        leaf.info.not_before <= MAX_UNIX_TIME,
        leaf.info.not_after <= MAX_UNIX_TIME + 86400,
    ensures
        issued_status_spec(prev, *leaf, max_expiration_seconds as int, now as int, r),
{
    let mut conditions = match prev {
        Some(p) => p.conditions,
        None => Vec::new(),
    };
    let ghost before = conditions@;
    conditions.push(issued_condition(now as i64));
    assert(conditions@.drop_last() == before);
    RequestStatus {
        certificate_chain: Some(leaf.pem.clone()),
        not_before: Some(leaf.info.not_before as i64),
        not_after: Some(leaf.info.not_after as i64),
        begin_refresh_at: Some(now as i64 + max_expiration_seconds as i64 - REFRESH_LEAD_SECS),
        conditions,
    }
}

/// How a failed reconciliation is retried: after a short fixed delay, with
/// no limit on the number of attempts.
pub fn error_policy(error: &CaError) -> (r: Action)
    ensures
        r.requeue_after_secs == ERROR_REQUEUE_SECS,
{
    Action { requeue_after_secs: ERROR_REQUEUE_SECS }
}

/// How a request is requeued once its status update was applied.
pub fn patched() -> (r: Action)
    ensures
        r.requeue_after_secs == SUCCESS_REQUEUE_SECS,
{
    Action { requeue_after_secs: SUCCESS_REQUEUE_SECS }
}

/// The update that issuing `leaf` for `request` at `now` calls for.
pub open spec fn patch_fits(request: CertificateRequest, leaf: SignedLeaf, now: int, p: StatusPatch) -> bool {
    &&& request.name matches Some(n) && p.name@ == n@
    &&& request.namespace matches Some(ns) && p.namespace@ == ns@
    &&& request.max_expiration_seconds matches Some(m)
        && issued_status_spec(request.status, leaf, m as int, now, p.status)
}

/// One reconciliation of `request` at `now` against the CA holder `ca`:
/// a fulfilled request is left alone; otherwise a leaf is signed for its pod
/// and the status update that records it is returned for the driver to apply.
pub fn reconcile(request: CertificateRequest, ca: &IntermediateCA, now: u64) -> (r: Result<Reconciled, CaError>)
    requires
        now <= MAX_UNIX_TIME,
    ensures
        fulfilled(&request) ==> (r matches Ok(Reconciled::AlreadyIssued(a))
            && a.requeue_after_secs == SUCCESS_REQUEUE_SECS),
        !fulfilled(&request) && request.max_expiration_seconds is None
            ==> r == Err::<Reconciled, CaError>(CaError::MissingObjectKey(".spec.max_expiration_seconds")),
        !fulfilled(&request) && request.max_expiration_seconds is Some && request.namespace is None
            ==> r == Err::<Reconciled, CaError>(CaError::MissingObjectKey(".metadata.namespace")),
        !fulfilled(&request) && request.max_expiration_seconds is Some && request.namespace is Some
            && request.name is None
            ==> r == Err::<Reconciled, CaError>(CaError::MissingObjectKey(".metadata.name")),
        !fulfilled(&request) && request.max_expiration_seconds is Some && request.namespace is Some
            && request.name is Some && issuance_needed(ca@, now as int)
            ==> r == Err::<Reconciled, CaError>(CaError::CaUnavailable),
        !fulfilled(&request) && !issuance_needed(ca@, now as int) && !spki_accepts(request.pkix_public_key@)
            && request.max_expiration_seconds is Some && request.namespace is Some && request.name is Some
            ==> (r matches Err(e) && e is Der),
        !fulfilled(&request) && request.max_expiration_seconds is Some && request.namespace is Some
            && request.name is Some
            ==> (can_sign(ca@, request.pkix_public_key@, pod_common_name(request.namespace, request.pod_name@), now as int)
                <==> r matches Ok(Reconciled::Patch(_))),
        !fulfilled(&request) && request.max_expiration_seconds is Some && request.namespace is Some
            && request.name is Some && !issuance_needed(ca@, now as int) && spki_accepts(request.pkix_public_key@)
            && subject_renders(pod_common_name(request.namespace, request.pod_name@))
            && now + LEAF_LIFETIME_SECS <= MAX_UNIX_TIME && (ca@ matches Some(c) && !p256_key_accepts(c.key_der))
            ==> (r matches Err(e) && e is Signing),
        r matches Ok(Reconciled::Patch(p)) ==> (ca@ matches Some(c) && !fulfilled(&request) && exists|leaf: SignedLeaf|
            leaf_fits(leaf, c.certificate_pem, pod_common_name(request.namespace, request.pod_name@), leaf.serial as nat, now as int)
            && #[trigger] patch_fits(request, leaf, now as int, p)),
{
    if is_fulfilled(&request) {
        return Ok(Reconciled::AlreadyIssued(patched()));
    }
    let max_expiration_seconds = match request.max_expiration_seconds {
        Some(m) => m,
        None => return Err(CaError::MissingObjectKey(".spec.max_expiration_seconds")),
    };
    let namespace = match &request.namespace {
        Some(ns) => ns.clone(),
        None => return Err(CaError::MissingObjectKey(".metadata.namespace")),
    };
    let name = match &request.name {
        Some(n) => n.clone(),
        None => return Err(CaError::MissingObjectKey(".metadata.name")),
    };
    let leaf = ca.sign_certificate(&request, now)?;
    let ghost req = request;
    let status = issued_status(request.status, &leaf, max_expiration_seconds, now);
    let p = StatusPatch { name, namespace, status };
    assert(patch_fits(req, leaf, now as int, p));
    Ok(Reconciled::Patch(p))
}

} // verus!
