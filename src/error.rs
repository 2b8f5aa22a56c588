use vstd::prelude::*;

verus! {

/// Declared so that errors of the DER codec can be carried as they are.
#[verifier::external_type_specification]
#[verifier::external_body]
pub struct ExDerError(der::Error);

/// Declared so that errors of key and CSR generation can be carried as they are.
#[verifier::external_type_specification]
#[verifier::external_body]
pub struct ExRcgenError(rcgen::Error);

/// Declared so that errors of the backend client can be carried as they are.
#[verifier::external_type_specification]
#[verifier::external_body]
pub struct ExClientError(vaultrs::error::ClientError);

/// Declared so that errors of the orchestration API client can be carried as
/// they are.
#[verifier::external_type_specification]
#[verifier::external_body]
pub struct ExKubeError(kube::Error);

/// Every way in which issuing a certificate or recording it can fail.
#[derive(Debug)]
pub enum CaError {
    /// The status update of a request was rejected.
    ConfigMapCreationFailed(kube::Error),
    /// A field that the update needs is absent from the request.
    MissingObjectKey(&'static str),
    /// The backend's sign-intermediate call failed.
    VaultRequestFailed(vaultrs::error::ClientError),
    /// Generating the CA key pair or its signing request failed.
    CSRCreate(rcgen::Error),
    /// Decoding or encoding certificate or key material failed.
    Der(der::Error),
    /// Building or signing the certificate failed.
    Signing(String),
    /// No CA certificate that is valid now is held.
    CaUnavailable,
}

} // verus!
