//! An intermediate certificate authority that issues short-lived workload
//! certificates: certificate codec, leaf signer, CA state holder and the
//! per-request reconciliation rules.

pub mod codec;
pub mod controller;
pub mod error;
pub mod intermediate_ca;
pub mod leaf;

pub use error::CaError;
