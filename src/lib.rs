//! Verification of signed enclave attestation documents: field validation of
//! the decoded record, certificate-chain trust against a pinned anchor, the
//! leaf key's checks, and the report projection of a verified document.

pub mod doc;
pub mod outside;
pub mod record;
pub mod report;

pub use doc::{CheckedRecord, NitroAdDoc, NitroAdError};
pub use record::{AttestationRecord, FieldError};
pub use report::{CertSummary, Report};
