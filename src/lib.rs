//! A confidential-access policy engine: owners publish access rules over a
//! dataset, requesters prove eligibility and receive single-use, time-limited
//! certificates, and every state change yields an audit event.
pub mod access;
pub mod certificate;
pub mod confidential;
pub mod error;
pub mod keyed;
pub mod keys;
pub mod laws;
pub mod policy;
pub mod rule;
pub mod store;

pub use access::{
    request_access, request_access_with_arcium, AccessDenied, AccessGranted,
    AccessGrantedWithArcium, RequestAccess,
};
pub use certificate::{
    use_certificate, AccessCertificate, CertificateUsed, UseCertificate, Verification,
    CERTIFICATE_VALIDITY,
};
pub use confidential::{verify_access, AccessInput, AccessResult, PolicyParams};
pub use error::ErrorCode;
pub use keys::Key;
pub use rule::{
    create_rule, pause_rule, resume_rule, revoke_rule, AccessRule, CreateRule, PauseRule,
    ResumeRule, RevokeRule, RuleCreated, RulePaused, RuleResumed, RuleRevoked, RuleState,
    MAX_IDENTITIES,
};
pub use store::AccessStore;
