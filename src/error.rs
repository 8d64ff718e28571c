//! The typed rejections that every operation reports.
use vstd::prelude::*;

verus! {

/// Why an operation was rejected. Every rejection leaves the rule and the
/// certificate it was applied to unchanged.
#[derive(Debug, Clone, Copy, PartialEq, Eq, Structural)]
pub enum ErrorCode {
    /// More than ten approved identities were given.
    TooManyIdentities,
    /// The threshold was zero.
    InvalidThreshold,
    /// `valid_until` was not after `valid_from`.
    InvalidTimeRange,
    /// The rule has been revoked.
    RuleNotActive,
    /// The request came before the rule's window opens.
    RuleNotYetValid,
    /// The request came after the rule's window closed.
    RuleExpired,
    /// The presented secret does not match the rule's commitment.
    InvalidSecret,
    /// The presented value is below the rule's threshold.
    InsufficientValue,
    /// The identity hash is not on the rule's allow-list.
    IdentityNotApproved,
    /// The certificate has already been redeemed.
    CertificateAlreadyUsed,
    /// The certificate's validity window has passed.
    CertificateExpired,
    /// The caller is not the certificate's requester.
    UnauthorizedUser,
    /// The caller is not the rule's owner.
    UnauthorizedOwner,
    /// The rule has already been revoked.
    RuleAlreadyInactive,
    /// The rule is paused.
    RulePaused,
    /// The rule is already paused.
    RuleAlreadyPaused,
    /// The rule is not paused.
    RuleNotPaused,
    /// The confidential computation's job id is empty.
    InvalidArciumJobId,
    /// The confidential computation's hash is empty.
    InvalidComputationHash,
    /// The confidential computation's result was not attested.
    UnattestedComputation,
    /// A live certificate already exists for this rule and requester.
    DuplicateRequest,
    /// A rule already exists for this dataset.
    RuleAlreadyExists,
    /// No rule exists for this dataset.
    RuleNotFound,
    /// No certificate exists for this rule and requester.
    CertificateNotFound,
}

} // verus!
