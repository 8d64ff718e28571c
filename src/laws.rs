//! Properties that relate several operations, proved over their contracts'
//! spec functions.
use vstd::prelude::*;

use crate::access::{request_error, request_with_proof_error};
use crate::certificate::{issued, use_error, AccessCertificate, Verification, CERTIFICATE_VALIDITY};
use crate::error::ErrorCode;
use crate::keys::Key;
use crate::policy::availability_error;
use crate::rule::{allowed_transition, creation_error, pause_error, resume_error, revoke_error, AccessRule, RuleState};

verus! {

/// A rule can be created only with `valid_until > valid_from`, and every
/// lifecycle transition keeps the window, and the rest of the rule's
/// well-formedness, as it was.
pub proof fn rule_window_always_valid(
    identity_count: nat,
    policy_threshold: u64,
    valid_from: i64,
    valid_until: i64,
    rule: AccessRule,
    state: RuleState,
)
    ensures
        valid_until <= valid_from ==> creation_error(
            identity_count,
            policy_threshold,
            valid_from,
            valid_until,
        ) is Some,
        rule.wf() ==> rule.with_state(state).valid_until > rule.with_state(state).valid_from,
        rule.with_state(state).wf() == rule.wf(),
{
}

/// Every issued certificate expires exactly one validity period after its
/// issuance.
pub proof fn certificate_expiry_is_fixed(
    dataset_id: Key,
    requester: Key,
    now: i64,
    verification: Verification,
)
    requires
        now <= i64::MAX - CERTIFICATE_VALIDITY,
    ensures
        issued(dataset_id, requester, now, verification).valid_until == now + CERTIFICATE_VALIDITY,
        issued(dataset_id, requester, now, verification).issued_at == now,
        issued(dataset_id, requester, now, verification).wf(),
{
}

/// A certificate is redeemed at most once: a successful redemption needs an
/// unused certificate and leaves it used, and any later redemption, by
/// anyone at any time, fails with `CertificateAlreadyUsed`.
pub proof fn certificate_single_use(
    cert: AccessCertificate,
    user: Key,
    now: i64,
    later_user: Key,
    later_now: i64,
)
    requires
        use_error(cert, user, now) is None,
    ensures
        !cert.is_used,
        cert.redeemed().is_used,
        cert.redeemed().wf() == cert.wf(),
        use_error(cert.redeemed(), later_user, later_now) == Some(ErrorCode::CertificateAlreadyUsed),
{
}

/// A revoked rule stays revoked, since no lifecycle transition applies to
/// it, and rejects every request, whatever it presents, as not active.
pub proof fn revoked_rule_rejects_requests(
    rule: AccessRule,
    caller: Key,
    existing: Option<AccessCertificate>,
    now: i64,
    secret: Key,
    data_value: u64,
    identity_hash: Key,
    job_id: Seq<char>,
    computation_hash: Seq<char>,
    attested: bool,
)
    requires
        rule.state == RuleState::Revoked,
    ensures
        pause_error(rule, caller) is Some,
        resume_error(rule, caller) is Some,
        revoke_error(rule, caller) is Some,
        request_error(rule, existing, now, secret, data_value, identity_hash) == Some(
            ErrorCode::RuleNotActive,
        ),
        request_with_proof_error(
            rule,
            existing,
            now,
            job_id,
            computation_hash,
            attested,
            identity_hash,
        ) == Some(ErrorCode::RuleNotActive),
{
}

/// An identity hash off the allow-list is rejected in either proof mode,
/// and where every earlier check passes, for exactly that reason.
pub proof fn unlisted_identity_rejected(
    rule: AccessRule,
    existing: Option<AccessCertificate>,
    now: i64,
    secret: Key,
    data_value: u64,
    identity_hash: Key,
    job_id: Seq<char>,
    computation_hash: Seq<char>,
    attested: bool,
)
    requires
        !rule.allowed_identity_hashes@.contains(identity_hash),
    ensures
        request_error(rule, existing, now, secret, data_value, identity_hash) is Some,
        request_with_proof_error(
            rule,
            existing,
            now,
            job_id,
            computation_hash,
            attested,
            identity_hash,
        ) is Some,
        availability_error(rule, now) is None && secret == rule.secret_commitment && data_value
            >= rule.policy_threshold ==> request_error(
            rule,
            existing,
            now,
            secret,
            data_value,
            identity_hash,
        ) == Some(ErrorCode::IdentityNotApproved),
        availability_error(rule, now) is None && job_id.len() > 0 && computation_hash.len() > 0
            && attested ==> request_with_proof_error(
            rule,
            existing,
            now,
            job_id,
            computation_hash,
            attested,
            identity_hash,
        ) == Some(ErrorCode::IdentityNotApproved),
{
}

/// The owner can pause an active rule; the paused rule rejects every request
/// with `RulePaused`; the owner can resume it; and the resumed rule decides
/// every request as it did before the pause.
pub proof fn pause_then_resume(
    rule: AccessRule,
    existing: Option<AccessCertificate>,
    now: i64,
    secret: Key,
    data_value: u64,
    identity_hash: Key,
    job_id: Seq<char>,
    computation_hash: Seq<char>,
    attested: bool,
)
    requires
        rule.state == RuleState::Active,
    ensures
        pause_error(rule, rule.owner) is None,
        request_error(
            rule.with_state(RuleState::Paused),
            existing,
            now,
            secret,
            data_value,
            identity_hash,
        ) == Some(ErrorCode::RulePaused),
        request_with_proof_error(
            rule.with_state(RuleState::Paused),
            existing,
            now,
            job_id,
            computation_hash,
            attested,
            identity_hash,
        ) == Some(ErrorCode::RulePaused),
        resume_error(rule.with_state(RuleState::Paused), rule.owner) is None,
        rule.with_state(RuleState::Paused).with_state(RuleState::Active) == rule,
        request_error(
            rule.with_state(RuleState::Paused).with_state(RuleState::Active),
            existing,
            now,
            secret,
            data_value,
            identity_hash,
        ) == request_error(rule, existing, now, secret, data_value, identity_hash),
{
}

/// Every successful pause, resume or revocation is an allowed transition;
/// so no transition leaves `Revoked`, and only the owner makes any.
pub proof fn lifecycle_transitions_allowed(rule: AccessRule, caller: Key)
    ensures
        pause_error(rule, caller) is None ==> caller == rule.owner && allowed_transition(
            rule.state,
            RuleState::Paused,
        ),
        resume_error(rule, caller) is None ==> caller == rule.owner && allowed_transition(
            rule.state,
            RuleState::Active,
        ),
        revoke_error(rule, caller) is None ==> caller == rule.owner && allowed_transition(
            rule.state,
            RuleState::Revoked,
        ),
        forall|s: RuleState| !allowed_transition(RuleState::Revoked, s),
{
}

} // verus!
