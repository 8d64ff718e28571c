//! The request-and-issue protocol: a request is validated against its rule,
//! checked against the certificate slot it would take, and on acceptance
//! yields a certificate and an audit event.
use vstd::prelude::*;

use crate::certificate::{
    is_duplicate, issue_certificate, issued, AccessCertificate, Verification,
    CERTIFICATE_VALIDITY,
};
use crate::error::ErrorCode;
use crate::keys::Key;
use crate::policy::{direct_error, proof_error, validate_direct, validate_proof};
use crate::rule::AccessRule;

verus! {

/// The requester and the time of a request.
#[derive(Debug, Clone, Copy)]
pub struct RequestAccess {
    pub requester: Key,
    pub now: i64,
}

/// Audit event of a grant on a presented secret.
#[derive(Debug, Clone, Copy, PartialEq, Eq)]
pub struct AccessGranted {
    pub dataset_id: Key,
    pub requester: Key,
    pub data_value: u64,
    pub identity_hash: Key,
    pub timestamp: i64,
}

/// Audit event of a grant on a confidential computation's result.
#[derive(Debug, Clone, PartialEq, Eq)]
pub struct AccessGrantedWithArcium {
    pub dataset_id: Key,
    pub requester: Key,
    pub data_value: u64,
    pub identity_hash: Key,
    pub arcium_job_id: String,
    pub arcium_computation_hash: String,
    pub timestamp: i64,
}

/// A rejected request, as an audit trail may record it.
#[derive(Debug, Clone, Copy, PartialEq, Eq)]
pub struct AccessDenied {
    pub dataset_id: Key,
    pub requester: Key,
    pub denial_reason: ErrorCode,
    pub timestamp: i64,
}

/// Why a request on a presented secret fails, if it does: the validator's
/// reason, or else a live certificate in the slot.
pub open spec fn request_error(
    rule: AccessRule,
    existing: Option<AccessCertificate>,
    now: i64,
    secret: Key,
    data_value: u64,
    identity_hash: Key,
) -> Option<ErrorCode> {
    if direct_error(rule, now, secret, data_value, identity_hash) is Some {
        direct_error(rule, now, secret, data_value, identity_hash)
    } else if is_duplicate(existing, now) {
        Some(ErrorCode::DuplicateRequest)
    } else {
        None
    }
}

/// Why a request on a confidential computation's result fails, if it does.
pub open spec fn request_with_proof_error(
    rule: AccessRule,
    existing: Option<AccessCertificate>,
    now: i64,
    job_id: Seq<char>,
    computation_hash: Seq<char>,
    attested: bool,
    identity_hash: Key,
) -> Option<ErrorCode> {
    if proof_error(rule, now, job_id, computation_hash, attested, identity_hash) is Some {
        proof_error(rule, now, job_id, computation_hash, attested, identity_hash)
    } else if is_duplicate(existing, now) {
        Some(ErrorCode::DuplicateRequest)
    } else {
        None
    }
}

/// The certificate that a borrowed slot holds, if any.
pub open spec fn slot(existing: Option<&AccessCertificate>) -> Option<AccessCertificate> {
    match existing {
        Some(c) => Some(*c),
        None => None,
    }
}

/// Tells whether the certificate slot holds a live certificate at `now`.
pub fn slot_is_taken(existing: Option<&AccessCertificate>, now: i64) -> (r: bool)
    ensures
        r == is_duplicate(slot(existing), now),
{
    match existing {
        Some(c) => !c.is_used && now <= c.valid_until,
        None => false,
    }
}

/// Requests access by presenting the secret matching the rule's commitment.
/// `existing` is what the certificate slot of `(rule, requester)` holds.
pub fn request_access(
    ctx: &RequestAccess,
    rule: &AccessRule,
    existing: Option<&AccessCertificate>,
    secret: Key,
    data_value: u64,
    identity_hash: Key,
) -> (r: Result<(AccessCertificate, AccessGranted), ErrorCode>)
    requires
        ctx.now <= i64::MAX - CERTIFICATE_VALIDITY,
    ensures
        match r {
            Ok((cert, ev)) => {
                &&& request_error(*rule, slot(existing), ctx.now, secret, data_value, identity_hash) is None
                &&& cert.valid_until == ctx.now + CERTIFICATE_VALIDITY
                &&& cert == issued(rule.dataset_id, ctx.requester, ctx.now, Verification::Direct)
                &&& ev == (AccessGranted {
                    dataset_id: rule.dataset_id,
                    requester: ctx.requester,
                    data_value,
                    identity_hash,
                    timestamp: ctx.now,
                })
            },
            Err(e) => request_error(
                *rule,
                slot(existing),
                ctx.now,
                secret,
                data_value,
                identity_hash,
            ) == Some(e),
        },
{
    validate_direct(rule, ctx.now, &secret, data_value, &identity_hash)?;
    if slot_is_taken(existing, ctx.now) {
        return Err(ErrorCode::DuplicateRequest);
    }
    let cert = issue_certificate(rule.dataset_id, ctx.requester, ctx.now, Verification::Direct);
    let ev = AccessGranted {
        dataset_id: rule.dataset_id,
        requester: ctx.requester,
        data_value,
        identity_hash,
        timestamp: ctx.now,
    };
    Ok((cert, ev))
}

/// Requests access by presenting a confidential computation's job id and
/// hash; `attested` is the verdict of whatever checks that pair against the
/// computation. The threshold was tested inside that computation.
pub fn request_access_with_arcium(
    ctx: &RequestAccess,
    rule: &AccessRule,
    existing: Option<&AccessCertificate>,
    arcium_job_id: String,
    arcium_computation_hash: String,
    attested: bool,
    data_value: u64,
    identity_hash: Key,
) -> (r: Result<(AccessCertificate, AccessGrantedWithArcium), ErrorCode>)
    requires
        ctx.now <= i64::MAX - CERTIFICATE_VALIDITY,
    ensures
        match r {
            Ok((cert, ev)) => {
                &&& request_with_proof_error(
                    *rule,
                    slot(existing),
                    ctx.now,
                    arcium_job_id@,
                    arcium_computation_hash@,
                    attested,
                    identity_hash,
                ) is None
                &&& cert.valid_until == ctx.now + CERTIFICATE_VALIDITY
                &&& cert == issued(
                    rule.dataset_id,
                    ctx.requester,
                    ctx.now,
                    Verification::ConfidentialProof {
                        job_id: arcium_job_id,
                        computation_hash: arcium_computation_hash,
                    },
                )
                &&& ev == (AccessGrantedWithArcium {
                    dataset_id: rule.dataset_id,
                    requester: ctx.requester,
                    data_value,
                    identity_hash,
                    arcium_job_id,
                    arcium_computation_hash,
                    timestamp: ctx.now,
                })
            },
            Err(e) => request_with_proof_error(
                *rule,
                slot(existing),
                ctx.now,
                arcium_job_id@,
                arcium_computation_hash@,
                attested,
                identity_hash,
            ) == Some(e),
        },
{
    validate_proof(
        rule,
        ctx.now,
        &arcium_job_id,
        &arcium_computation_hash,
        attested,
        &identity_hash,
    )?;
    if slot_is_taken(existing, ctx.now) {
        return Err(ErrorCode::DuplicateRequest);
    }
    let ev = AccessGrantedWithArcium {
        dataset_id: rule.dataset_id,
        requester: ctx.requester,
        data_value,
        identity_hash,
        arcium_job_id: arcium_job_id.clone(),
        arcium_computation_hash: arcium_computation_hash.clone(),
        timestamp: ctx.now,
    };
    let verification = Verification::ConfidentialProof {
        job_id: arcium_job_id,
        computation_hash: arcium_computation_hash,
    };
    let cert = issue_certificate(rule.dataset_id, ctx.requester, ctx.now, verification);
    Ok((cert, ev))
}

} // verus!
