//! The policy validator: decides, in a fixed order, whether a request
//! against a rule is accepted, and if not, for which reason.
use vstd::prelude::*;

use crate::error::ErrorCode;
use crate::keys::{contains_key, keys_equal, Key};
use crate::rule::{AccessRule, RuleState};

verus! {

/// Why `rule` takes no request at time `now`, if it takes none: it must be
/// `Active`, and `now` must lie within its window.
pub open spec fn availability_error(rule: AccessRule, now: i64) -> Option<ErrorCode> {
    if rule.state == RuleState::Revoked {
        Some(ErrorCode::RuleNotActive)
    } else if rule.state == RuleState::Paused {
        Some(ErrorCode::RulePaused)
    } else if now < rule.valid_from {
        Some(ErrorCode::RuleNotYetValid)
    } else if now > rule.valid_until {
        Some(ErrorCode::RuleExpired)
    } else {
        None
    }
}

/// Why a request that presents a secret is rejected, if it is.
pub open spec fn direct_error(
    rule: AccessRule,
    now: i64,
    secret: Key,
    data_value: u64,
    identity_hash: Key,
) -> Option<ErrorCode> {
    if availability_error(rule, now) is Some {
        availability_error(rule, now)
    } else if secret != rule.secret_commitment {
        Some(ErrorCode::InvalidSecret)
    } else if data_value < rule.policy_threshold {
        Some(ErrorCode::InsufficientValue)
    } else if !rule.allowed_identity_hashes@.contains(identity_hash) {
        Some(ErrorCode::IdentityNotApproved)
    } else {
        None
    }
}

/// Why a request that presents a confidential computation's result is
/// rejected, if it is. The threshold was tested inside that computation.
pub open spec fn proof_error(
    rule: AccessRule,
    now: i64,
    job_id: Seq<char>,
    computation_hash: Seq<char>,
    attested: bool,
    identity_hash: Key,
) -> Option<ErrorCode> {
    if availability_error(rule, now) is Some {
        availability_error(rule, now)
    } else if job_id.len() == 0 {
        Some(ErrorCode::InvalidArciumJobId)
    } else if computation_hash.len() == 0 {
        Some(ErrorCode::InvalidComputationHash)
    } else if !attested {
        Some(ErrorCode::UnattestedComputation)
    } else if !rule.allowed_identity_hashes@.contains(identity_hash) {
        Some(ErrorCode::IdentityNotApproved)
    } else {
        None
    }
}

/// Checks that `rule` is `Active` and that `now` lies within its window.
pub fn check_availability(rule: &AccessRule, now: i64) -> (r: Result<(), ErrorCode>)
    ensures
        match r {
            Ok(_) => availability_error(*rule, now) is None,
            Err(e) => availability_error(*rule, now) == Some(e),
        },
{
    match rule.state {
        RuleState::Revoked => return Err(ErrorCode::RuleNotActive),
        RuleState::Paused => return Err(ErrorCode::RulePaused),
        RuleState::Active => {},
    }
    if now < rule.valid_from {
        return Err(ErrorCode::RuleNotYetValid);
    }
    if now > rule.valid_until {
        return Err(ErrorCode::RuleExpired);
    }
    Ok(())
}

/// Validates a request that presents a secret matching the commitment.
pub fn validate_direct(
    rule: &AccessRule,
    now: i64,
    secret: &Key,
    data_value: u64,
    identity_hash: &Key,
) -> (r: Result<(), ErrorCode>)
    ensures
        match r {
            Ok(_) => direct_error(*rule, now, *secret, data_value, *identity_hash) is None,
            Err(e) => direct_error(*rule, now, *secret, data_value, *identity_hash) == Some(e),
        },
{
    check_availability(rule, now)?;
    if !keys_equal(secret, &rule.secret_commitment) {
        return Err(ErrorCode::InvalidSecret);
    }
    if data_value < rule.policy_threshold {
        return Err(ErrorCode::InsufficientValue);
    }
    if !contains_key(&rule.allowed_identity_hashes, identity_hash) {
        return Err(ErrorCode::IdentityNotApproved);
    }
    Ok(())
}

/// Validates a request that presents a confidential computation's job id and
/// hash; `attested` is the verdict of whatever checks that pair against the
/// computation.
pub fn validate_proof(
    rule: &AccessRule,
    now: i64,
    job_id: &String,
    computation_hash: &String,
    attested: bool,
    identity_hash: &Key,
) -> (r: Result<(), ErrorCode>)
    ensures
        match r {
            Ok(_) => proof_error(
                *rule,
                now,
                job_id@,
                computation_hash@,
                attested,
                *identity_hash,
            ) is None,
            Err(e) => proof_error(
                *rule,
                now,
                job_id@,
                computation_hash@,
                attested,
                *identity_hash,
            ) == Some(e),
        },
{
    check_availability(rule, now)?;
    if job_id.as_str().is_empty() {
        return Err(ErrorCode::InvalidArciumJobId);
    }
    if computation_hash.as_str().is_empty() {
        return Err(ErrorCode::InvalidComputationHash);
    }
    if !attested {
        return Err(ErrorCode::UnattestedComputation);
    }
    if !contains_key(&rule.allowed_identity_hashes, identity_hash) {
        return Err(ErrorCode::IdentityNotApproved);
    }
    Ok(())
}

} // verus!
