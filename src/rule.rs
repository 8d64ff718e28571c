//! Access rules and their lifecycle: creation, pause, resume and revocation.
use vstd::prelude::*;

use crate::error::ErrorCode;
use crate::keys::{authorize, Key};

verus! {

/// The most identity hashes a rule may approve.
pub const MAX_IDENTITIES: usize = 10;

/// Where a rule stands in its lifecycle. `Revoked` is terminal.
#[derive(Debug, Clone, Copy, PartialEq, Eq, Structural)]
pub enum RuleState {
    Active,
    Paused,
    Revoked,
}

/// A published policy gating access to one dataset.
#[derive(Debug, Clone)]
pub struct AccessRule {
    pub dataset_id: Key,
    pub secret_commitment: Key,
    pub policy_threshold: u64,
    pub allowed_identity_hashes: Vec<Key>,
    pub valid_from: i64,
    pub valid_until: i64,
    pub owner: Key,
    pub state: RuleState,
}

impl AccessRule {
    /// What creation establishes and every lifecycle transition keeps.
    pub open spec fn wf(&self) -> bool {
        &&& self.valid_until > self.valid_from
        &&& self.policy_threshold > 0
        &&& self.allowed_identity_hashes@.len() <= MAX_IDENTITIES
    }

    /// The same rule in another lifecycle state.
    pub open spec fn with_state(self, state: RuleState) -> AccessRule {
        AccessRule { state, ..self }
    }
}

/// The caller and the time of a rule creation.
#[derive(Debug, Clone, Copy)]
pub struct CreateRule {
    pub owner: Key,
    pub now: i64,
}

/// The caller and the time of a pause.
#[derive(Debug, Clone, Copy)]
pub struct PauseRule {
    pub owner: Key,
    pub now: i64,
}

/// The caller and the time of a resume.
#[derive(Debug, Clone, Copy)]
pub struct ResumeRule {
    pub owner: Key,
    pub now: i64,
}

/// The caller and the time of a revocation.
#[derive(Debug, Clone, Copy)]
pub struct RevokeRule {
    pub owner: Key,
    pub now: i64,
}

/// Audit event of a rule creation.
#[derive(Debug, Clone, Copy, PartialEq, Eq)]
pub struct RuleCreated {
    pub dataset_id: Key,
    pub owner: Key,
    pub policy_threshold: u64,
    pub identity_count: u8,
    pub timestamp: i64,
}

/// Audit event of a revocation.
#[derive(Debug, Clone, Copy, PartialEq, Eq)]
pub struct RuleRevoked {
    pub dataset_id: Key,
    pub timestamp: i64,
}

/// Audit event of a pause.
#[derive(Debug, Clone, Copy, PartialEq, Eq)]
pub struct RulePaused {
    pub dataset_id: Key,
    pub timestamp: i64,
}

/// Audit event of a resume.
#[derive(Debug, Clone, Copy, PartialEq, Eq)]
pub struct RuleResumed {
    pub dataset_id: Key,
    pub timestamp: i64,
}

/// The lifecycle moves only between `Active` and `Paused`, and from either
/// to `Revoked`.
pub open spec fn allowed_transition(from: RuleState, to: RuleState) -> bool {
    match (from, to) {
        (RuleState::Active, RuleState::Paused) => true,
        (RuleState::Paused, RuleState::Active) => true,
        (RuleState::Active, RuleState::Revoked) => true,
        (RuleState::Paused, RuleState::Revoked) => true,
        _ => false,
    }
}

/// Why a rule with these parameters cannot be created, if it cannot.
pub open spec fn creation_error(
    identity_count: nat,
    policy_threshold: u64,
    valid_from: i64,
    valid_until: i64,
) -> Option<ErrorCode> {
    if identity_count > MAX_IDENTITIES {
        Some(ErrorCode::TooManyIdentities)
    } else if policy_threshold == 0 {
        Some(ErrorCode::InvalidThreshold)
    } else if valid_until <= valid_from {
        Some(ErrorCode::InvalidTimeRange)
    } else {
        None
    }
}

/// Why `caller` cannot pause `rule`, if it cannot.
pub open spec fn pause_error(rule: AccessRule, caller: Key) -> Option<ErrorCode> {
    if caller != rule.owner {
        Some(ErrorCode::UnauthorizedOwner)
    } else if rule.state == RuleState::Revoked {
        Some(ErrorCode::RuleNotActive)
    } else if rule.state == RuleState::Paused {
        Some(ErrorCode::RuleAlreadyPaused)
    } else {
        None
    }
}

/// Why `caller` cannot resume `rule`, if it cannot.
pub open spec fn resume_error(rule: AccessRule, caller: Key) -> Option<ErrorCode> {
    if caller != rule.owner {
        Some(ErrorCode::UnauthorizedOwner)
    } else if rule.state == RuleState::Revoked {
        Some(ErrorCode::RuleNotActive)
    } else if rule.state == RuleState::Active {
        Some(ErrorCode::RuleNotPaused)
    } else {
        None
    }
}

/// Why `caller` cannot revoke `rule`, if it cannot.
pub open spec fn revoke_error(rule: AccessRule, caller: Key) -> Option<ErrorCode> {
    if caller != rule.owner {
        Some(ErrorCode::UnauthorizedOwner)
    } else if rule.state == RuleState::Revoked {
        Some(ErrorCode::RuleAlreadyInactive)
    } else {
        None
    }
}

/// The `Active` rule that `owner` creates with these parameters.
pub open spec fn fresh_rule(
    owner: Key,
    dataset_id: Key,
    secret_commitment: Key,
    policy_threshold: u64,
    allowed_identity_hashes: Vec<Key>,
    valid_from: i64,
    valid_until: i64,
) -> AccessRule {
    AccessRule {
        dataset_id,
        secret_commitment,
        policy_threshold,
        allowed_identity_hashes,
        valid_from,
        valid_until,
        owner,
        state: RuleState::Active,
    }
}

/// The event that records a creation of `identity_count` identities.
pub open spec fn creation_event(
    ctx: &CreateRule,
    dataset_id: Key,
    policy_threshold: u64,
    identity_count: nat,
) -> RuleCreated {
    RuleCreated {
        dataset_id,
        owner: ctx.owner,
        policy_threshold,
        identity_count: identity_count as u8,
        timestamp: ctx.now,
    }
}

/// Creates an `Active` rule owned by `ctx.owner`, with its creation event.
pub fn create_rule(
    ctx: &CreateRule,
    dataset_id: Key,
    secret_commitment: Key,
    policy_threshold: u64,
    allowed_identity_hashes: Vec<Key>,
    valid_from: i64,
    valid_until: i64,
) -> (r: Result<(AccessRule, RuleCreated), ErrorCode>)
    ensures
        valid_until <= valid_from ==> r is Err,
        match r {
            Ok((rule, ev)) => {
                &&& creation_error(
                    allowed_identity_hashes@.len(),
                    policy_threshold,
                    valid_from,
                    valid_until,
                ) is None
                &&& rule.wf()
                &&& rule == fresh_rule(
                    ctx.owner,
                    dataset_id,
                    secret_commitment,
                    policy_threshold,
                    allowed_identity_hashes,
                    valid_from,
                    valid_until,
                )
                &&& ev == creation_event(ctx, dataset_id, policy_threshold, allowed_identity_hashes@.len())
            },
            Err(e) => creation_error(
                allowed_identity_hashes@.len(),
                policy_threshold,
                valid_from,
                valid_until,
            ) == Some(e),
        },
{
    if allowed_identity_hashes.len() > MAX_IDENTITIES {
        return Err(ErrorCode::TooManyIdentities);
    }
    if policy_threshold == 0 {
        return Err(ErrorCode::InvalidThreshold);
    }
    if valid_until <= valid_from {
        return Err(ErrorCode::InvalidTimeRange);
    }
    let identity_count = allowed_identity_hashes.len() as u8;
    let rule = AccessRule {
        dataset_id,
        secret_commitment,
        policy_threshold,
        allowed_identity_hashes,
        valid_from,
        valid_until,
        owner: ctx.owner,
        state: RuleState::Active,
    };
    let ev = RuleCreated {
        dataset_id,
        owner: ctx.owner,
        policy_threshold,
        identity_count,
        timestamp: ctx.now,
    };
    Ok((rule, ev))
}

/// Moves an `Active` rule to `Paused`; only its owner may.
pub fn pause_rule(ctx: &PauseRule, rule: &mut AccessRule) -> (r: Result<RulePaused, ErrorCode>)
    ensures
        match r {
            Ok(ev) => {
                &&& pause_error(*old(rule), ctx.owner) is None
                &&& *final(rule) == old(rule).with_state(RuleState::Paused)
                &&& ev == (RulePaused { dataset_id: old(rule).dataset_id, timestamp: ctx.now })
            },
            Err(e) => {
                &&& pause_error(*old(rule), ctx.owner) == Some(e)
                &&& *final(rule) == *old(rule)
            },
        },
{
    if !authorize(&ctx.owner, &rule.owner) {
        return Err(ErrorCode::UnauthorizedOwner);
    }
    match rule.state {
        RuleState::Revoked => Err(ErrorCode::RuleNotActive),
        RuleState::Paused => Err(ErrorCode::RuleAlreadyPaused),
        RuleState::Active => {
            rule.state = RuleState::Paused;
            Ok(RulePaused { dataset_id: rule.dataset_id, timestamp: ctx.now })
        },
    }
}

/// Moves a `Paused` rule back to `Active`; only its owner may.
pub fn resume_rule(ctx: &ResumeRule, rule: &mut AccessRule) -> (r: Result<RuleResumed, ErrorCode>)
    ensures
        match r {
            Ok(ev) => {
                &&& resume_error(*old(rule), ctx.owner) is None
                &&& *final(rule) == old(rule).with_state(RuleState::Active)
                &&& ev == (RuleResumed { dataset_id: old(rule).dataset_id, timestamp: ctx.now })
            },
            Err(e) => {
                &&& resume_error(*old(rule), ctx.owner) == Some(e)
                &&& *final(rule) == *old(rule)
            },
        },
{
    if !authorize(&ctx.owner, &rule.owner) {
        return Err(ErrorCode::UnauthorizedOwner);
    }
    match rule.state {
        RuleState::Revoked => Err(ErrorCode::RuleNotActive),
        RuleState::Active => Err(ErrorCode::RuleNotPaused),
        RuleState::Paused => {
            rule.state = RuleState::Active;
            Ok(RuleResumed { dataset_id: rule.dataset_id, timestamp: ctx.now })
        },
    }
}

/// Moves an `Active` or `Paused` rule to the terminal `Revoked`; only its
/// owner may.
pub fn revoke_rule(ctx: &RevokeRule, rule: &mut AccessRule) -> (r: Result<RuleRevoked, ErrorCode>)
    ensures
        match r {
            Ok(ev) => {
                &&& revoke_error(*old(rule), ctx.owner) is None
                &&& *final(rule) == old(rule).with_state(RuleState::Revoked)
                &&& ev == (RuleRevoked { dataset_id: old(rule).dataset_id, timestamp: ctx.now })
            },
            Err(e) => {
                &&& revoke_error(*old(rule), ctx.owner) == Some(e)
                &&& *final(rule) == *old(rule)
            },
        },
{
    if !authorize(&ctx.owner, &rule.owner) {
        return Err(ErrorCode::UnauthorizedOwner);
    }
    match rule.state {
        RuleState::Revoked => Err(ErrorCode::RuleAlreadyInactive),
        _ => {
            rule.state = RuleState::Revoked;
            Ok(RuleRevoked { dataset_id: rule.dataset_id, timestamp: ctx.now })
        },
    }
}

} // verus!
