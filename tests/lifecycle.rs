use aegis_protocol::{
    create_rule, pause_rule, resume_rule, revoke_rule, AccessRule, CreateRule, ErrorCode,
    PauseRule, ResumeRule, RevokeRule, RuleCreated, RulePaused, RuleResumed, RuleRevoked,
    RuleState,
};

const T: i64 = 1_700_000_000;
const OWNER: [u8; 32] = [7; 32];
const STRANGER: [u8; 32] = [8; 32];
const DATASET: [u8; 32] = [1; 32];
const SECRET: [u8; 32] = [2; 32];
const H1: [u8; 32] = [3; 32];

fn new_rule() -> AccessRule {
    let ctx = CreateRule { owner: OWNER, now: T };
    let (rule, _) = create_rule(&ctx, DATASET, SECRET, 100, vec![H1], T, T + 1000).unwrap();
    rule
}

#[test]
fn create_rule_sets_fields_and_event() {
    let ctx = CreateRule { owner: OWNER, now: T };
    let (rule, ev) = create_rule(&ctx, DATASET, SECRET, 100, vec![H1, [4; 32]], T, T + 1000).unwrap();
    assert_eq!(rule.dataset_id, DATASET);
    assert_eq!(rule.secret_commitment, SECRET);
    assert_eq!(rule.policy_threshold, 100);
    assert_eq!(rule.allowed_identity_hashes, vec![H1, [4; 32]]);
    assert_eq!(rule.valid_from, T);
    assert_eq!(rule.valid_until, T + 1000);
    assert_eq!(rule.owner, OWNER);
    assert_eq!(rule.state, RuleState::Active);
    assert_eq!(
        ev,
        RuleCreated {
            dataset_id: DATASET,
            owner: OWNER,
            policy_threshold: 100,
            identity_count: 2,
            timestamp: T,
        }
    );
}

#[test]
fn create_rule_rejects_zero_threshold() {
    let ctx = CreateRule { owner: OWNER, now: T };
    let r = create_rule(&ctx, DATASET, SECRET, 0, vec![H1], T, T + 1000);
    assert_eq!(r.unwrap_err(), ErrorCode::InvalidThreshold);
}

#[test]
fn create_rule_rejects_eleven_identities() {
    let ctx = CreateRule { owner: OWNER, now: T };
    let ids: Vec<[u8; 32]> = (0..11u8).map(|i| [i; 32]).collect();
    let r = create_rule(&ctx, DATASET, SECRET, 100, ids, T, T + 1000);
    assert_eq!(r.unwrap_err(), ErrorCode::TooManyIdentities);
}

#[test]
fn create_rule_accepts_ten_identities_and_none() {
    let ctx = CreateRule { owner: OWNER, now: T };
    let ids: Vec<[u8; 32]> = (0..10u8).map(|i| [i; 32]).collect();
    let (_, ev) = create_rule(&ctx, DATASET, SECRET, 100, ids, T, T + 1000).unwrap();
    assert_eq!(ev.identity_count, 10);
    let (rule, ev) = create_rule(&ctx, DATASET, SECRET, 100, vec![], T, T + 1).unwrap();
    assert!(rule.allowed_identity_hashes.is_empty());
    assert_eq!(ev.identity_count, 0);
}

#[test]
fn create_rule_rejects_empty_or_reversed_window() {
    let ctx = CreateRule { owner: OWNER, now: T };
    let r = create_rule(&ctx, DATASET, SECRET, 100, vec![H1], T, T);
    assert_eq!(r.unwrap_err(), ErrorCode::InvalidTimeRange);
    let r = create_rule(&ctx, DATASET, SECRET, 100, vec![H1], T, T - 1);
    assert_eq!(r.unwrap_err(), ErrorCode::InvalidTimeRange);
}

#[test]
fn create_rule_checks_identities_before_threshold_and_window() {
    let ctx = CreateRule { owner: OWNER, now: T };
    let ids: Vec<[u8; 32]> = (0..11u8).map(|i| [i; 32]).collect();
    let r = create_rule(&ctx, DATASET, SECRET, 0, ids, T, T);
    assert_eq!(r.unwrap_err(), ErrorCode::TooManyIdentities);
    let r = create_rule(&ctx, DATASET, SECRET, 0, vec![H1], T, T);
    assert_eq!(r.unwrap_err(), ErrorCode::InvalidThreshold);
}

#[test]
fn pause_and_resume_by_owner() {
    let mut rule = new_rule();
    let ev = pause_rule(&PauseRule { owner: OWNER, now: T + 5 }, &mut rule).unwrap();
    assert_eq!(ev, RulePaused { dataset_id: DATASET, timestamp: T + 5 });
    assert_eq!(rule.state, RuleState::Paused);
    let again = pause_rule(&PauseRule { owner: OWNER, now: T + 6 }, &mut rule);
    assert_eq!(again.unwrap_err(), ErrorCode::RuleAlreadyPaused);
    let ev = resume_rule(&ResumeRule { owner: OWNER, now: T + 7 }, &mut rule).unwrap();
    assert_eq!(ev, RuleResumed { dataset_id: DATASET, timestamp: T + 7 });
    assert_eq!(rule.state, RuleState::Active);
    let again = resume_rule(&ResumeRule { owner: OWNER, now: T + 8 }, &mut rule);
    assert_eq!(again.unwrap_err(), ErrorCode::RuleNotPaused);
}

#[test]
fn lifecycle_rejects_other_callers() {
    let mut rule = new_rule();
    let r = pause_rule(&PauseRule { owner: STRANGER, now: T }, &mut rule);
    assert_eq!(r.unwrap_err(), ErrorCode::UnauthorizedOwner);
    let r = revoke_rule(&RevokeRule { owner: STRANGER, now: T }, &mut rule);
    assert_eq!(r.unwrap_err(), ErrorCode::UnauthorizedOwner);
    pause_rule(&PauseRule { owner: OWNER, now: T }, &mut rule).unwrap();
    let r = resume_rule(&ResumeRule { owner: STRANGER, now: T }, &mut rule);
    assert_eq!(r.unwrap_err(), ErrorCode::UnauthorizedOwner);
    assert_eq!(rule.state, RuleState::Paused);
}

#[test]
fn revoke_is_terminal() {
    let mut rule = new_rule();
    pause_rule(&PauseRule { owner: OWNER, now: T }, &mut rule).unwrap();
    let ev = revoke_rule(&RevokeRule { owner: OWNER, now: T + 9 }, &mut rule).unwrap();
    assert_eq!(ev, RuleRevoked { dataset_id: DATASET, timestamp: T + 9 });
    assert_eq!(rule.state, RuleState::Revoked);
    let r = revoke_rule(&RevokeRule { owner: OWNER, now: T }, &mut rule);
    assert_eq!(r.unwrap_err(), ErrorCode::RuleAlreadyInactive);
    let r = pause_rule(&PauseRule { owner: OWNER, now: T }, &mut rule);
    assert_eq!(r.unwrap_err(), ErrorCode::RuleNotActive);
    let r = resume_rule(&ResumeRule { owner: OWNER, now: T }, &mut rule);
    assert_eq!(r.unwrap_err(), ErrorCode::RuleNotActive);
    assert_eq!(rule.state, RuleState::Revoked);
}

#[test]
fn revoke_active_rule() {
    let mut rule = new_rule();
    revoke_rule(&RevokeRule { owner: OWNER, now: T }, &mut rule).unwrap();
    assert_eq!(rule.state, RuleState::Revoked);
    assert_eq!(rule.valid_until, T + 1000);
}
