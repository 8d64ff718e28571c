use aegis_protocol::{
    AccessStore, CreateRule, ErrorCode, PauseRule, RequestAccess, ResumeRule, RevokeRule,
    RuleState, UseCertificate, Verification,
};

const T: i64 = 1_700_000_000;
const OWNER: [u8; 32] = [7; 32];
const REQUESTER: [u8; 32] = [9; 32];
const OTHER_REQUESTER: [u8; 32] = [10; 32];
const DATASET: [u8; 32] = [1; 32];
const SECRET: [u8; 32] = [2; 32];
const H1: [u8; 32] = [3; 32];
const H2: [u8; 32] = [4; 32];

fn store_with_rule() -> AccessStore {
    let mut store = AccessStore::new();
    let ctx = CreateRule { owner: OWNER, now: T };
    store.create_rule(&ctx, DATASET, SECRET, 100, vec![H1], T, T + 1000).unwrap();
    store
}

fn at(now: i64) -> RequestAccess {
    RequestAccess { requester: REQUESTER, now }
}

#[test]
fn threshold_window_identity_scenario() {
    let mut store = store_with_rule();
    store.request_access(&at(T + 1), DATASET, SECRET, 150, H1).unwrap();
    let cert = store.certificate(&DATASET, &REQUESTER).unwrap();
    assert_eq!(cert.valid_until, (T + 1) + 3600);
    assert!(!cert.is_used);

    let second = store.request_access(&at(T + 2), DATASET, SECRET, 150, H1);
    assert_eq!(second.unwrap_err(), ErrorCode::DuplicateRequest);

    let low = store.request_access(&at(T + 2), DATASET, SECRET, 50, H1);
    assert_eq!(low.unwrap_err(), ErrorCode::InsufficientValue);

    let stranger = store.request_access(&at(T + 2), DATASET, SECRET, 150, H2);
    assert_eq!(stranger.unwrap_err(), ErrorCode::IdentityNotApproved);

    let late = store.request_access(&at(T + 2000), DATASET, SECRET, 150, H1);
    assert_eq!(late.unwrap_err(), ErrorCode::RuleExpired);

    assert_eq!(store.certificate(&DATASET, &REQUESTER).unwrap().valid_until, T + 1 + 3600);
}

#[test]
fn pause_blocks_and_resume_restores() {
    let mut store = store_with_rule();
    store.pause_rule(&PauseRule { owner: OWNER, now: T + 1 }, DATASET).unwrap();
    let r = store.request_access(&at(T + 2), DATASET, SECRET, 150, H1);
    assert_eq!(r.unwrap_err(), ErrorCode::RulePaused);
    assert!(store.certificate(&DATASET, &REQUESTER).is_none());
    store.resume_rule(&ResumeRule { owner: OWNER, now: T + 3 }, DATASET).unwrap();
    store.request_access(&at(T + 4), DATASET, SECRET, 150, H1).unwrap();
    assert_eq!(store.certificate(&DATASET, &REQUESTER).unwrap().valid_until, T + 4 + 3600);
}

#[test]
fn store_keys_are_first_write_wins() {
    let mut store = store_with_rule();
    let ctx = CreateRule { owner: [5; 32], now: T };
    let r = store.create_rule(&ctx, DATASET, [0; 32], 1, vec![], T, T + 1);
    assert_eq!(r.unwrap_err(), ErrorCode::RuleAlreadyExists);
    let rule = store.rule(&DATASET).unwrap();
    assert_eq!(rule.owner, OWNER);
    assert_eq!(rule.policy_threshold, 100);
}

#[test]
fn store_reports_missing_records() {
    let mut store = store_with_rule();
    let unknown = [99; 32];
    assert!(store.rule(&unknown).is_none());
    let r = store.request_access(&at(T + 1), unknown, SECRET, 150, H1);
    assert_eq!(r.unwrap_err(), ErrorCode::RuleNotFound);
    let r = store.pause_rule(&PauseRule { owner: OWNER, now: T }, unknown);
    assert_eq!(r.unwrap_err(), ErrorCode::RuleNotFound);
    let ctx = UseCertificate { user: REQUESTER, now: T + 1 };
    let r = store.use_certificate(&ctx, DATASET, REQUESTER, true);
    assert_eq!(r.unwrap_err(), ErrorCode::CertificateNotFound);
}

#[test]
fn store_certificate_single_use() {
    let mut store = store_with_rule();
    store.request_access(&at(T + 1), DATASET, SECRET, 150, H1).unwrap();
    let ctx = UseCertificate { user: REQUESTER, now: T + 10 };
    let ev = store.use_certificate(&ctx, DATASET, REQUESTER, true).unwrap();
    assert!(ev.action_result);
    assert!(store.certificate(&DATASET, &REQUESTER).unwrap().is_used);
    let r = store.use_certificate(&ctx, DATASET, REQUESTER, true);
    assert_eq!(r.unwrap_err(), ErrorCode::CertificateAlreadyUsed);
    store.request_access(&at(T + 11), DATASET, SECRET, 150, H1).unwrap();
    assert!(!store.certificate(&DATASET, &REQUESTER).unwrap().is_used);
}

#[test]
fn store_keeps_requesters_apart() {
    let mut store = store_with_rule();
    store.request_access(&at(T + 1), DATASET, SECRET, 150, H1).unwrap();
    let other = RequestAccess { requester: OTHER_REQUESTER, now: T + 2 };
    store
        .request_access_with_arcium(&other, DATASET, "job".to_string(), "hash".to_string(), true, 0, H1)
        .unwrap();
    let mine = store.certificate(&DATASET, &REQUESTER).unwrap();
    assert_eq!(mine.verification, Verification::Direct);
    let theirs = store.certificate(&DATASET, &OTHER_REQUESTER).unwrap();
    assert_eq!(theirs.valid_until, T + 2 + 3600);
    assert_eq!(
        theirs.verification,
        Verification::ConfidentialProof { job_id: "job".to_string(), computation_hash: "hash".to_string() }
    );
    let ctx = UseCertificate { user: REQUESTER, now: T + 3 };
    let r = store.use_certificate(&ctx, DATASET, OTHER_REQUESTER, true);
    assert_eq!(r.unwrap_err(), ErrorCode::UnauthorizedUser);
}

#[test]
fn store_revoked_rule_stays_revoked() {
    let mut store = store_with_rule();
    store.revoke_rule(&RevokeRule { owner: OWNER, now: T }, DATASET).unwrap();
    assert_eq!(store.rule(&DATASET).unwrap().state, RuleState::Revoked);
    let r = store.resume_rule(&ResumeRule { owner: OWNER, now: T }, DATASET);
    assert_eq!(r.unwrap_err(), ErrorCode::RuleNotActive);
    let r = store.request_access(&at(T + 1), DATASET, SECRET, 150, H1);
    assert_eq!(r.unwrap_err(), ErrorCode::RuleNotActive);
}
