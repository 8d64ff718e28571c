//! Access certificates: issued on an accepted request, redeemed once.
use vstd::prelude::*;

use crate::error::ErrorCode;
use crate::keys::{authorize, Key};

verus! {

/// How long a certificate stays valid after its issuance, in seconds.
pub const CERTIFICATE_VALIDITY: i64 = 3600;

/// How the requester proved eligibility.
#[derive(Debug, Clone, PartialEq, Eq)]
pub enum Verification {
    /// The requester presented the secret matching the rule's commitment.
    Direct,
    /// The requester presented the result of a confidential computation.
    ConfidentialProof { job_id: String, computation_hash: String },
}

/// A single-use, time-limited grant of access to one dataset.
#[derive(Debug, Clone, PartialEq, Eq)]
pub struct AccessCertificate {
    pub dataset_id: Key,
    pub requester: Key,
    pub issued_at: i64,
    pub valid_until: i64,
    pub is_used: bool,
    pub verification: Verification,
}

impl AccessCertificate {
    /// What issuance establishes and redemption keeps.
    pub open spec fn wf(&self) -> bool {
        self.valid_until == self.issued_at + CERTIFICATE_VALIDITY
    }

    /// Unused and not yet expired at `now`.
    pub open spec fn is_live(&self, now: i64) -> bool {
        !self.is_used && now <= self.valid_until
    }

    /// The same certificate, marked used.
    pub open spec fn redeemed(self) -> AccessCertificate {
        AccessCertificate { is_used: true, ..self }
    }
}

/// The certificate issued at `now` to `requester` for `dataset_id`.
pub open spec fn issued(
    dataset_id: Key,
    requester: Key,
    now: i64,
    verification: Verification,
) -> AccessCertificate {
    AccessCertificate {
        dataset_id,
        requester,
        issued_at: now,
        valid_until: (now + CERTIFICATE_VALIDITY) as i64,
        is_used: false,
        verification,
    }
}

/// Whether the slot that a new certificate would take holds a live one.
pub open spec fn is_duplicate(existing: Option<AccessCertificate>, now: i64) -> bool {
    existing matches Some(c) && c.is_live(now)
}

/// The caller and the time of a redemption.
#[derive(Debug, Clone, Copy)]
pub struct UseCertificate {
    pub user: Key,
    pub now: i64,
}

/// Audit event of a redemption, with the application's outcome.
#[derive(Debug, Clone, Copy, PartialEq, Eq)]
pub struct CertificateUsed {
    pub dataset_id: Key,
    pub requester: Key,
    pub action_result: bool,
    pub timestamp: i64,
}

/// Why `user` cannot redeem `cert` at `now`, if it cannot.
pub open spec fn use_error(cert: AccessCertificate, user: Key, now: i64) -> Option<ErrorCode> {
    if cert.is_used {
        Some(ErrorCode::CertificateAlreadyUsed)
    } else if now > cert.valid_until {
        Some(ErrorCode::CertificateExpired)
    } else if user != cert.requester {
        Some(ErrorCode::UnauthorizedUser)
    } else {
        None
    }
}

/// Mints a fresh certificate valid for an hour from `now`.
pub fn issue_certificate(
    dataset_id: Key,
    requester: Key,
    now: i64,
    verification: Verification,
) -> (r: AccessCertificate)
    requires
        now <= i64::MAX - CERTIFICATE_VALIDITY,
    ensures
        r == issued(dataset_id, requester, now, verification),
        r.wf(),
{
    AccessCertificate {
        dataset_id,
        requester,
        issued_at: now,
        valid_until: now + CERTIFICATE_VALIDITY,
        is_used: false,
        verification,
    }
}

/// Redeems `cert` once, on behalf of its requester, while it is valid.
pub fn use_certificate(
    ctx: &UseCertificate,
    cert: &mut AccessCertificate,
    action_result: bool,
) -> (r: Result<CertificateUsed, ErrorCode>)
    ensures
        match r {
            Ok(ev) => {
                &&& use_error(*old(cert), ctx.user, ctx.now) is None
                &&& *final(cert) == old(cert).redeemed()
                &&& ev == (CertificateUsed {
                    dataset_id: old(cert).dataset_id,
                    requester: old(cert).requester,
                    action_result,
                    timestamp: ctx.now,
                })
            },
            Err(e) => {
                &&& use_error(*old(cert), ctx.user, ctx.now) == Some(e)
                &&& *final(cert) == *old(cert)
            },
        },
{
    if cert.is_used {
        return Err(ErrorCode::CertificateAlreadyUsed);
    }
    if ctx.now > cert.valid_until {
        return Err(ErrorCode::CertificateExpired);
    }
    if !authorize(&ctx.user, &cert.requester) {
        return Err(ErrorCode::UnauthorizedUser);
    }
    cert.is_used = true;
    Ok(CertificateUsed {
        dataset_id: cert.dataset_id,
        requester: cert.requester,
        action_result,
        timestamp: ctx.now,
    })
}

} // verus!
