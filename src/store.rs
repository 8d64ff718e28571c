//! The keyed store: rules keyed by dataset, certificates keyed by dataset and
//! requester. A key is written first by the operation that creates its
//! record, and every operation is applied whole or not at all.
use vstd::prelude::*;

use crate::access::{
    request_access, request_access_with_arcium, request_error, request_with_proof_error,
    AccessGranted, AccessGrantedWithArcium, RequestAccess,
};
use crate::certificate::{
    issued, use_certificate, use_error, AccessCertificate, CertificateUsed, UseCertificate,
    Verification, CERTIFICATE_VALIDITY,
};
use crate::error::ErrorCode;
use crate::keyed::{keyed, keys_unique, lemma_keyed_index, lemma_keyed_push, lemma_keyed_update};
use crate::keys::{keys_equal, Key};
use crate::rule::{
    create_rule, creation_error, creation_event, fresh_rule, pause_error, pause_rule,
    resume_error, resume_rule, revoke_error, revoke_rule, AccessRule, CreateRule, PauseRule,
    ResumeRule, RevokeRule, RuleCreated, RulePaused, RuleResumed, RuleRevoked, RuleState,
};

verus! {

/// A rule's key.
pub open spec fn rule_key(r: AccessRule) -> Key {
    r.dataset_id
}

/// A certificate's key.
pub open spec fn certificate_key(c: AccessCertificate) -> (Key, Key) {
    (c.dataset_id, c.requester)
}

/// `rule_key` as a value.
pub open spec fn by_rule_key() -> spec_fn(AccessRule) -> Key {
    |r: AccessRule| rule_key(r)
}

/// `certificate_key` as a value.
pub open spec fn by_certificate_key() -> spec_fn(AccessCertificate) -> (Key, Key) {
    |c: AccessCertificate| certificate_key(c)
}

/// Every rule and certificate issued so far.
pub struct AccessStore {
    rules: Vec<AccessRule>,
    certificates: Vec<AccessCertificate>,
}

impl AccessStore {
    /// `self` holds the same rules and certificates as `other`.
    pub open spec fn same_contents(&self, other: &AccessStore) -> bool {
        &&& self.rules() == other.rules()
        &&& self.certificates() == other.certificates()
    }

    /// Keys are unique, and every record is well formed.
    pub closed spec fn wf(&self) -> bool {
        &&& keys_unique(self.rules@, by_rule_key())
        &&& keys_unique(self.certificates@, by_certificate_key())
        &&& forall|i: int| 0 <= i < self.rules@.len() ==> #[trigger] self.rules@[i].wf()
        &&& forall|i: int|
            0 <= i < self.certificates@.len() ==> #[trigger] self.certificates@[i].wf()
    }

    /// Every rule in a well-formed store has `valid_until > valid_from`, a
    /// positive threshold and at most ten identities; every certificate in it
    /// expires exactly one validity period after its issuance.
    pub proof fn lemma_records_wf(&self)
        requires
            self.wf(),
        ensures
            forall|k: Key| #[trigger] self.rules().contains_key(k) ==> self.rules()[k].wf(),
            forall|k: (Key, Key)| #[trigger] self.certificates().contains_key(k)
                ==> self.certificates()[k].wf(),
    {
        assert forall|k: Key| #[trigger] self.rules().contains_key(k) implies self.rules()[k].wf() by {
            let i = choose|i: int|
                0 <= i < self.rules@.len() && #[trigger] (by_rule_key())(self.rules@[i]) == k;
            lemma_keyed_index(self.rules@, by_rule_key(), i);
        }
        assert forall|k: (Key, Key)| #[trigger] self.certificates().contains_key(k) implies self.certificates()[k].wf() by {
            let i = choose|i: int|
                0 <= i < self.certificates@.len() && #[trigger] (by_certificate_key())(
                    self.certificates@[i],
                ) == k;
            lemma_keyed_index(self.certificates@, by_certificate_key(), i);
        }
    }

    /// The rules by dataset.
    pub closed spec fn rules(&self) -> Map<Key, AccessRule> {
        keyed(self.rules@, by_rule_key())
    }

    /// The certificates by dataset and requester.
    pub closed spec fn certificates(&self) -> Map<(Key, Key), AccessCertificate> {
        keyed(self.certificates@, by_certificate_key())
    }

    /// An empty store.
    pub fn new() -> (r: AccessStore)
        ensures
            r.wf(),
            r.rules() == Map::<Key, AccessRule>::empty(),
            r.certificates() == Map::<(Key, Key), AccessCertificate>::empty(),
    {
        let r = AccessStore { rules: Vec::new(), certificates: Vec::new() };
        assert(r.rules() =~= Map::<Key, AccessRule>::empty());
        assert(r.certificates() =~= Map::<(Key, Key), AccessCertificate>::empty());
        r
    }

    fn find_rule(&self, dataset_id: &Key) -> (r: Option<usize>)
        requires
            self.wf(),
        ensures
            match r {
                Some(i) => {
                    &&& i < self.rules@.len()
                    &&& self.rules@[i as int].dataset_id == *dataset_id
                    &&& self.rules().contains_key(*dataset_id)
                    &&& self.rules()[*dataset_id] == self.rules@[i as int]
                },
                None => !self.rules().contains_key(*dataset_id),
            },
    {
        let mut i: usize = 0;
        while i < self.rules.len()
            invariant
                self.wf(),
                0 <= i <= self.rules@.len(),
                forall|j: int| 0 <= j < i ==> self.rules@[j].dataset_id != *dataset_id,
            decreases self.rules@.len() - i,
        {
            if keys_equal(&self.rules[i].dataset_id, dataset_id) {
                proof {
                    lemma_keyed_index(self.rules@, by_rule_key(), i as int);
                }
                return Some(i);
            }
            i = i + 1;
        }
        None
    }

    fn find_certificate(&self, dataset_id: &Key, requester: &Key) -> (r: Option<usize>)
        requires
            self.wf(),
        ensures
            match r {
                Some(i) => {
                    &&& i < self.certificates@.len()
                    &&& certificate_key(self.certificates@[i as int]) == (*dataset_id, *requester)
                    &&& self.certificates().contains_key((*dataset_id, *requester))
                    &&& self.certificates()[(*dataset_id, *requester)]
                        == self.certificates@[i as int]
                },
                None => !self.certificates().contains_key((*dataset_id, *requester)),
            },
    {
        let mut i: usize = 0;
        while i < self.certificates.len()
            invariant
                self.wf(),
                0 <= i <= self.certificates@.len(),
                forall|j: int|
                    0 <= j < i ==> certificate_key(self.certificates@[j]) != (
                        *dataset_id,
                        *requester,
                    ),
            decreases self.certificates@.len() - i,
        {
            let c = &self.certificates[i];
            if keys_equal(&c.dataset_id, dataset_id) && keys_equal(&c.requester, requester) {
                proof {
                    lemma_keyed_index(
                        self.certificates@,
                        by_certificate_key(),
                        i as int,
                    );
                }
                return Some(i);
            }
            i = i + 1;
        }
        None
    }

    /// The rule for `dataset_id`, if there is one.
    pub fn rule(&self, dataset_id: &Key) -> (r: Option<&AccessRule>)
        requires
            self.wf(),
        ensures
            match r {
                Some(rule) => self.rules().contains_key(*dataset_id) && *rule
                    == self.rules()[*dataset_id],
                None => !self.rules().contains_key(*dataset_id),
            },
    {
        match self.find_rule(dataset_id) {
            Some(i) => Some(&self.rules[i]),
            None => None,
        }
    }

    /// The certificate of `requester` for `dataset_id`, if there is one.
    pub fn certificate(&self, dataset_id: &Key, requester: &Key) -> (r: Option<
        &AccessCertificate,
    >)
        requires
            self.wf(),
        ensures
            match r {
                Some(c) => self.certificates().contains_key((*dataset_id, *requester)) && *c
                    == self.certificates()[(*dataset_id, *requester)],
                None => !self.certificates().contains_key((*dataset_id, *requester)),
            },
    {
        match self.find_certificate(dataset_id, requester) {
            Some(i) => Some(&self.certificates[i]),
            None => None,
        }
    }

    /// Creates the rule for `dataset_id`, if the dataset has none yet.
    pub fn create_rule(
        &mut self,
        ctx: &CreateRule,
        dataset_id: Key,
        secret_commitment: Key,
        policy_threshold: u64,
        allowed_identity_hashes: Vec<Key>,
        valid_from: i64,
        valid_until: i64,
    ) -> (r: Result<RuleCreated, ErrorCode>)
        requires
            old(self).wf(),
        ensures
            final(self).wf(),
            match r {
                Ok(ev) => {
                    &&& !old(self).rules().contains_key(dataset_id)
                    &&& creation_error(
                        allowed_identity_hashes@.len(),
                        policy_threshold,
                        valid_from,
                        valid_until,
                    ) is None
                    &&& final(self).rules() == old(self).rules().insert(
                        dataset_id,
                        fresh_rule(
                            ctx.owner,
                            dataset_id,
                            secret_commitment,
                            policy_threshold,
                            allowed_identity_hashes,
                            valid_from,
                            valid_until,
                        ),
                    )
                    &&& final(self).certificates() == old(self).certificates()
                    &&& ev == creation_event(
                        ctx,
                        dataset_id,
                        policy_threshold,
                        allowed_identity_hashes@.len(),
                    )
                },
                Err(e) => {
                    &&& final(self).same_contents(old(self))
                    &&& if old(self).rules().contains_key(dataset_id) {
                        e == ErrorCode::RuleAlreadyExists
                    } else {
                        creation_error(
                            allowed_identity_hashes@.len(),
                            policy_threshold,
                            valid_from,
                            valid_until,
                        ) == Some(e)
                    }
                },
            },
    {
        if self.find_rule(&dataset_id).is_some() {
            return Err(ErrorCode::RuleAlreadyExists);
        }
        match create_rule(
            ctx,
            dataset_id,
            secret_commitment,
            policy_threshold,
            allowed_identity_hashes,
            valid_from,
            valid_until,
        ) {
            Ok((rule, ev)) => {
                proof {
                    lemma_keyed_push(self.rules@, by_rule_key(), rule);
                }
                self.rules.push(rule);
                Ok(ev)
            },
            Err(e) => Err(e),
        }
    }

    /// Pauses the rule for `dataset_id` on behalf of `ctx.owner`.
    pub fn pause_rule(&mut self, ctx: &PauseRule, dataset_id: Key) -> (r: Result<RulePaused, ErrorCode>)
        requires
            old(self).wf(),
        ensures
            final(self).wf(),
            match r {
                Ok(ev) => {
                    &&& old(self).rules().contains_key(dataset_id)
                    &&& pause_error(old(self).rules()[dataset_id], ctx.owner) is None
                    &&& final(self).rules() == old(self).rules().insert(
                        dataset_id,
                        old(self).rules()[dataset_id].with_state(RuleState::Paused),
                    )
                    &&& final(self).certificates() == old(self).certificates()
                    &&& ev == (RulePaused { dataset_id, timestamp: ctx.now })
                },
                Err(e) => {
                    &&& final(self).same_contents(old(self))
                    &&& if old(self).rules().contains_key(dataset_id) {
                        pause_error(old(self).rules()[dataset_id], ctx.owner) == Some(e)
                    } else {
                        e == ErrorCode::RuleNotFound
                    }
                },
            },
    {
        let i = match self.find_rule(&dataset_id) {
            Some(i) => i,
            None => return Err(ErrorCode::RuleNotFound),
        };
        let ghost before = self.rules@;
        let r = pause_rule(ctx, &mut self.rules[i]);
        proof {
            lemma_keyed_update(before, by_rule_key(), i as int, self.rules@[i as int]);
            assert(r is Err ==> self.rules@ =~= before);
            assert(before[i as int].wf());
            assert forall|k: int| 0 <= k < self.rules@.len() implies #[trigger] self.rules@[k].wf() by {
                if k != i {
                    assert(self.rules@[k] == before[k]);
                }
            }
        }
        r
    }

    /// Resumes the rule for `dataset_id` on behalf of `ctx.owner`.
    pub fn resume_rule(&mut self, ctx: &ResumeRule, dataset_id: Key) -> (r: Result<RuleResumed, ErrorCode>)
        requires
            old(self).wf(),
        ensures
            final(self).wf(),
            match r {
                Ok(ev) => {
                    &&& old(self).rules().contains_key(dataset_id)
                    &&& resume_error(old(self).rules()[dataset_id], ctx.owner) is None
                    &&& final(self).rules() == old(self).rules().insert(
                        dataset_id,
                        old(self).rules()[dataset_id].with_state(RuleState::Active),
                    )
                    &&& final(self).certificates() == old(self).certificates()
                    &&& ev == (RuleResumed { dataset_id, timestamp: ctx.now })
                },
                Err(e) => {
                    &&& final(self).same_contents(old(self))
                    &&& if old(self).rules().contains_key(dataset_id) {
                        resume_error(old(self).rules()[dataset_id], ctx.owner) == Some(e)
                    } else {
                        e == ErrorCode::RuleNotFound
                    }
                },
            },
    {
        let i = match self.find_rule(&dataset_id) {
            Some(i) => i,
            None => return Err(ErrorCode::RuleNotFound),
        };
        let ghost before = self.rules@;
        let r = resume_rule(ctx, &mut self.rules[i]);
        proof {
            lemma_keyed_update(before, by_rule_key(), i as int, self.rules@[i as int]);
            assert(r is Err ==> self.rules@ =~= before);
            assert(before[i as int].wf());
            assert forall|k: int| 0 <= k < self.rules@.len() implies #[trigger] self.rules@[k].wf() by {
                if k != i {
                    assert(self.rules@[k] == before[k]);
                }
            }
        }
        r
    }

    /// Revokes the rule for `dataset_id` on behalf of `ctx.owner`.
    pub fn revoke_rule(&mut self, ctx: &RevokeRule, dataset_id: Key) -> (r: Result<RuleRevoked, ErrorCode>)
        requires
            old(self).wf(),
        ensures
            final(self).wf(),
            match r {
                Ok(ev) => {
                    &&& old(self).rules().contains_key(dataset_id)
                    &&& revoke_error(old(self).rules()[dataset_id], ctx.owner) is None
                    &&& final(self).rules() == old(self).rules().insert(
                        dataset_id,
                        old(self).rules()[dataset_id].with_state(RuleState::Revoked),
                    )
                    &&& final(self).certificates() == old(self).certificates()
                    &&& ev == (RuleRevoked { dataset_id, timestamp: ctx.now })
                },
                Err(e) => {
                    &&& final(self).same_contents(old(self))
                    &&& if old(self).rules().contains_key(dataset_id) {
                        revoke_error(old(self).rules()[dataset_id], ctx.owner) == Some(e)
                    } else {
                        e == ErrorCode::RuleNotFound
                    }
                },
            },
    {
        let i = match self.find_rule(&dataset_id) {
            Some(i) => i,
            None => return Err(ErrorCode::RuleNotFound),
        };
        let ghost before = self.rules@;
        let r = revoke_rule(ctx, &mut self.rules[i]);
        proof {
            lemma_keyed_update(before, by_rule_key(), i as int, self.rules@[i as int]);
            assert(r is Err ==> self.rules@ =~= before);
            assert(before[i as int].wf());
            assert forall|k: int| 0 <= k < self.rules@.len() implies #[trigger] self.rules@[k].wf() by {
                if k != i {
                    assert(self.rules@[k] == before[k]);
                }
            }
        }
        r
    }

    /// Stores `cert` under its key, replacing what was there.
    fn put_certificate(&mut self, j: Option<usize>, cert: AccessCertificate)
        requires
            old(self).wf(),
            cert.wf(),
            match j {
                Some(j) => {
                    &&& j < old(self).certificates@.len()
                    &&& certificate_key(old(self).certificates@[j as int]) == certificate_key(cert)
                },
                None => !old(self).certificates().contains_key(certificate_key(cert)),
            },
        ensures
            final(self).wf(),
            final(self).rules() == old(self).rules(),
            final(self).certificates() == old(self).certificates().insert(
                certificate_key(cert),
                cert,
            ),
    {
        match j {
            Some(j) => {
                proof {
                    lemma_keyed_update(self.certificates@, by_certificate_key(), j as int, cert);
                }
                self.certificates.set(j, cert);
            },
            None => {
                proof {
                    lemma_keyed_push(self.certificates@, by_certificate_key(), cert);
                }
                self.certificates.push(cert);
            },
        }
    }

    /// Requests access to `dataset_id` by presenting the secret matching its
    /// rule's commitment; on acceptance stores the certificate.
    pub fn request_access(
        &mut self,
        ctx: &RequestAccess,
        dataset_id: Key,
        secret: Key,
        data_value: u64,
        identity_hash: Key,
    ) -> (r: Result<AccessGranted, ErrorCode>)
        requires
            old(self).wf(),
            ctx.now <= i64::MAX - CERTIFICATE_VALIDITY,
        ensures
            final(self).wf(),
            match r {
                Ok(ev) => {
                    &&& old(self).rules().contains_key(dataset_id)
                    &&& request_error(
                        old(self).rules()[dataset_id],
                        old(self).certificates().get((dataset_id, ctx.requester)),
                        ctx.now,
                        secret,
                        data_value,
                        identity_hash,
                    ) is None
                    &&& final(self).rules() == old(self).rules()
                    &&& final(self).certificates() == old(self).certificates().insert(
                        (dataset_id, ctx.requester),
                        issued(dataset_id, ctx.requester, ctx.now, Verification::Direct),
                    )
                    &&& ev == (AccessGranted {
                        dataset_id,
                        requester: ctx.requester,
                        data_value,
                        identity_hash,
                        timestamp: ctx.now,
                    })
                },
                Err(e) => {
                    &&& final(self).same_contents(old(self))
                    &&& if old(self).rules().contains_key(dataset_id) {
                        request_error(
                            old(self).rules()[dataset_id],
                            old(self).certificates().get((dataset_id, ctx.requester)),
                            ctx.now,
                            secret,
                            data_value,
                            identity_hash,
                        ) == Some(e)
                    } else {
                        e == ErrorCode::RuleNotFound
                    }
                },
            },
    {
        let i = match self.find_rule(&dataset_id) {
            Some(i) => i,
            None => return Err(ErrorCode::RuleNotFound),
        };
        let j = self.find_certificate(&dataset_id, &ctx.requester);
        let existing = match j {
            Some(j) => Some(&self.certificates[j]),
            None => None,
        };
        let (cert, ev) = match request_access(
            ctx,
            &self.rules[i],
            existing,
            secret,
            data_value,
            identity_hash,
        ) {
            Ok(granted) => granted,
            Err(e) => return Err(e),
        };
        self.put_certificate(j, cert);
        Ok(ev)
    }

    /// Requests access to `dataset_id` by presenting a confidential
    /// computation's job id and hash, with `attested` the verdict of whatever
    /// checks that pair; on acceptance stores the certificate.
    pub fn request_access_with_arcium(
        &mut self,
        ctx: &RequestAccess,
        dataset_id: Key,
        arcium_job_id: String,
        arcium_computation_hash: String,
        attested: bool,
        data_value: u64,
        identity_hash: Key,
    ) -> (r: Result<AccessGrantedWithArcium, ErrorCode>)
        requires
            old(self).wf(),
            ctx.now <= i64::MAX - CERTIFICATE_VALIDITY,
        ensures
            final(self).wf(),
            match r {
                Ok(ev) => {
                    &&& old(self).rules().contains_key(dataset_id)
                    &&& request_with_proof_error(
                        old(self).rules()[dataset_id],
                        old(self).certificates().get((dataset_id, ctx.requester)),
                        ctx.now,
                        arcium_job_id@,
                        arcium_computation_hash@,
                        attested,
                        identity_hash,
                    ) is None
                    &&& final(self).rules() == old(self).rules()
                    &&& final(self).certificates() == old(self).certificates().insert(
                        (dataset_id, ctx.requester),
                        issued(
                            dataset_id,
                            ctx.requester,
                            ctx.now,
                            Verification::ConfidentialProof {
                                job_id: arcium_job_id,
                                computation_hash: arcium_computation_hash,
                            },
                        ),
                    )
                    &&& ev == (AccessGrantedWithArcium {
                        dataset_id,
                        requester: ctx.requester,
                        data_value,
                        identity_hash,
                        arcium_job_id,
                        arcium_computation_hash,
                        timestamp: ctx.now,
                    })
                },
                Err(e) => {
                    &&& final(self).same_contents(old(self))
                    &&& if old(self).rules().contains_key(dataset_id) {
                        request_with_proof_error(
                            old(self).rules()[dataset_id],
                            old(self).certificates().get((dataset_id, ctx.requester)),
                            ctx.now,
                            arcium_job_id@,
                            arcium_computation_hash@,
                            attested,
                            identity_hash,
                        ) == Some(e)
                    } else {
                        e == ErrorCode::RuleNotFound
                    }
                },
            },
    {
        let i = match self.find_rule(&dataset_id) {
            Some(i) => i,
            None => return Err(ErrorCode::RuleNotFound),
        };
        let j = self.find_certificate(&dataset_id, &ctx.requester);
        let existing = match j {
            Some(j) => Some(&self.certificates[j]),
            None => None,
        };
        let (cert, ev) = match request_access_with_arcium(
            ctx,
            &self.rules[i],
            existing,
            arcium_job_id,
            arcium_computation_hash,
            attested,
            data_value,
            identity_hash,
        ) {
            Ok(granted) => granted,
            Err(e) => return Err(e),
        };
        self.put_certificate(j, cert);
        Ok(ev)
    }

    /// Redeems the certificate of `requester` for `dataset_id` on behalf of
    /// `ctx.user`.
    pub fn use_certificate(
        &mut self,
        ctx: &UseCertificate,
        dataset_id: Key,
        requester: Key,
        action_result: bool,
    ) -> (r: Result<CertificateUsed, ErrorCode>)
        requires
            old(self).wf(),
        ensures
            final(self).wf(),
            match r {
                Ok(ev) => {
                    &&& old(self).certificates().contains_key((dataset_id, requester))
                    &&& use_error(
                        old(self).certificates()[(dataset_id, requester)],
                        ctx.user,
                        ctx.now,
                    ) is None
                    &&& final(self).rules() == old(self).rules()
                    &&& final(self).certificates() == old(self).certificates().insert(
                        (dataset_id, requester),
                        old(self).certificates()[(dataset_id, requester)].redeemed(),
                    )
                    &&& ev == (CertificateUsed {
                        dataset_id,
                        requester,
                        action_result,
                        timestamp: ctx.now,
                    })
                },
                Err(e) => {
                    &&& final(self).same_contents(old(self))
                    &&& if old(self).certificates().contains_key((dataset_id, requester)) {
                        use_error(
                            old(self).certificates()[(dataset_id, requester)],
                            ctx.user,
                            ctx.now,
                        ) == Some(e)
                    } else {
                        e == ErrorCode::CertificateNotFound
                    }
                },
            },
    {
        let j = match self.find_certificate(&dataset_id, &requester) {
            Some(j) => j,
            None => return Err(ErrorCode::CertificateNotFound),
        };
        let ghost before = self.certificates@;
        let r = use_certificate(ctx, &mut self.certificates[j], action_result);
        proof {
            lemma_keyed_update(
                before,
                by_certificate_key(),
                j as int,
                self.certificates@[j as int],
            );
            assert(r is Err ==> self.certificates@ =~= before);
            assert(before[j as int].wf());
            assert forall|k: int| 0 <= k < self.certificates@.len() implies #[trigger] self.certificates@[k].wf() by {
                if k != j {
                    assert(self.certificates@[k] == before[k]);
                }
            }
        }
        r
    }
}

} // verus!
