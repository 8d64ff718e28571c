//! The decision that the confidential computation makes. The computation
//! runs it over an encrypted amount and reveals only the verdict; here it is
//! stated over plain values.
use vstd::prelude::*;

verus! {

/// The requester's private input.
#[derive(Debug, Clone, Copy, PartialEq, Eq, Structural)]
pub struct AccessInput {
    pub secret_amount: u64,
}

/// The rule's public parameters.
#[derive(Debug, Clone, Copy, PartialEq, Eq, Structural)]
pub struct PolicyParams {
    pub threshold: u64,
}

/// The only thing the computation reveals.
#[derive(Debug, Clone, Copy, PartialEq, Eq, Structural)]
pub struct AccessResult {
    pub approved: bool,
}

/// Approves exactly when the private amount meets the public threshold.
pub fn verify_access(input: &AccessInput, params: &PolicyParams) -> (r: AccessResult)
    ensures
        r.approved == (input.secret_amount >= params.threshold),
{
    AccessResult { approved: input.secret_amount >= params.threshold }
}

} // verus!
