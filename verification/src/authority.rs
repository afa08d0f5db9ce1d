use vstd::prelude::*;

verus! {

/// The authority guard: a single recognized administrator identity.
///
/// Price changes, asset registration and repricing, and reward
/// distribution are gated on this identity.  Identities are the plain
/// integer form of the account addresses the runtime hands in.  The
/// policy is deliberately a value of its own, so a deployment could swap
/// in a richer one without touching the exchange or reward logic.
#[derive(Clone, Copy, Debug, PartialEq, Eq, Structural)]
pub struct AuthorityPolicy {
    /// Identity of the recognized administrator (the deployment's upgrade
    /// authority in the on-chain layout).
    pub admin: u64,
}

impl AuthorityPolicy {
    /// Whether `caller` may perform administrator-only mutations.
    pub open spec fn spec_is_authorized(&self, caller: u64) -> bool {
        caller == self.admin
    }

    /// Runtime form of the guard.
    pub fn is_authorized(&self, caller: u64) -> (r: bool)
        ensures
            r == self.spec_is_authorized(caller),
    {
        caller == self.admin
    }
}

} // verus!
