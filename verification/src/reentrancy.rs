//! The lock that keeps one withdrawal from starting inside another.

use crate::data_key::DataKey;
use crate::error::KoraError;
use crate::host::{instance_get, instance_set, invocation};
use crate::state::{group_keyed, state, valid};
use soroban_sdk::Env;
use vstd::prelude::*;

verus! {

broadcast use group_keyed;

/// The lock of the treasury, kept in its instance storage.
pub struct ReentrancyGuard;

impl ReentrancyGuard {
    /// Takes the lock, unless it is taken.
    pub fn acquire(env: &mut Env) -> (r: Result<(), KoraError>)
        requires
            valid(*old(env)),
        ensures
            valid(*final(env)),
            invocation(*final(env)) == invocation(*old(env)),
            r == (if state(*old(env)).is_locked() {
                Err::<(), KoraError>(KoraError::ReentrantCall)
            } else {
                Ok(())
            }),
            r is Err ==> state(*final(env)) == state(*old(env)),
            r is Ok ==> state(*final(env)) == state(*old(env)).lock(true),
    {
        let key = DataKey::WithdrawalLock.entry();
        let locked: Option<bool> = instance_get(env, &key);
        if locked.unwrap_or(false) {
            return Err(KoraError::ReentrantCall);
        }
        instance_set(env, &key, &true);
        Ok(())
    }

    /// Gives the lock back.
    pub fn release(env: &mut Env)
        requires
            valid(*old(env)),
        ensures
            valid(*final(env)),
            invocation(*final(env)) == invocation(*old(env)),
            state(*final(env)) == state(*old(env)).lock(false),
    {
        instance_set(env, &DataKey::WithdrawalLock.entry(), &false);
    }
}

} // verus!
