//! The events that the treasury publishes.

use crate::host::{invocation, publish, Value};
use crate::state::state;
use soroban_sdk::{Address, BytesN, Env};
use vstd::prelude::*;

verus! {

/// Announces the administrator and the first fee rate.
pub(crate) fn treasury_initialized(env: &mut Env, admin: &Address, fee_bps: u32)
    requires
        invocation(*old(env)).in_contract,
    ensures
        invocation(*final(env)) == invocation(*old(env)),
        state(*final(env)) == state(*old(env)).publish(
            "treasury_initialized"@,
            seq![Value::Address(*admin), Value::U32(fee_bps)],
        ),
{
    proof {
        reveal_strlit("treasury_initialized");
    }
    publish(env, "treasury_initialized", (admin.clone(), fee_bps));
}

/// Announces a change of the fee rate.
pub(crate) fn fee_rate_updated(env: &mut Env, admin: &Address, old_bps: u32, new_bps: u32)
    requires
        invocation(*old(env)).in_contract,
    ensures
        invocation(*final(env)) == invocation(*old(env)),
        state(*final(env)) == state(*old(env)).publish(
            "fee_rate_updated"@,
            seq![Value::Address(*admin), Value::U32(old_bps), Value::U32(new_bps)],
        ),
{
    proof {
        reveal_strlit("fee_rate_updated");
    }
    publish(env, "fee_rate_updated", (admin.clone(), old_bps, new_bps));
}

/// Announces that a token was whitelisted.
pub(crate) fn token_whitelisted(env: &mut Env, token: &Address)
    requires
        invocation(*old(env)).in_contract,
    ensures
        invocation(*final(env)) == invocation(*old(env)),
        state(*final(env)) == state(*old(env)).publish(
            "token_whitelisted"@,
            seq![Value::Address(*token)],
        ),
{
    proof {
        reveal_strlit("token_whitelisted");
    }
    publish(env, "token_whitelisted", (token.clone(),));
}

/// Announces a fee that was paid in.
pub(crate) fn fee_collected(env: &mut Env, invoice_id: u64, amount: i128, token: &Address)
    requires
        invocation(*old(env)).in_contract,
    ensures
        invocation(*final(env)) == invocation(*old(env)),
        state(*final(env)) == state(*old(env)).publish(
            "fee_collected"@,
            seq![Value::U64(invoice_id), Value::I128(amount), Value::Address(*token)],
        ),
{
    proof {
        reveal_strlit("fee_collected");
    }
    publish(env, "fee_collected", (invoice_id, amount, token.clone()));
}

/// Announces a withdrawal.
pub(crate) fn fee_withdrawn(env: &mut Env, token: &Address, amount: i128)
    requires
        invocation(*old(env)).in_contract,
    ensures
        invocation(*final(env)) == invocation(*old(env)),
        state(*final(env)) == state(*old(env)).publish(
            "fee_withdrawn"@,
            seq![Value::Address(*token), Value::I128(amount)],
        ),
{
    proof {
        reveal_strlit("fee_withdrawn");
    }
    publish(env, "fee_withdrawn", (token.clone(), amount));
}

/// Announces an emergency withdrawal.
pub(crate) fn emergency_withdrawn(env: &mut Env, admin: &Address, token: &Address, amount: i128)
    requires
        invocation(*old(env)).in_contract,
    ensures
        invocation(*final(env)) == invocation(*old(env)),
        state(*final(env)) == state(*old(env)).publish(
            "emergency_withdrawn"@,
            seq![Value::Address(*admin), Value::Address(*token), Value::I128(amount)],
        ),
{
    proof {
        reveal_strlit("emergency_withdrawn");
    }
    publish(env, "emergency_withdrawn", (admin.clone(), token.clone(), amount));
}

/// Announces the proposal of a withdrawal cap.
pub(crate) fn withdrawal_cap_proposed(env: &mut Env, admin: &Address, new_cap: i128)
    requires
        invocation(*old(env)).in_contract,
    ensures
        invocation(*final(env)) == invocation(*old(env)),
        state(*final(env)) == state(*old(env)).publish(
            "withdrawal_cap_proposed"@,
            seq![Value::Address(*admin), Value::I128(new_cap)],
        ),
{
    proof {
        reveal_strlit("withdrawal_cap_proposed");
    }
    publish(env, "withdrawal_cap_proposed", (admin.clone(), new_cap));
}

/// Announces a change of the withdrawal cap.
pub(crate) fn withdrawal_cap_updated(env: &mut Env, admin: &Address, old_cap: i128, new_cap: i128)
    requires
        invocation(*old(env)).in_contract,
    ensures
        invocation(*final(env)) == invocation(*old(env)),
        state(*final(env)) == state(*old(env)).publish(
            "withdrawal_cap_updated"@,
            seq![Value::Address(*admin), Value::I128(old_cap), Value::I128(new_cap)],
        ),
{
    proof {
        reveal_strlit("withdrawal_cap_updated");
    }
    publish(env, "withdrawal_cap_updated", (admin.clone(), old_cap, new_cap));
}

/// Announces the proposal of an upgrade.
pub(crate) fn upgrade_proposed(env: &mut Env, admin: &Address, wasm_hash: &BytesN<32>)
    requires
        invocation(*old(env)).in_contract,
    ensures
        invocation(*final(env)) == invocation(*old(env)),
        state(*final(env)) == state(*old(env)).publish(
            "upgrade_proposed"@,
            seq![Value::Address(*admin), Value::Hash(*wasm_hash)],
        ),
{
    proof {
        reveal_strlit("upgrade_proposed");
    }
    publish(env, "upgrade_proposed", (admin.clone(), wasm_hash.clone()));
}

/// Announces an upgrade.
pub(crate) fn upgrade_executed(env: &mut Env, admin: &Address, wasm_hash: &BytesN<32>)
    requires
        invocation(*old(env)).in_contract,
    ensures
        invocation(*final(env)) == invocation(*old(env)),
        state(*final(env)) == state(*old(env)).publish(
            "upgrade_executed"@,
            seq![Value::Address(*admin), Value::Hash(*wasm_hash)],
        ),
{
    proof {
        reveal_strlit("upgrade_executed");
    }
    publish(env, "upgrade_executed", (admin.clone(), wasm_hash.clone()));
}

} // verus!
