//! Checks on the arguments of calls.

use crate::error::KoraError;
use crate::host::{current_contract_address, invocation, same_address};
use crate::state::MAX_FEE_BPS;
use soroban_sdk::{Address, Env};
use vstd::prelude::*;

verus! {

/// Refuses a fee rate that exceeds the whole.
pub fn require_valid_fee_bps(fee_bps: u32) -> (r: Result<(), KoraError>)
    ensures
        r == (if fee_bps > MAX_FEE_BPS {
            Err::<(), KoraError>(KoraError::InvalidFeeBps)
        } else {
            Ok(())
        }),
{
    if fee_bps > MAX_FEE_BPS {
        return Err(KoraError::InvalidFeeBps);
    }
    Ok(())
}

/// Refuses the executing contract's own address.
pub fn require_not_self(env: &Env, address: &Address) -> (r: Result<(), KoraError>)
    requires
        invocation(*env).in_contract,
    ensures
        r == (if *address == invocation(*env).contract {
            Err::<(), KoraError>(KoraError::InvalidAddress)
        } else {
            Ok(())
        }),
{
    if same_address(address, &current_contract_address(env)) {
        return Err(KoraError::InvalidAddress);
    }
    Ok(())
}

} // verus!
