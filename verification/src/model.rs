//! What each call does to the state of the treasury, and what it answers.

use crate::data_key::DataKey;
use crate::error::KoraError;
use crate::host::{Invocation, TokenRequest, Value};
use crate::state::{State, EPOCH_DURATION, MAX_FEE_BPS};
use soroban_sdk::{Address, BytesN};
use vstd::prelude::*;

verus! {

/// The state after a call, and the call's answer.
pub type Outcome = (State, Result<(), KoraError>);

/// Whether `caller` may act as the administrator.
pub open spec fn admin_check(s: State, caller: Address) -> Result<(), KoraError> {
    match s.admin() {
        None => Err(KoraError::NotInitialized),
        Some(admin) => if admin == caller {
            Ok(())
        } else {
            Err(KoraError::NotAdmin)
        },
    }
}

/// The number of type `i128` that is nearest to `x`.
pub open spec fn saturated(x: int) -> i128 {
    if x > i128::MAX {
        i128::MAX
    } else if x < i128::MIN {
        i128::MIN
    } else {
        x as i128
    }
}

/// Whether the epoch on record has run its time.
pub open spec fn epoch_over(i: Invocation, s: State) -> bool {
    i.timestamp - s.epoch_start(i.timestamp) >= EPOCH_DURATION
}

/// The state once a new epoch has been started, if one is due.
pub open spec fn roll_epoch(i: Invocation, s: State) -> State {
    if epoch_over(i, s) {
        s.keep(DataKey::EpochStart, Value::U64(i.timestamp)).keep(
            DataKey::EpochWithdrawn,
            Value::I128(0),
        )
    } else {
        s
    }
}

/// What has been withdrawn in the current epoch.
pub open spec fn spent(i: Invocation, s: State) -> i128 {
    if epoch_over(i, s) {
        0
    } else {
        s.epoch_withdrawn()
    }
}

/// Whether the cap leaves room for `amount`.
pub open spec fn rate_check(i: Invocation, s: State, amount: i128) -> Result<(), KoraError> {
    let total = spent(i, s) + amount;
    if s.cap() == 0 {
        Ok(())
    } else if total > i128::MAX || total < i128::MIN {
        Err(KoraError::ArithmeticOverflow)
    } else if total > s.cap() {
        Err(KoraError::WithdrawalRateLimitExceeded)
    } else {
        Ok(())
    }
}

/// With a withdrawal added to the running total, if a cap is in force.
pub open spec fn record_withdrawal(s: State, amount: i128) -> State {
    if s.cap() == 0 {
        s
    } else {
        s.keep(
            DataKey::EpochWithdrawn,
            Value::I128(saturated(s.epoch_withdrawn() + amount)),
        )
    }
}

/// With `amount` taken off the fees on record for `token`, if there are any.
pub open spec fn debit(i: Invocation, s: State, token: Address, amount: i128) -> State {
    match s.collected(token) {
        Some(total) => s.store(
            i,
            DataKey::Collected(token),
            Value::I128(saturated(total - amount)),
        ),
        None => s,
    }
}

/// The first call of all: names the administrator and the fee rate.
pub open spec fn initialize(i: Invocation, s: State, admin: Address, fee_bps: u32) -> Outcome {
    if s.admin() is Some {
        (s, Err(KoraError::AlreadyInitialized))
    } else if fee_bps > MAX_FEE_BPS {
        (s, Err(KoraError::InvalidFeeBps))
    } else if admin == i.contract {
        (s, Err(KoraError::InvalidAddress))
    } else {
        (
            s.store(i, DataKey::Admin, Value::Address(admin)).store(
                i,
                DataKey::FeeBps,
                Value::U32(fee_bps),
            ).keep(DataKey::Admin, Value::Address(admin)).keep(
                DataKey::FeeBps,
                Value::U32(fee_bps),
            ).lock(false).keep(DataKey::WithdrawalCap, Value::I128(0)).keep(
                DataKey::EpochStart,
                Value::U64(i.timestamp),
            ).keep(DataKey::EpochWithdrawn, Value::I128(0)).publish(
                "treasury_initialized"@,
                seq![Value::Address(admin), Value::U32(fee_bps)],
            ),
            Ok(()),
        )
    }
}

/// A change of the fee rate.
pub open spec fn set_fee_bps(i: Invocation, s: State, admin: Address, fee_bps: u32) -> Outcome {
    let asked = s.check_auth(admin);
    match admin_check(s, admin) {
        Err(e) => (asked, Err(e)),
        Ok(_) => if fee_bps > MAX_FEE_BPS {
            (asked, Err(KoraError::InvalidFeeBps))
        } else {
            (
                asked.store(i, DataKey::FeeBps, Value::U32(fee_bps)).publish(
                    "fee_rate_updated"@,
                    seq![Value::Address(admin), Value::U32(s.fee_bps()), Value::U32(fee_bps)],
                ),
                Ok(()),
            )
        },
    }
}

/// The whitelisting of a token.
pub open spec fn whitelist_token(
    i: Invocation,
    s: State,
    admin: Address,
    token: Address,
) -> Outcome {
    let asked = s.check_auth(admin);
    match admin_check(s, admin) {
        Err(e) => (asked, Err(e)),
        Ok(_) => (
            asked.store(i, DataKey::WhitelistedToken(token), Value::Bool(true)).publish(
                "token_whitelisted"@,
                seq![Value::Address(token)],
            ),
            Ok(()),
        ),
    }
}

/// The recording of a fee that has been paid in.
pub open spec fn collect_fee(i: Invocation, s: State, token: Address, amount: i128) -> Outcome {
    let total = s.collected(token).unwrap_or(0) + amount;
    if amount <= 0 {
        (s, Err(KoraError::InvalidAmount))
    } else if !s.is_whitelisted(token) {
        (s, Err(KoraError::TokenNotWhitelisted))
    } else if total > i128::MAX {
        (s, Err(KoraError::ArithmeticOverflow))
    } else {
        (
            s.store(i, DataKey::Collected(token), Value::I128(total as i128)).publish(
                "fee_collected"@,
                seq![Value::U64(0), Value::I128(amount), Value::Address(token)],
            ),
            Ok(()),
        )
    }
}

/// The first part of a withdrawal: the checks, and the taking of the lock.
pub open spec fn begin_withdrawal(
    i: Invocation,
    s: State,
    admin: Address,
    token: Address,
    amount: i128,
) -> Outcome {
    let asked = s.check_auth(admin);
    let rolled = roll_epoch(i, asked);
    if admin_check(s, admin) is Err {
        (asked, admin_check(s, admin))
    } else if amount <= 0 {
        (asked, Err(KoraError::InvalidAmount))
    } else if !s.is_whitelisted(token) {
        (asked, Err(KoraError::TokenNotWhitelisted))
    } else if rate_check(i, s, amount) is Err {
        (rolled, rate_check(i, s, amount))
    } else if s.is_locked() {
        (rolled, Err(KoraError::ReentrantCall))
    } else {
        (rolled.lock(true), Ok(()))
    }
}

/// The second part of a withdrawal: the books, for a given balance of the
/// treasury.
pub open spec fn book_withdrawal(
    i: Invocation,
    s: State,
    token: Address,
    amount: i128,
    balance: Option<i128>,
) -> Outcome {
    match balance {
        None => (s.lock(false), Err(KoraError::TokenCallFailed)),
        Some(held) => if held < amount {
            (s.lock(false), Err(KoraError::InsufficientPoolBalance))
        } else {
            (record_withdrawal(debit(i, s, token, amount), amount), Ok(()))
        },
    }
}

/// A transfer out of the treasury that is asked for, and made if `paid`.
pub open spec fn transfer(
    i: Invocation,
    s: State,
    token: Address,
    to: Address,
    amount: i128,
    paid: bool,
) -> State {
    let asked = s.ask(token, TokenRequest::Transfer { from: i.contract, to, amount });
    if paid {
        asked.pay(i, token, to, amount)
    } else {
        asked
    }
}

/// The last part of a withdrawal: the event and the release of the lock, for a
/// given outcome of the transfer.
pub open spec fn finish_withdrawal(s: State, token: Address, amount: i128, paid: bool) -> Outcome {
    if paid {
        (
            s.publish("fee_withdrawn"@, seq![Value::Address(token), Value::I128(amount)]).lock(
                false,
            ),
            Ok(()),
        )
    } else {
        (s.lock(false), Err(KoraError::TokenCallFailed))
    }
}

/// A withdrawal, for a given balance of the treasury and a given outcome of the
/// transfer.
pub open spec fn withdraw(
    i: Invocation,
    s: State,
    admin: Address,
    token: Address,
    recipient: Address,
    amount: i128,
    balance: Option<i128>,
    paid: bool,
) -> Outcome {
    let begun = begin_withdrawal(i, s, admin, token, amount);
    if begun.1 is Err {
        begun
    } else {
        let asked = begun.0.ask(token, TokenRequest::Balance { holder: i.contract });
        let booked = book_withdrawal(i, asked, token, amount, balance);
        if booked.1 is Err {
            booked
        } else {
            finish_withdrawal(
                transfer(i, booked.0, token, recipient, amount, paid),
                token,
                amount,
                paid,
            )
        }
    }
}

/// The first part of an emergency withdrawal: the checks, and the taking of the
/// lock.
pub open spec fn begin_emergency(s: State, admin: Address, token: Address) -> Outcome {
    let asked = s.check_auth(admin);
    if admin_check(s, admin) is Err {
        (asked, admin_check(s, admin))
    } else if !s.is_whitelisted(token) {
        (asked, Err(KoraError::TokenNotWhitelisted))
    } else if s.is_locked() {
        (asked, Err(KoraError::ReentrantCall))
    } else {
        (asked.lock(true), Ok(()))
    }
}

/// The second part of an emergency withdrawal: the books, for a given balance of
/// the treasury. The answer is the amount to pay out.
pub open spec fn book_emergency(i: Invocation, s: State, balance: Option<i128>) -> (
    State,
    Result<i128, KoraError>,
) {
    match balance {
        None => (s.lock(false), Err(KoraError::TokenCallFailed)),
        Some(held) => if held <= 0 {
            (s, Ok(0))
        } else {
            match rate_check(i, s, held) {
                Err(e) => (roll_epoch(i, s).lock(false), Err(e)),
                Ok(_) => (record_withdrawal(roll_epoch(i, s), held), Ok(held)),
            }
        },
    }
}

/// The last part of an emergency withdrawal: the event, if anything was due, and
/// the release of the lock, for a given outcome of the transfer.
pub open spec fn finish_emergency(
    s: State,
    admin: Address,
    token: Address,
    due: i128,
    paid: bool,
) -> Outcome {
    if due == 0 {
        (s.lock(false), Ok(()))
    } else if paid {
        (
            s.publish(
                "emergency_withdrawn"@,
                seq![Value::Address(admin), Value::Address(token), Value::I128(due)],
            ).lock(false),
            Ok(()),
        )
    } else {
        (s.lock(false), Err(KoraError::TokenCallFailed))
    }
}

/// An emergency withdrawal, for a given balance of the treasury and a given
/// outcome of the transfer.
pub open spec fn emergency_withdraw(
    i: Invocation,
    s: State,
    admin: Address,
    token: Address,
    recipient: Address,
    balance: Option<i128>,
    paid: bool,
) -> Outcome {
    let begun = begin_emergency(s, admin, token);
    if begun.1 is Err {
        begun
    } else {
        let asked = begun.0.ask(token, TokenRequest::Balance { holder: i.contract });
        let booked = book_emergency(i, asked, balance);
        match booked.1 {
            Err(e) => (booked.0, Err(e)),
            Ok(due) => finish_emergency(
                if due > 0 {
                    transfer(i, booked.0, token, recipient, due, paid)
                } else {
                    booked.0
                },
                admin,
                token,
                due,
                paid,
            ),
        }
    }
}

/// The proposal of a withdrawal cap.
pub open spec fn propose_withdrawal_cap(
    i: Invocation,
    s: State,
    admin: Address,
    new_cap: i128,
) -> Outcome {
    let asked = s.check_auth(admin);
    match admin_check(s, admin) {
        Err(e) => (asked, Err(e)),
        Ok(_) => if new_cap < 0 {
            (asked, Err(KoraError::InvalidAmount))
        } else {
            (
                asked.keep(
                    DataKey::WithdrawalCapProposal,
                    Value::AmountAt(new_cap, i.timestamp),
                ).publish(
                    "withdrawal_cap_proposed"@,
                    seq![Value::Address(admin), Value::I128(new_cap)],
                ),
                Ok(()),
            )
        },
    }
}

/// The execution of the proposed withdrawal cap.
pub open spec fn execute_withdrawal_cap(
    i: Invocation,
    s: State,
    admin: Address,
    timelock_delay: u64,
) -> Outcome {
    let asked = s.check_auth(admin);
    match admin_check(s, admin) {
        Err(e) => (asked, Err(e)),
        Ok(_) => match s.cap_proposal() {
            None => (asked, Err(KoraError::NoCapChangeProposed)),
            Some((new_cap, proposed_at)) => if i.timestamp < proposed_at + timelock_delay {
                (asked, Err(KoraError::WithdrawalCapTimelockNotElapsed))
            } else {
                (
                    asked.keep(DataKey::WithdrawalCap, Value::I128(new_cap)).forget(
                        DataKey::WithdrawalCapProposal,
                    ).publish(
                        "withdrawal_cap_updated"@,
                        seq![Value::Address(admin), Value::I128(s.cap()), Value::I128(new_cap)],
                    ),
                    Ok(()),
                )
            },
        },
    }
}

/// The proposal of an upgrade.
pub open spec fn propose_upgrade(
    i: Invocation,
    s: State,
    admin: Address,
    new_wasm_hash: BytesN<32>,
) -> Outcome {
    let asked = s.check_auth(admin);
    match admin_check(s, admin) {
        Err(e) => (asked, Err(e)),
        Ok(_) => (
            asked.keep(
                DataKey::UpgradeProposal,
                Value::HashAt(new_wasm_hash, i.timestamp),
            ).publish(
                "upgrade_proposed"@,
                seq![Value::Address(admin), Value::Hash(new_wasm_hash)],
            ),
            Ok(()),
        ),
    }
}

/// The execution of the proposed upgrade.
pub open spec fn execute_upgrade(
    i: Invocation,
    s: State,
    admin: Address,
    timelock_delay: u64,
) -> Outcome {
    let asked = s.check_auth(admin);
    match admin_check(s, admin) {
        Err(e) => (asked, Err(e)),
        Ok(_) => match s.upgrade_proposal() {
            None => (asked, Err(KoraError::NoUpgradeProposed)),
            Some((wasm_hash, proposed_at)) => if i.timestamp < proposed_at + timelock_delay {
                (asked, Err(KoraError::UpgradeTimelockNotElapsed))
            } else {
                (
                    State {
                        replacement: Some(wasm_hash),
                        ..asked.forget(DataKey::UpgradeProposal).publish(
                            "upgrade_executed"@,
                            seq![Value::Address(admin), Value::Hash(wasm_hash)],
                        )
                    },
                    Ok(()),
                )
            },
        },
    }
}

} // verus!
