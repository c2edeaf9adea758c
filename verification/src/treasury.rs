//! The treasury contract.

use crate::data_key::DataKey;
use crate::error::KoraError;
use crate::events;
use crate::host::{
    current_contract_address, instance_get, instance_remove, instance_set, invocation,
    ledger_timestamp, names_contract, persistent_extend_ttl, persistent_get, persistent_has,
    persistent_set, require_auth, same_address, token_answer, transfer_answer, try_balance, try_transfer,
    update_current_contract_wasm, Invocation, TokenRequest,
};
use crate::model;
use crate::reentrancy::ReentrancyGuard;
use crate::state::{
    authorizes, group_keyed, state, valid, State, DEFAULT_FEE_BPS, EPOCH_DURATION,
    PERSISTENT_BUMP_AMOUNT, PERSISTENT_LIFETIME_THRESHOLD,
};
use crate::validation::{require_not_self, require_valid_fee_bps};
use soroban_sdk::{Address, BytesN, Env};
use vstd::prelude::*;

verus! {

broadcast use group_keyed;

/// The sum of `a` and `b`, or the nearest number that fits.
fn saturating_sum(a: i128, b: i128) -> (r: i128)
    ensures
        r == model::saturated(a + b),
{
    match a.checked_add(b) {
        Some(sum) => sum,
        None => if b > 0 {
            i128::MAX
        } else {
            i128::MIN
        },
    }
}

/// What is left of `a` without `b`, or the nearest number that fits.
fn saturating_difference(a: i128, b: i128) -> (r: i128)
    ensures
        r == model::saturated(a - b),
{
    match a.checked_sub(b) {
        Some(difference) => difference,
        None => if b > 0 {
            i128::MIN
        } else {
            i128::MAX
        },
    }
}

/// `outcome` is that of a withdrawal with the arguments `args`, where `asked` is
/// the host when the token is asked for the balance, and `paying` is the host when
/// the token is asked for the transfer.
pub open spec fn withdraws(
    i: Invocation,
    s: State,
    args: (Address, Address, Address, i128),
    asked: Env,
    paying: Env,
    outcome: model::Outcome,
) -> bool {
    let (admin, token, recipient, amount) = args;
    let balance = token_answer(asked, token, i.contract);
    let paid = transfer_answer(paying, token, i.contract, recipient, amount);
    let begun = model::begin_withdrawal(i, s, admin, token, amount);
    let told = begun.0.ask(token, TokenRequest::Balance { holder: i.contract });
    let booked = model::book_withdrawal(i, told, token, amount, balance);
    &&& begun.1 is Ok ==> {
        &&& invocation(asked) == i && state(asked) == begun.0
        &&& booked.1 is Ok ==> invocation(paying) == i && state(paying) == booked.0
    }
    &&& outcome == model::withdraw(i, s, admin, token, recipient, amount, balance, paid)
}

/// `outcome` is that of an emergency withdrawal with the arguments `args`, where
/// `asked` is the host when the token is asked for the balance, and `paying` is the
/// host when the token is asked for the transfer of all of it.
pub open spec fn drains(
    i: Invocation,
    s: State,
    args: (Address, Address, Address),
    asked: Env,
    paying: Env,
    outcome: model::Outcome,
) -> bool {
    let (admin, token, recipient) = args;
    let balance = token_answer(asked, token, i.contract);
    let paid = transfer_answer(paying, token, i.contract, recipient, balance->0);
    let begun = model::begin_emergency(s, admin, token);
    let told = begun.0.ask(token, TokenRequest::Balance { holder: i.contract });
    let booked = model::book_emergency(i, told, balance);
    &&& begun.1 is Ok ==> {
        &&& invocation(asked) == i && state(asked) == begun.0
        &&& booked.1 is Ok ==> invocation(paying) == i && state(paying) == booked.0
    }
    &&& outcome == model::emergency_withdraw(i, s, admin, token, recipient, balance, paid)
}

/// The treasury.
pub struct TreasuryContract;

impl TreasuryContract {
    /// One-time initialization. Sets admin and protocol fee.
    pub fn initialize(env: &mut Env, admin: Address, fee_bps: u32) -> (r: Result<(), KoraError>)
        requires
            valid(*old(env)),
        ensures
            valid(*final(env)),
            invocation(*final(env)) == invocation(*old(env)),
            (state(*final(env)), r) == model::initialize(
                invocation(*old(env)),
                state(*old(env)),
                admin,
                fee_bps,
            ),
    {
        if persistent_has(env, &DataKey::Admin.entry()) {
            return Err(KoraError::AlreadyInitialized);
        }
        require_valid_fee_bps(fee_bps)?;
        require_not_self(env, &admin)?;
        instance_set(env, &DataKey::Admin.entry(), &admin);
        instance_set(env, &DataKey::FeeBps.entry(), &fee_bps);
        instance_set(env, &DataKey::WithdrawalLock.entry(), &false);
        persistent_set(env, &DataKey::Admin.entry(), &admin);
        Self::bump_persistent(env, &DataKey::Admin);
        persistent_set(env, &DataKey::FeeBps.entry(), &fee_bps);
        Self::bump_persistent(env, &DataKey::FeeBps);
        // Rate-limit state: uncapped, epoch starts now, zero withdrawn.
        instance_set(env, &DataKey::WithdrawalCap.entry(), &0i128);
        let now: u64 = ledger_timestamp(env);
        instance_set(env, &DataKey::EpochStart.entry(), &now);
        instance_set(env, &DataKey::EpochWithdrawn.entry(), &0i128);
        events::treasury_initialized(env, &admin, fee_bps);
        Ok(())
    }

    /// Update protocol fee. Admin only.
    pub fn set_fee_bps(env: &mut Env, admin: Address, fee_bps: u32) -> (r: Result<(), KoraError>)
        requires
            valid(*old(env)),
            authorizes(*old(env), admin),
        ensures
            valid(*final(env)),
            invocation(*final(env)) == invocation(*old(env)),
            (state(*final(env)), r) == model::set_fee_bps(
                invocation(*old(env)),
                state(*old(env)),
                admin,
                fee_bps,
            ),
    {
        Self::demand_auth(env, &admin);
        Self::require_admin(env, &admin)?;
        require_valid_fee_bps(fee_bps)?;
        let old_bps: u32 = Self::get_fee_bps(env);
        persistent_set(env, &DataKey::FeeBps.entry(), &fee_bps);
        Self::bump_persistent(env, &DataKey::FeeBps);
        events::fee_rate_updated(env, &admin, old_bps, fee_bps);
        Ok(())
    }

    /// Whitelist a token so it can be used in withdraw / emergency_withdraw.
    /// Admin only.
    pub fn whitelist_token(
        env: &mut Env,
        admin: Address,
        token: Address,
    ) -> (r: Result<(), KoraError>)
        requires
            valid(*old(env)),
            authorizes(*old(env), admin),
        ensures
            valid(*final(env)),
            invocation(*final(env)) == invocation(*old(env)),
            (state(*final(env)), r) == model::whitelist_token(
                invocation(*old(env)),
                state(*old(env)),
                admin,
                token,
            ),
    {
        Self::demand_auth(env, &admin);
        Self::require_admin(env, &admin)?;
        let key = DataKey::WhitelistedToken(token.clone());
        persistent_set(env, &key.entry(), &true);
        Self::bump_persistent(env, &key);
        events::token_whitelisted(env, &token);
        Ok(())
    }

    /// Record an incoming fee for a given token. Called by the marketplace after
    /// transferring the fee amount to this contract. Updates the informational
    /// accounting ledger.
    ///
    /// No auth required: the token transfer itself is the proof of payment. The
    /// amount must be positive, to prevent no-op accounting entries.
    pub fn collect_fee(env: &mut Env, token: Address, amount: i128) -> (r: Result<(), KoraError>)
        requires
            valid(*old(env)),
        ensures
            valid(*final(env)),
            invocation(*final(env)) == invocation(*old(env)),
            (state(*final(env)), r) == model::collect_fee(
                invocation(*old(env)),
                state(*old(env)),
                token,
                amount,
            ),
    {
        if amount <= 0 {
            return Err(KoraError::InvalidAmount);
        }
        Self::require_whitelisted_token(env, &token)?;
        let key = DataKey::Collected(token.clone());
        let recorded: Option<i128> = persistent_get(env, &key.entry());
        let current: i128 = recorded.unwrap_or(0);
        let new_total: i128 = match current.checked_add(amount) {
            Some(total) => total,
            None => {
                return Err(KoraError::ArithmeticOverflow);
            },
        };
        persistent_set(env, &key.entry(), &new_total);
        Self::bump_persistent(env, &key);
        events::fee_collected(env, 0, amount, &token);
        Ok(())
    }

    /// Withdraw accumulated fees to a recipient. Admin only.
    /// Subject to the withdrawal cap of the current 24 h epoch.
    /// Protected against reentrancy.
    ///
    /// The token's contract decides what balance it reports and whether the
    /// transfer succeeds; for each of its answers the outcome is that of
    /// [`model::withdraw`].
    pub fn withdraw(
        env: &mut Env,
        admin: Address,
        token: Address,
        recipient: Address,
        amount: i128,
    ) -> (r: Result<(), KoraError>)
        requires
            valid(*old(env)),
            authorizes(*old(env), admin),
            model::begin_withdrawal(
                invocation(*old(env)),
                state(*old(env)),
                admin,
                token,
                amount,
            ).1 is Ok ==> names_contract(token),
        ensures
            valid(*final(env)),
            invocation(*final(env)) == invocation(*old(env)),
            exists|asked: Env, paying: Env| #[trigger]
                withdraws(
                    invocation(*old(env)),
                    state(*old(env)),
                    (admin, token, recipient, amount),
                    asked,
                    paying,
                    (state(*final(env)), r),
                ),
    {
        let ghost i = invocation(*env);
        let ghost s = state(*env);
        let ghost args = (admin, token, recipient, amount);
        // Checks
        let begun = Self::begin_withdrawal(env, &admin, &token, amount);
        let ghost asked = *env;
        if begun.is_err() {
            assert(withdraws(i, s, args, asked, asked, (state(*env), begun)));
            return begun;
        }
        let own_address = current_contract_address(env);
        let balance = try_balance(env, &token, &own_address);
        assert(state(*env) == state(asked).ask(
            token,
            TokenRequest::Balance { holder: i.contract },
        ));
        // Effects
        let booked = Self::book_withdrawal(env, &token, amount, balance);
        if booked.is_err() {
            assert(withdraws(i, s, args, asked, asked, (state(*env), booked)));
            return booked;
        }
        // Interactions
        let ghost paying = *env;
        let paid = try_transfer(env, &token, &own_address, &recipient, amount);
        assert(state(*env) == model::transfer(i, state(paying), token, recipient, amount, paid));
        let finished = Self::finish_withdrawal(env, &token, amount, paid);
        assert(withdraws(i, s, args, asked, paying, (state(*env), finished)));
        finished
    }

    /// The first part of [`Self::withdraw`]: checks the request and takes the
    /// lock.
    pub fn begin_withdrawal(
        env: &mut Env,
        admin: &Address,
        token: &Address,
        amount: i128,
    ) -> (r: Result<(), KoraError>)
        requires
            valid(*old(env)),
            authorizes(*old(env), *admin),
        ensures
            valid(*final(env)),
            invocation(*final(env)) == invocation(*old(env)),
            (state(*final(env)), r) == model::begin_withdrawal(
                invocation(*old(env)),
                state(*old(env)),
                *admin,
                *token,
                amount,
            ),
    {
        Self::demand_auth(env, admin);
        Self::require_admin(env, admin)?;
        if amount <= 0 {
            return Err(KoraError::InvalidAmount);
        }
        Self::require_whitelisted_token(env, token)?;
        Self::enforce_rate_limit(env, amount)?;
        ReentrancyGuard::acquire(env)
    }

    /// The second part of [`Self::withdraw`]: enters the withdrawal in the books,
    /// given what the token reported as the treasury's balance. The lock is given
    /// back if the withdrawal ends here.
    pub fn book_withdrawal(
        env: &mut Env,
        token: &Address,
        amount: i128,
        balance: Option<i128>,
    ) -> (r: Result<(), KoraError>)
        requires
            valid(*old(env)),
        ensures
            valid(*final(env)),
            invocation(*final(env)) == invocation(*old(env)),
            (state(*final(env)), r) == model::book_withdrawal(
                invocation(*old(env)),
                state(*old(env)),
                *token,
                amount,
                balance,
            ),
    {
        match balance {
            None => {
                ReentrancyGuard::release(env);
                return Err(KoraError::TokenCallFailed);
            },
            Some(held) => if held < amount {
                ReentrancyGuard::release(env);
                return Err(KoraError::InsufficientPoolBalance);
            },
        }
        let key = DataKey::Collected(token.clone());
        let recorded: Option<i128> = persistent_get(env, &key.entry());
        if let Some(collected) = recorded {
            let new_collected: i128 = saturating_difference(collected, amount);
            persistent_set(env, &key.entry(), &new_collected);
            Self::bump_persistent(env, &key);
        }
        Self::record_withdrawal(env, amount);
        Ok(())
    }

    /// The last part of [`Self::withdraw`]: announces the withdrawal, if the token
    /// was transferred, and gives the lock back.
    pub fn finish_withdrawal(
        env: &mut Env,
        token: &Address,
        amount: i128,
        paid: bool,
    ) -> (r: Result<(), KoraError>)
        requires
            valid(*old(env)),
        ensures
            valid(*final(env)),
            invocation(*final(env)) == invocation(*old(env)),
            (state(*final(env)), r) == model::finish_withdrawal(
                state(*old(env)),
                *token,
                amount,
                paid,
            ),
    {
        if paid {
            events::fee_withdrawn(env, token, amount);
            ReentrancyGuard::release(env);
            Ok(())
        } else {
            ReentrancyGuard::release(env);
            Err(KoraError::TokenCallFailed)
        }
    }

    /// Emergency drain: withdraw entire token balance. Admin only.
    /// Subject to the withdrawal cap of the current 24 h epoch.
    /// Protected against reentrancy.
    ///
    /// The token's contract decides what balance it reports and whether the
    /// transfer succeeds; for each of its answers the outcome is that of
    /// [`model::emergency_withdraw`].
    pub fn emergency_withdraw(
        env: &mut Env,
        admin: Address,
        token: Address,
        recipient: Address,
    ) -> (r: Result<(), KoraError>)
        requires
            valid(*old(env)),
            authorizes(*old(env), admin),
            model::begin_emergency(state(*old(env)), admin, token).1 is Ok ==> names_contract(
                token,
            ),
        ensures
            valid(*final(env)),
            invocation(*final(env)) == invocation(*old(env)),
            exists|asked: Env, paying: Env| #[trigger]
                drains(
                    invocation(*old(env)),
                    state(*old(env)),
                    (admin, token, recipient),
                    asked,
                    paying,
                    (state(*final(env)), r),
                ),
    {
        let ghost i = invocation(*env);
        let ghost s = state(*env);
        let ghost args = (admin, token, recipient);
        let begun = Self::begin_emergency(env, &admin, &token);
        let ghost asked = *env;
        if begun.is_err() {
            assert(drains(i, s, args, asked, asked, (state(*env), begun)));
            return begun;
        }
        let own_address = current_contract_address(env);
        let balance = try_balance(env, &token, &own_address);
        assert(state(*env) == state(asked).ask(
            token,
            TokenRequest::Balance { holder: i.contract },
        ));
        let due: i128 = match Self::book_emergency(env, balance) {
            Ok(due) => due,
            Err(e) => {
                assert(drains(i, s, args, asked, asked, (state(*env), Err(e))));
                return Err(e);
            },
        };
        let ghost paying = *env;
        let paid = if due > 0 {
            try_transfer(env, &token, &own_address, &recipient, due)
        } else {
            false
        };
        assert(state(*env) == if due > 0 {
            model::transfer(i, state(paying), token, recipient, due, paid)
        } else {
            state(paying)
        });
        let finished = Self::finish_emergency(env, &admin, &token, due, paid);
        assert(drains(i, s, args, asked, paying, (state(*env), finished)));
        finished
    }

    /// The first part of [`Self::emergency_withdraw`]: checks the request and takes
    /// the lock.
    pub fn begin_emergency(env: &mut Env, admin: &Address, token: &Address) -> (r: Result<
        (),
        KoraError,
    >)
        requires
            valid(*old(env)),
            authorizes(*old(env), *admin),
        ensures
            valid(*final(env)),
            invocation(*final(env)) == invocation(*old(env)),
            (state(*final(env)), r) == model::begin_emergency(state(*old(env)), *admin, *token),
    {
        Self::demand_auth(env, admin);
        Self::require_admin(env, admin)?;
        Self::require_whitelisted_token(env, token)?;
        ReentrancyGuard::acquire(env)
    }

    /// The second part of [`Self::emergency_withdraw`]: enters the withdrawal in the
    /// books, given what the token reported as the treasury's balance, and says how
    /// much is to be paid out. The lock is given back if the withdrawal ends here.
    pub fn book_emergency(env: &mut Env, balance: Option<i128>) -> (r: Result<i128, KoraError>)
        requires
            valid(*old(env)),
        ensures
            valid(*final(env)),
            invocation(*final(env)) == invocation(*old(env)),
            (state(*final(env)), r) == model::book_emergency(
                invocation(*old(env)),
                state(*old(env)),
                balance,
            ),
    {
        let held: i128 = match balance {
            Some(held) => held,
            None => {
                ReentrancyGuard::release(env);
                return Err(KoraError::TokenCallFailed);
            },
        };
        if held <= 0 {
            return Ok(0);
        }
        match Self::enforce_rate_limit(env, held) {
            Ok(_) => {
                Self::record_withdrawal(env, held);
                Ok(held)
            },
            Err(e) => {
                ReentrancyGuard::release(env);
                Err(e)
            },
        }
    }

    /// The last part of [`Self::emergency_withdraw`]: announces the withdrawal, if
    /// anything was due and was transferred, and gives the lock back.
    pub fn finish_emergency(
        env: &mut Env,
        admin: &Address,
        token: &Address,
        due: i128,
        paid: bool,
    ) -> (r: Result<(), KoraError>)
        requires
            valid(*old(env)),
        ensures
            valid(*final(env)),
            invocation(*final(env)) == invocation(*old(env)),
            (state(*final(env)), r) == model::finish_emergency(
                state(*old(env)),
                *admin,
                *token,
                due,
                paid,
            ),
    {
        if due == 0 {
            ReentrancyGuard::release(env);
            Ok(())
        } else if paid {
            events::emergency_withdrawn(env, admin, token, due);
            ReentrancyGuard::release(env);
            Ok(())
        } else {
            ReentrancyGuard::release(env);
            Err(KoraError::TokenCallFailed)
        }
    }

    /// Propose a new withdrawal cap. Takes effect after the timelock delay.
    /// Admin only. Set cap to 0 to remove the limit entirely.
    pub fn propose_withdrawal_cap(
        env: &mut Env,
        admin: Address,
        new_cap: i128,
    ) -> (r: Result<(), KoraError>)
        requires
            valid(*old(env)),
            authorizes(*old(env), admin),
        ensures
            valid(*final(env)),
            invocation(*final(env)) == invocation(*old(env)),
            (state(*final(env)), r) == model::propose_withdrawal_cap(
                invocation(*old(env)),
                state(*old(env)),
                admin,
                new_cap,
            ),
    {
        Self::demand_auth(env, &admin);
        Self::require_admin(env, &admin)?;
        if new_cap < 0 {
            return Err(KoraError::InvalidAmount);
        }
        let now: u64 = ledger_timestamp(env);
        instance_set(env, &DataKey::WithdrawalCapProposal.entry(), &(new_cap, now));
        events::withdrawal_cap_proposed(env, &admin, new_cap);
        Ok(())
    }

    /// Execute a previously proposed withdrawal cap change after the timelock
    /// elapses: `timelock_delay` seconds after the proposal. Admin only.
    pub fn execute_withdrawal_cap(
        env: &mut Env,
        admin: Address,
        timelock_delay: u64,
    ) -> (r: Result<(), KoraError>)
        requires
            valid(*old(env)),
            authorizes(*old(env), admin),
        ensures
            valid(*final(env)),
            invocation(*final(env)) == invocation(*old(env)),
            (state(*final(env)), r) == model::execute_withdrawal_cap(
                invocation(*old(env)),
                state(*old(env)),
                admin,
                timelock_delay,
            ),
    {
        Self::demand_auth(env, &admin);
        Self::require_admin(env, &admin)?;
        let key = DataKey::WithdrawalCapProposal.entry();
        let proposal: Option<(i128, u64)> = instance_get(env, &key);
        let (new_cap, proposed_at): (i128, u64) = match proposal {
            Some(proposal) => proposal,
            None => {
                return Err(KoraError::NoCapChangeProposed);
            },
        };
        if !Self::timelock_elapsed(env, proposed_at, timelock_delay) {
            return Err(KoraError::WithdrawalCapTimelockNotElapsed);
        }
        let old_cap: i128 = Self::get_withdrawal_cap(env);
        instance_set(env, &DataKey::WithdrawalCap.entry(), &new_cap);
        instance_remove(env, &key);
        events::withdrawal_cap_updated(env, &admin, old_cap, new_cap);
        Ok(())
    }

    /// Returns the live token balance held by this contract.
    pub fn get_balance(env: &mut Env, token: Address) -> (r: Result<i128, KoraError>)
        requires
            valid(*old(env)),
            names_contract(token),
        ensures
            valid(*final(env)),
            invocation(*final(env)) == invocation(*old(env)),
            state(*final(env)) == state(*old(env)).ask(
                token,
                TokenRequest::Balance { holder: invocation(*old(env)).contract },
            ),
            r == (match token_answer(*old(env), token, invocation(*old(env)).contract) {
                Some(balance) => Ok::<i128, KoraError>(balance),
                None => Err(KoraError::TokenCallFailed),
            }),
    {
        let own_address = current_contract_address(env);
        let balance = try_balance(env, &token, &own_address);
        assert(state(*env) == state(*old(env)).ask(
            token,
            TokenRequest::Balance { holder: invocation(*old(env)).contract },
        ));
        match balance {
            Some(balance) => Ok(balance),
            None => Err(KoraError::TokenCallFailed),
        }
    }

    /// Returns the administrator.
    pub fn get_admin(env: &Env) -> (r: Result<Address, KoraError>)
        requires
            valid(*env),
        ensures
            r == (match state(*env).admin() {
                Some(admin) => Ok::<Address, KoraError>(admin),
                None => Err(KoraError::NotInitialized),
            }),
    {
        let admin: Option<Address> = persistent_get(env, &DataKey::Admin.entry());
        match admin {
            Some(admin) => Ok(admin),
            None => Err(KoraError::NotInitialized),
        }
    }

    /// Propose to replace the contract by the Wasm blob with the given hash. Takes
    /// effect after the timelock delay. Admin only.
    pub fn propose_upgrade(
        env: &mut Env,
        admin: Address,
        new_wasm_hash: BytesN<32>,
    ) -> (r: Result<(), KoraError>)
        requires
            valid(*old(env)),
            authorizes(*old(env), admin),
        ensures
            valid(*final(env)),
            invocation(*final(env)) == invocation(*old(env)),
            (state(*final(env)), r) == model::propose_upgrade(
                invocation(*old(env)),
                state(*old(env)),
                admin,
                new_wasm_hash,
            ),
    {
        Self::demand_auth(env, &admin);
        Self::require_admin(env, &admin)?;
        let now: u64 = ledger_timestamp(env);
        instance_set(env, &DataKey::UpgradeProposal.entry(), &(new_wasm_hash.clone(), now));
        events::upgrade_proposed(env, &admin, &new_wasm_hash);
        Ok(())
    }

    /// Execute a previously proposed upgrade after the timelock elapses:
    /// `timelock_delay` seconds after the proposal. Admin only. The proposed blob
    /// must be on the ledger.
    pub fn execute_upgrade(
        env: &mut Env,
        admin: Address,
        timelock_delay: u64,
    ) -> (r: Result<(), KoraError>)
        requires
            valid(*old(env)),
            authorizes(*old(env), admin),
            model::execute_upgrade(
                invocation(*old(env)),
                state(*old(env)),
                admin,
                timelock_delay,
            ).1 is Ok ==> (state(*old(env)).upgrade_proposal() matches Some((hash, _))
                && invocation(*old(env)).uploaded.contains(hash)),
        ensures
            valid(*final(env)),
            invocation(*final(env)) == invocation(*old(env)),
            (state(*final(env)), r) == model::execute_upgrade(
                invocation(*old(env)),
                state(*old(env)),
                admin,
                timelock_delay,
            ),
    {
        Self::demand_auth(env, &admin);
        Self::require_admin(env, &admin)?;
        let key = DataKey::UpgradeProposal.entry();
        let proposal: Option<(BytesN<32>, u64)> = instance_get(env, &key);
        let (wasm_hash, proposed_at): (BytesN<32>, u64) = match proposal {
            Some(proposal) => proposal,
            None => {
                return Err(KoraError::NoUpgradeProposed);
            },
        };
        if !Self::timelock_elapsed(env, proposed_at, timelock_delay) {
            return Err(KoraError::UpgradeTimelockNotElapsed);
        }
        instance_remove(env, &key);
        events::upgrade_executed(env, &admin, &wasm_hash);
        let ghost before = *env;
        update_current_contract_wasm(env, wasm_hash);
        assert(state(*env) == (State { replacement: Some(wasm_hash), ..state(before) }));
        Ok(())
    }

    /// Whether `timelock_delay` seconds have passed since `proposed_at`.
    fn timelock_elapsed(env: &Env, proposed_at: u64, timelock_delay: u64) -> (r: bool)
        requires
            invocation(*env).in_contract,
        ensures
            r == (invocation(*env).timestamp >= proposed_at + timelock_delay),
    {
        let now: u64 = ledger_timestamp(env);
        now >= proposed_at && now - proposed_at >= timelock_delay
    }

    /// Returns the current protocol fee in basis points.
    pub fn get_fee_bps(env: &Env) -> (r: u32)
        requires
            valid(*env),
        ensures
            r == state(*env).fee_bps(),
    {
        let key = DataKey::FeeBps.entry();
        let fee_bps: Option<u32> = persistent_get(env, &key);
        fee_bps.unwrap_or(DEFAULT_FEE_BPS)
    }

    /// Returns the current withdrawal cap (0 = uncapped).
    pub fn get_withdrawal_cap(env: &Env) -> (r: i128)
        requires
            valid(*env),
        ensures
            r == state(*env).cap(),
    {
        let key = DataKey::WithdrawalCap.entry();
        let cap: Option<i128> = instance_get(env, &key);
        cap.unwrap_or(0)
    }

    /// Demands that `address` has authorized the invocation.
    fn demand_auth(env: &mut Env, address: &Address)
        requires
            valid(*old(env)),
            authorizes(*old(env), *address),
        ensures
            valid(*final(env)),
            invocation(*final(env)) == invocation(*old(env)),
            state(*final(env)) == state(*old(env)).check_auth(*address),
    {
        require_auth(env, address);
        assert(state(*env) == state(*old(env)).check_auth(*address));
    }

    /// Refuses a caller who is not the administrator.
    fn require_admin(env: &Env, caller: &Address) -> (r: Result<(), KoraError>)
        requires
            valid(*env),
        ensures
            r == model::admin_check(state(*env), *caller),
    {
        let admin: Option<Address> = persistent_get(env, &DataKey::Admin.entry());
        match admin {
            None => Err(KoraError::NotInitialized),
            Some(admin) => if same_address(&admin, caller) {
                Ok(())
            } else {
                Err(KoraError::NotAdmin)
            },
        }
    }

    /// Refuses a token that is not whitelisted.
    fn require_whitelisted_token(env: &Env, token: &Address) -> (r: Result<(), KoraError>)
        requires
            valid(*env),
        ensures
            r == (if state(*env).is_whitelisted(*token) {
                Ok::<(), KoraError>(())
            } else {
                Err(KoraError::TokenNotWhitelisted)
            }),
    {
        let key = DataKey::WhitelistedToken(token.clone());
        let whitelisted: Option<bool> = persistent_get(env, &key.entry());
        if !whitelisted.unwrap_or(false) {
            return Err(KoraError::TokenNotWhitelisted);
        }
        Ok(())
    }

    /// Advances the epoch if 24 h have elapsed, then checks the cap.
    pub fn enforce_rate_limit(env: &mut Env, amount: i128) -> (r: Result<(), KoraError>)
        requires
            valid(*old(env)),
        ensures
            valid(*final(env)),
            invocation(*final(env)) == invocation(*old(env)),
            r == model::rate_check(invocation(*old(env)), state(*old(env)), amount),
            state(*final(env)) == model::roll_epoch(invocation(*old(env)), state(*old(env))),
    {
        let now: u64 = ledger_timestamp(env);
        let start: Option<u64> = instance_get(env, &DataKey::EpochStart.entry());
        let epoch_start: u64 = start.unwrap_or(now);
        let epoch_withdrawn: i128 = if now.saturating_sub(epoch_start) >= EPOCH_DURATION {
            instance_set(env, &DataKey::EpochStart.entry(), &now);
            instance_set(env, &DataKey::EpochWithdrawn.entry(), &0i128);
            0
        } else {
            let total: Option<i128> = instance_get(env, &DataKey::EpochWithdrawn.entry());
            total.unwrap_or(0)
        };
        let cap: i128 = Self::get_withdrawal_cap(env);
        if cap == 0 {
            return Ok(());
        }
        match epoch_withdrawn.checked_add(amount) {
            None => Err(KoraError::ArithmeticOverflow),
            Some(new_total) => if new_total > cap {
                Err(KoraError::WithdrawalRateLimitExceeded)
            } else {
                Ok(())
            },
        }
    }

    /// Records a withdrawal against the current epoch's running total.
    fn record_withdrawal(env: &mut Env, amount: i128)
        requires
            valid(*old(env)),
        ensures
            valid(*final(env)),
            invocation(*final(env)) == invocation(*old(env)),
            state(*final(env)) == model::record_withdrawal(state(*old(env)), amount),
    {
        let cap: i128 = Self::get_withdrawal_cap(env);
        if cap == 0 {
            return;
        }
        let key = DataKey::EpochWithdrawn.entry();
        let total: Option<i128> = instance_get(env, &key);
        let current: i128 = total.unwrap_or(0);
        instance_set(env, &key, &saturating_sum(current, amount));
    }

    /// Extends the life of a persistent entry.
    fn bump_persistent(env: &mut Env, key: &DataKey)
        requires
            valid(*old(env)),
            state(*old(env)).persistent.contains_key(*key),
        ensures
            valid(*final(env)),
            invocation(*final(env)) == invocation(*old(env)),
            state(*final(env)) == state(*old(env)).bump(invocation(*old(env)), *key),
    {
        persistent_extend_ttl(
            env,
            &key.entry(),
            PERSISTENT_LIFETIME_THRESHOLD,
            PERSISTENT_BUMP_AMOUNT,
        );
    }
}

} // verus!
