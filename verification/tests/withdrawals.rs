//! Withdrawals: what they pay, what they record and when they are refused.

use std::cell::Cell;
use std::rc::Rc;

use soroban_sdk::testutils::{Address as _, ContractFunctionSet, EnvTestConfig, Ledger as _};
use soroban_sdk::token::{StellarAssetClient, TokenClient};
use soroban_sdk::{Address, Env, IntoVal, Symbol, Val};
use treasury::{KoraError, TreasuryContract};

const DAY: u64 = 86_400;

/// The contract under whose address the treasury runs.
struct Deployed;

impl ContractFunctionSet for Deployed {
    fn call(&self, _func: &str, _env: Env, _args: &[Val]) -> Option<Val> {
        None
    }
}

/// A token that reports a fixed balance, if any, and does or does not transfer.
struct Puppet {
    balance: Option<i128>,
    transfers: bool,
}

impl ContractFunctionSet for Puppet {
    fn call(&self, func: &str, env: Env, _args: &[Val]) -> Option<Val> {
        match func {
            "balance" => self.balance.map(|held| held.into_val(&env)),
            "transfer" if self.transfers => Some(().into_val(&env)),
            _ => None,
        }
    }
}

/// A token of which any number is held, and that counts the calls of it.
struct Counter {
    calls: Rc<Cell<u32>>,
}

impl ContractFunctionSet for Counter {
    fn call(&self, func: &str, env: Env, _args: &[Val]) -> Option<Val> {
        match func {
            "balance" => {
                self.calls.set(self.calls.get() + 1);
                Some(100i128.into_val(&env))
            }
            "transfer" => {
                self.calls.set(self.calls.get() + 1);
                Some(().into_val(&env))
            }
            _ => None,
        }
    }
}

/// A token that answers with something that is no balance.
struct Babbler;

impl ContractFunctionSet for Babbler {
    fn call(&self, func: &str, env: Env, _args: &[Val]) -> Option<Val> {
        if func == "balance" {
            Some(true.into_val(&env))
        } else {
            None
        }
    }
}

/// An initialized treasury on a host of its own.
struct Treasury {
    env: Env,
    id: Address,
    admin: Address,
    recipient: Address,
}

impl Treasury {
    fn new() -> Treasury {
        let env = Env::new_with_config(EnvTestConfig { capture_snapshot_at_drop: false });
        env.mock_all_auths();
        let id = env.register(Deployed, ());
        let admin = Address::generate(&env);
        let recipient = Address::generate(&env);
        let treasury = Treasury { env, id, admin, recipient };
        treasury
            .call(|env| TreasuryContract::initialize(env, treasury.admin.clone(), 50))
            .unwrap();
        treasury
    }

    /// Runs `f` as one invocation of the treasury.
    fn call<T>(&self, f: impl FnOnce(&mut Env) -> T) -> T {
        let mut env = self.env.clone();
        self.env.as_contract(&self.id, || f(&mut env))
    }

    fn whitelist(&self, token: &Address) {
        self.call(|env| {
            TreasuryContract::whitelist_token(env, self.admin.clone(), token.clone())
        })
        .unwrap();
    }

    /// A whitelisted token of which the treasury holds `amount`.
    fn funded_token(&self, amount: i128) -> Address {
        let issuer = Address::generate(&self.env);
        let token = self.env.register_stellar_asset_contract_v2(issuer).address();
        if amount > 0 {
            StellarAssetClient::new(&self.env, &token).mint(&self.id, &amount);
        }
        self.whitelist(&token);
        token
    }

    fn puppet(&self, balance: Option<i128>, transfers: bool) -> Address {
        let token = self.env.register(Puppet { balance, transfers }, ());
        self.whitelist(&token);
        token
    }

    fn held(&self, token: &Address, holder: &Address) -> i128 {
        TokenClient::new(&self.env, token).balance(holder)
    }

    fn collect(&self, token: &Address, amount: i128) -> Result<(), KoraError> {
        self.call(|env| TreasuryContract::collect_fee(env, token.clone(), amount))
    }

    fn withdraw(&self, token: &Address, amount: i128) -> Result<(), KoraError> {
        self.call(|env| {
            TreasuryContract::withdraw(
                env,
                self.admin.clone(),
                token.clone(),
                self.recipient.clone(),
                amount,
            )
        })
    }

    fn drain(&self, token: &Address) -> Result<(), KoraError> {
        self.call(|env| {
            TreasuryContract::emergency_withdraw(
                env,
                self.admin.clone(),
                token.clone(),
                self.recipient.clone(),
            )
        })
    }

    fn put_cap_in_force(&self, cap: i128) {
        self.call(|env| TreasuryContract::propose_withdrawal_cap(env, self.admin.clone(), cap))
            .unwrap();
        self.call(|env| TreasuryContract::execute_withdrawal_cap(env, self.admin.clone(), 0))
            .unwrap();
    }

    /// The fees on record for a token.
    fn on_record(&self, token: &Address) -> Option<i128> {
        self.call(|env| {
            let key = (Symbol::new(env, "Collected"), token.clone());
            env.storage().persistent().get(&key)
        })
    }

    fn is_locked(&self) -> bool {
        self.call(|env| {
            let key = (Symbol::new(env, "WithdrawalLock"),);
            env.storage().instance().get(&key).unwrap()
        })
    }

    fn epoch_total(&self) -> i128 {
        self.call(|env| {
            let key = (Symbol::new(env, "EpochWithdrawn"),);
            env.storage().instance().get(&key).unwrap()
        })
    }

    fn epoch_start(&self) -> u64 {
        self.call(|env| {
            let key = (Symbol::new(env, "EpochStart"),);
            env.storage().instance().get(&key).unwrap()
        })
    }

    fn check_rate(&self, amount: i128) -> Result<(), KoraError> {
        self.call(|env| TreasuryContract::enforce_rate_limit(env, amount))
    }

    fn set_time(&self, now: u64) {
        self.env.ledger().set_timestamp(now);
    }
}

#[test]
fn withdrawal_pays_exactly_the_amount() {
    let treasury = Treasury::new();
    let token = treasury.funded_token(1_000);
    treasury.collect(&token, 1_000).unwrap();
    assert_eq!(treasury.withdraw(&token, 400), Ok(()));
    assert_eq!(treasury.held(&token, &treasury.id), 600);
    assert_eq!(treasury.held(&token, &treasury.recipient), 400);
    assert_eq!(treasury.on_record(&token), Some(600));
    assert!(!treasury.is_locked());
}

#[test]
fn withdrawal_of_the_whole_balance_succeeds() {
    let treasury = Treasury::new();
    let token = treasury.funded_token(1_000);
    assert_eq!(treasury.withdraw(&token, 1_000), Ok(()));
    assert_eq!(treasury.held(&token, &treasury.recipient), 1_000);
    assert_eq!(treasury.on_record(&token), None);
}

#[test]
fn withdrawal_beyond_the_balance_is_refused() {
    let treasury = Treasury::new();
    let token = treasury.funded_token(1_000);
    assert_eq!(treasury.withdraw(&token, 1_001), Err(KoraError::InsufficientPoolBalance));
    assert_eq!(treasury.held(&token, &treasury.id), 1_000);
    assert!(!treasury.is_locked());
    assert_eq!(treasury.withdraw(&token, 1), Ok(()));
}

#[test]
fn withdrawal_of_an_unlisted_token_is_refused() {
    let treasury = Treasury::new();
    let token = Address::generate(&treasury.env);
    assert_eq!(treasury.withdraw(&token, 1), Err(KoraError::TokenNotWhitelisted));
    assert_eq!(treasury.drain(&token), Err(KoraError::TokenNotWhitelisted));
    assert_eq!(treasury.collect(&token, 1), Err(KoraError::TokenNotWhitelisted));
}

#[test]
fn whitelist_covers_the_listed_token_alone() {
    let treasury = Treasury::new();
    let listed = treasury.funded_token(10);
    let issuer = Address::generate(&treasury.env);
    let other = treasury.env.register_stellar_asset_contract_v2(issuer).address();
    assert_eq!(treasury.collect(&listed, 5), Ok(()));
    assert_eq!(treasury.collect(&other, 5), Err(KoraError::TokenNotWhitelisted));
    treasury.whitelist(&other);
    assert_eq!(treasury.collect(&other, 5), Ok(()));
    assert_eq!(treasury.collect(&listed, 5), Ok(()));
}

#[test]
fn fees_add_up_per_token() {
    let treasury = Treasury::new();
    let first = treasury.funded_token(0);
    let second = treasury.funded_token(0);
    assert_eq!(treasury.on_record(&first), None);
    treasury.collect(&first, 30).unwrap();
    treasury.collect(&second, 7).unwrap();
    treasury.collect(&first, 12).unwrap();
    assert_eq!(treasury.on_record(&first), Some(42));
    assert_eq!(treasury.on_record(&second), Some(7));
}

#[test]
fn fees_that_are_not_positive_are_refused() {
    let treasury = Treasury::new();
    let token = treasury.funded_token(0);
    assert_eq!(treasury.collect(&token, 0), Err(KoraError::InvalidAmount));
    assert_eq!(treasury.collect(&token, -5), Err(KoraError::InvalidAmount));
    assert_eq!(treasury.on_record(&token), None);
}

#[test]
fn fees_that_do_not_fit_are_refused() {
    let treasury = Treasury::new();
    let token = treasury.funded_token(0);
    treasury.collect(&token, i128::MAX).unwrap();
    assert_eq!(treasury.collect(&token, 1), Err(KoraError::ArithmeticOverflow));
    assert_eq!(treasury.on_record(&token), Some(i128::MAX));
}

#[test]
fn collecting_and_withdrawing_cancel_out() {
    let treasury = Treasury::new();
    let token = treasury.funded_token(500);
    treasury.collect(&token, 80).unwrap();
    treasury.collect(&token, 200).unwrap();
    treasury.withdraw(&token, 200).unwrap();
    assert_eq!(treasury.on_record(&token), Some(80));
}

#[test]
fn record_goes_below_zero_when_more_leaves_than_was_recorded() {
    let treasury = Treasury::new();
    let token = treasury.funded_token(100);
    treasury.collect(&token, 10).unwrap();
    treasury.withdraw(&token, 25).unwrap();
    assert_eq!(treasury.on_record(&token), Some(-15));
}

#[test]
fn emergency_withdrawal_pays_everything() {
    let treasury = Treasury::new();
    let token = treasury.funded_token(750);
    treasury.collect(&token, 750).unwrap();
    assert_eq!(treasury.drain(&token), Ok(()));
    assert_eq!(treasury.held(&token, &treasury.id), 0);
    assert_eq!(treasury.held(&token, &treasury.recipient), 750);
    assert_eq!(treasury.on_record(&token), Some(750));
    assert!(!treasury.is_locked());
}

#[test]
fn emergency_withdrawal_of_nothing_succeeds() {
    let treasury = Treasury::new();
    let token = treasury.funded_token(0);
    assert_eq!(treasury.drain(&token), Ok(()));
    assert_eq!(treasury.held(&token, &treasury.recipient), 0);
    assert!(!treasury.is_locked());
    let indebted = treasury.puppet(Some(-3), false);
    assert_eq!(treasury.drain(&indebted), Ok(()));
}

#[test]
fn token_that_fails_fails_the_withdrawal() {
    let treasury = Treasury::new();
    let mute = treasury.puppet(None, true);
    assert_eq!(treasury.withdraw(&mute, 1), Err(KoraError::TokenCallFailed));
    assert!(!treasury.is_locked());
    assert_eq!(treasury.drain(&mute), Err(KoraError::TokenCallFailed));
    assert!(!treasury.is_locked());
    let stuck = treasury.puppet(Some(100), false);
    assert_eq!(treasury.withdraw(&stuck, 1), Err(KoraError::TokenCallFailed));
    assert!(!treasury.is_locked());
    assert_eq!(treasury.drain(&stuck), Err(KoraError::TokenCallFailed));
    assert!(!treasury.is_locked());
    let missing = Address::generate(&treasury.env);
    treasury.whitelist(&missing);
    assert_eq!(treasury.withdraw(&missing, 1), Err(KoraError::TokenCallFailed));
    assert_eq!(treasury.drain(&missing), Err(KoraError::TokenCallFailed));
    let babbler = treasury.env.register(Babbler, ());
    treasury.whitelist(&babbler);
    assert_eq!(treasury.withdraw(&babbler, 1), Err(KoraError::TokenCallFailed));
}

#[test]
fn balance_is_the_live_one() {
    let treasury = Treasury::new();
    let token = treasury.funded_token(321);
    let asked = |token: &Address| {
        treasury.call(|env| TreasuryContract::get_balance(env, token.clone()))
    };
    assert_eq!(asked(&token), Ok(321));
    treasury.withdraw(&token, 21).unwrap();
    assert_eq!(asked(&token), Ok(300));
    assert_eq!(asked(&treasury.puppet(None, true)), Err(KoraError::TokenCallFailed));
}

#[test]
fn nothing_is_withdrawn_before_initialization() {
    let env = Env::new_with_config(EnvTestConfig { capture_snapshot_at_drop: false });
    env.mock_all_auths();
    let id = env.register(Deployed, ());
    let admin = Address::generate(&env);
    let token = Address::generate(&env);
    let mut handle = env.clone();
    let answer = env.as_contract(&id, || {
        TreasuryContract::withdraw(&mut handle, admin.clone(), token.clone(), admin.clone(), 1)
    });
    assert_eq!(answer, Err(KoraError::NotInitialized));
}

#[test]
fn cap_limits_the_total_of_an_epoch() {
    let treasury = Treasury::new();
    let first = treasury.funded_token(1_000);
    let second = treasury.funded_token(1_000);
    treasury.put_cap_in_force(100);
    assert_eq!(treasury.withdraw(&first, 60), Ok(()));
    assert_eq!(treasury.epoch_total(), 60);
    assert_eq!(treasury.withdraw(&second, 41), Err(KoraError::WithdrawalRateLimitExceeded));
    assert_eq!(treasury.withdraw(&second, 40), Ok(()));
    assert_eq!(treasury.epoch_total(), 100);
    assert_eq!(treasury.withdraw(&first, 1), Err(KoraError::WithdrawalRateLimitExceeded));
    assert_eq!(treasury.held(&first, &treasury.recipient), 60);
    assert_eq!(treasury.held(&second, &treasury.recipient), 40);
}

#[test]
fn cap_limits_emergency_withdrawals_too() {
    let treasury = Treasury::new();
    let token = treasury.funded_token(101);
    treasury.put_cap_in_force(100);
    assert_eq!(treasury.drain(&token), Err(KoraError::WithdrawalRateLimitExceeded));
    assert!(!treasury.is_locked());
    assert_eq!(treasury.withdraw(&token, 1), Ok(()));
    assert_eq!(treasury.drain(&token), Err(KoraError::WithdrawalRateLimitExceeded));
    treasury.set_time(DAY);
    assert_eq!(treasury.drain(&token), Ok(()));
    assert_eq!(treasury.epoch_total(), 100);
    assert_eq!(treasury.held(&token, &treasury.recipient), 101);
}

#[test]
fn new_epoch_restores_the_cap_after_a_day() {
    let treasury = Treasury::new();
    let token = treasury.funded_token(1_000);
    treasury.put_cap_in_force(100);
    treasury.set_time(DAY - 1);
    assert_eq!(treasury.withdraw(&token, 100), Ok(()));
    assert_eq!(treasury.withdraw(&token, 1), Err(KoraError::WithdrawalRateLimitExceeded));
    treasury.set_time(DAY);
    assert_eq!(treasury.withdraw(&token, 100), Ok(()));
    assert_eq!(treasury.withdraw(&token, 1), Err(KoraError::WithdrawalRateLimitExceeded));
    // The second epoch began at one day; no third one begins within a day of that.
    treasury.set_time(2 * DAY - 1);
    assert_eq!(treasury.withdraw(&token, 1), Err(KoraError::WithdrawalRateLimitExceeded));
    assert_eq!(treasury.held(&token, &treasury.recipient), 200);
}

#[test]
fn cap_of_zero_lifts_the_limit() {
    let treasury = Treasury::new();
    let token = treasury.funded_token(1_000);
    treasury.put_cap_in_force(10);
    assert_eq!(treasury.withdraw(&token, 11), Err(KoraError::WithdrawalRateLimitExceeded));
    treasury.put_cap_in_force(0);
    assert_eq!(treasury.withdraw(&token, 900), Ok(()));
    // Without a cap nothing is counted.
    assert_eq!(treasury.epoch_total(), 0);
}

#[test]
fn epoch_total_that_does_not_fit_is_refused() {
    let treasury = Treasury::new();
    let token = treasury.puppet(Some(i128::MAX), true);
    treasury.put_cap_in_force(i128::MAX);
    assert_eq!(treasury.withdraw(&token, i128::MAX), Ok(()));
    assert_eq!(treasury.withdraw(&token, 1), Err(KoraError::ArithmeticOverflow));
    assert_eq!(treasury.drain(&token), Err(KoraError::ArithmeticOverflow));
}

#[test]
fn no_withdrawal_starts_inside_another() {
    let treasury = Treasury::new();
    let token = treasury.funded_token(100);
    let begun = treasury
        .call(|env| TreasuryContract::begin_withdrawal(env, &treasury.admin, &token, 10));
    assert_eq!(begun, Ok(()));
    assert!(treasury.is_locked());
    assert_eq!(treasury.withdraw(&token, 1), Err(KoraError::ReentrantCall));
    assert_eq!(treasury.drain(&token), Err(KoraError::ReentrantCall));
    assert_eq!(treasury.held(&token, &treasury.recipient), 0);
    let booked =
        treasury.call(|env| TreasuryContract::book_withdrawal(env, &token, 10, Some(100)));
    assert_eq!(booked, Ok(()));
    assert!(treasury.is_locked());
    assert_eq!(treasury.withdraw(&token, 1), Err(KoraError::ReentrantCall));
    let finished =
        treasury.call(|env| TreasuryContract::finish_withdrawal(env, &token, 10, true));
    assert_eq!(finished, Ok(()));
    assert!(!treasury.is_locked());
    assert_eq!(treasury.withdraw(&token, 1), Ok(()));
}

#[test]
fn steps_of_a_withdrawal_follow_the_answers_of_the_token() {
    let treasury = Treasury::new();
    let token = treasury.funded_token(0);
    treasury.collect(&token, 50).unwrap();
    let book = |amount: i128, balance: Option<i128>| {
        treasury.call(|env| TreasuryContract::book_withdrawal(env, &token, amount, balance))
    };
    assert_eq!(book(10, None), Err(KoraError::TokenCallFailed));
    assert_eq!(book(10, Some(9)), Err(KoraError::InsufficientPoolBalance));
    assert_eq!(treasury.on_record(&token), Some(50));
    assert_eq!(book(10, Some(10)), Ok(()));
    assert_eq!(treasury.on_record(&token), Some(40));
    let finish = |paid: bool| {
        treasury.call(|env| TreasuryContract::finish_withdrawal(env, &token, 10, paid))
    };
    assert_eq!(finish(false), Err(KoraError::TokenCallFailed));
    assert_eq!(finish(true), Ok(()));
}

#[test]
fn steps_of_an_emergency_withdrawal_follow_the_answers_of_the_token() {
    let treasury = Treasury::new();
    let token = treasury.funded_token(0);
    treasury.put_cap_in_force(100);
    let begun =
        treasury.call(|env| TreasuryContract::begin_emergency(env, &treasury.admin, &token));
    assert_eq!(begun, Ok(()));
    assert!(treasury.is_locked());
    let book = |balance: Option<i128>| {
        treasury.call(|env| TreasuryContract::book_emergency(env, balance))
    };
    assert_eq!(book(Some(0)), Ok(0));
    assert_eq!(book(Some(-1)), Ok(0));
    assert!(treasury.is_locked());
    assert_eq!(book(Some(70)), Ok(70));
    assert_eq!(treasury.epoch_total(), 70);
    assert_eq!(book(Some(31)), Err(KoraError::WithdrawalRateLimitExceeded));
    assert!(!treasury.is_locked());
    assert_eq!(book(None), Err(KoraError::TokenCallFailed));
    let finish = |due: i128, paid: bool| {
        treasury.call(|env| {
            TreasuryContract::finish_emergency(env, &treasury.admin, &token, due, paid)
        })
    };
    assert_eq!(finish(0, false), Ok(()));
    assert_eq!(finish(70, false), Err(KoraError::TokenCallFailed));
    assert_eq!(finish(70, true), Ok(()));
}

#[test]
fn refused_withdrawals_call_no_token() {
    let treasury = Treasury::new();
    let calls = Rc::new(Cell::new(0));
    let token = treasury.env.register(Counter { calls: calls.clone() }, ());
    assert_eq!(treasury.withdraw(&token, 5), Err(KoraError::TokenNotWhitelisted));
    assert_eq!(treasury.drain(&token), Err(KoraError::TokenNotWhitelisted));
    treasury.whitelist(&token);
    assert_eq!(treasury.withdraw(&token, 0), Err(KoraError::InvalidAmount));
    treasury
        .call(|env| TreasuryContract::begin_withdrawal(env, &treasury.admin, &token, 5))
        .unwrap();
    assert_eq!(treasury.withdraw(&token, 5), Err(KoraError::ReentrantCall));
    assert_eq!(treasury.drain(&token), Err(KoraError::ReentrantCall));
    assert_eq!(calls.get(), 0);
}

#[test]
fn withdrawals_call_the_token_twice() {
    let treasury = Treasury::new();
    let calls = Rc::new(Cell::new(0));
    let token = treasury.env.register(Counter { calls: calls.clone() }, ());
    treasury.whitelist(&token);
    assert_eq!(treasury.withdraw(&token, 5), Ok(()));
    assert_eq!(calls.get(), 2);
    assert_eq!(treasury.withdraw(&token, 101), Err(KoraError::InsufficientPoolBalance));
    assert_eq!(calls.get(), 3);
    assert_eq!(treasury.drain(&token), Ok(()));
    assert_eq!(calls.get(), 5);
}

#[test]
fn account_in_place_of_a_token_is_refused_by_the_checks() {
    let treasury = Treasury::new();
    let account = Address::from_str(
        &treasury.env,
        "GAAAAAAAAAAAAAAAAAAAAAAAAAAAAAAAAAAAAAAAAAAAAAAAAAAAAWHF",
    );
    treasury.whitelist(&account);
    assert_eq!(treasury.withdraw(&account, 0), Err(KoraError::InvalidAmount));
    let stranger = Address::generate(&treasury.env);
    let answer = treasury.call(|env| {
        TreasuryContract::emergency_withdraw(
            env,
            stranger.clone(),
            account.clone(),
            stranger.clone(),
        )
    });
    assert_eq!(answer, Err(KoraError::NotAdmin));
    treasury.put_cap_in_force(10);
    assert_eq!(treasury.withdraw(&account, 11), Err(KoraError::WithdrawalRateLimitExceeded));
    treasury
        .call(|env| TreasuryContract::begin_withdrawal(env, &treasury.admin, &account, 5))
        .unwrap();
    assert_eq!(treasury.withdraw(&account, 5), Err(KoraError::ReentrantCall));
    assert_eq!(treasury.drain(&account), Err(KoraError::ReentrantCall));
}

#[test]
fn epoch_advances_without_a_cap() {
    let treasury = Treasury::new();
    let token = treasury.funded_token(1_000);
    treasury.put_cap_in_force(100);
    treasury.withdraw(&token, 60).unwrap();
    treasury.put_cap_in_force(0);
    treasury.set_time(DAY - 1);
    treasury.withdraw(&token, 5).unwrap();
    assert_eq!((treasury.epoch_start(), treasury.epoch_total()), (0, 60));
    treasury.set_time(DAY);
    treasury.withdraw(&token, 5).unwrap();
    assert_eq!((treasury.epoch_start(), treasury.epoch_total()), (DAY, 0));
    treasury.set_time(2 * DAY + 7);
    treasury.drain(&token).unwrap();
    assert_eq!((treasury.epoch_start(), treasury.epoch_total()), (2 * DAY + 7, 0));
}

#[test]
fn rate_check_advances_the_epoch_and_answers_alike() {
    let treasury = Treasury::new();
    let token = treasury.funded_token(1_000);
    treasury.set_time(DAY);
    assert_eq!(treasury.check_rate(i128::MAX), Ok(()));
    assert_eq!((treasury.epoch_start(), treasury.epoch_total()), (DAY, 0));
    treasury.put_cap_in_force(100);
    treasury.withdraw(&token, 60).unwrap();
    assert_eq!(treasury.check_rate(40), Ok(()));
    assert_eq!(treasury.check_rate(40), Ok(()));
    assert_eq!(treasury.check_rate(1), Ok(()));
    assert_eq!(treasury.check_rate(41), Err(KoraError::WithdrawalRateLimitExceeded));
    assert_eq!(treasury.check_rate(41), Err(KoraError::WithdrawalRateLimitExceeded));
    assert_eq!(treasury.check_rate(42), Err(KoraError::WithdrawalRateLimitExceeded));
    assert_eq!(treasury.check_rate(i128::MAX), Err(KoraError::ArithmeticOverflow));
    assert_eq!((treasury.epoch_start(), treasury.epoch_total()), (DAY, 60));
    treasury.set_time(2 * DAY);
    assert_eq!(treasury.check_rate(101), Err(KoraError::WithdrawalRateLimitExceeded));
    assert_eq!((treasury.epoch_start(), treasury.epoch_total()), (2 * DAY, 0));
    assert_eq!(treasury.check_rate(100), Ok(()));
}

#[test]
fn rate_is_checked_alike_again() {
    let treasury = Treasury::new();
    let token = treasury.funded_token(1_000);
    treasury.put_cap_in_force(100);
    treasury.withdraw(&token, 60).unwrap();
    treasury.set_time(5 * DAY);
    assert_eq!(treasury.withdraw(&token, 101), Err(KoraError::WithdrawalRateLimitExceeded));
    assert_eq!(treasury.withdraw(&token, 101), Err(KoraError::WithdrawalRateLimitExceeded));
    assert_eq!(treasury.withdraw(&token, 102), Err(KoraError::WithdrawalRateLimitExceeded));
    assert_eq!(treasury.epoch_total(), 0);
    assert_eq!(treasury.withdraw(&token, 100), Ok(()));
}

#[test]
fn refused_withdrawal_is_not_charged() {
    let treasury = Treasury::new();
    let token = treasury.funded_token(50);
    treasury.collect(&token, 50).unwrap();
    treasury.put_cap_in_force(100);
    treasury.withdraw(&token, 20).unwrap();
    assert_eq!(treasury.withdraw(&token, 40), Err(KoraError::InsufficientPoolBalance));
    assert_eq!(treasury.epoch_total(), 20);
    assert_eq!(treasury.on_record(&token), Some(30));
    let mute = treasury.puppet(None, true);
    assert_eq!(treasury.withdraw(&mute, 1), Err(KoraError::TokenCallFailed));
    assert_eq!(treasury.epoch_total(), 20);
}

#[test]
fn foreign_entries_are_left_alone() {
    let treasury = Treasury::new();
    let token = treasury.funded_token(50);
    treasury.call(|env| {
        let key = (Symbol::new(env, "Elsewhere"),);
        env.storage().persistent().set(&key, &7u32);
        env.storage().instance().set(&key, &8u32);
    });
    treasury.collect(&token, 50).unwrap();
    treasury.put_cap_in_force(100);
    treasury.withdraw(&token, 20).unwrap();
    treasury.drain(&token).unwrap();
    treasury.call(|env| {
        let key = (Symbol::new(env, "Elsewhere"),);
        assert_eq!(env.storage().persistent().get(&key), Some(7u32));
        assert_eq!(env.storage().instance().get(&key), Some(8u32));
    });
}
