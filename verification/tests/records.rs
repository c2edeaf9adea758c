//! What the treasury leaves on the ledger: storage entries, their life, events
//! and demands for authorization.

use soroban_sdk::testutils::storage::Persistent as _;
use soroban_sdk::testutils::{
    Address as _, ContractFunctionSet, EnvTestConfig, Events as _, Ledger as _,
};
use soroban_sdk::token::StellarAssetClient;
use soroban_sdk::{Address, Env, IntoVal, Symbol, Val};
use treasury::{KoraError, TreasuryContract};

/// The contract under whose address the treasury runs.
struct Deployed;

impl ContractFunctionSet for Deployed {
    fn call(&self, _func: &str, _env: Env, _args: &[Val]) -> Option<Val> {
        None
    }
}

fn host() -> (Env, Address) {
    let env = Env::new_with_config(EnvTestConfig { capture_snapshot_at_drop: false });
    let id = env.register(Deployed, ());
    (env, id)
}

/// Runs `f` as one invocation of the contract `id`.
fn call<T>(env: &Env, id: &Address, f: impl FnOnce(&mut Env) -> T) -> T {
    let mut handle = env.clone();
    env.as_contract(id, || f(&mut handle))
}

fn initialized() -> (Env, Address, Address) {
    let (env, id) = host();
    env.mock_all_auths();
    let admin = Address::generate(&env);
    call(&env, &id, |e| TreasuryContract::initialize(e, admin.clone(), 50)).unwrap();
    (env, id, admin)
}

/// Checks that the last invocation of `id` published `data` under `topic`, and
/// nothing else.
fn assert_published<D: IntoVal<Env, Val>>(env: &Env, id: &Address, topic: &str, data: D) {
    let topics: soroban_sdk::Vec<Val> = (Symbol::new(env, topic),).into_val(env);
    let data: Val = data.into_val(env);
    let expected = soroban_sdk::Vec::from_array(env, [(id.clone(), topics, data)]);
    assert_eq!(env.events().all().filter_by_contract(id), expected);
}

#[test]
fn initialization_writes_every_entry() {
    let (env, id) = host();
    env.mock_all_auths();
    env.ledger().set_timestamp(77);
    let admin = Address::generate(&env);
    call(&env, &id, |e| TreasuryContract::initialize(e, admin.clone(), 125)).unwrap();
    assert_published(&env, &id, "treasury_initialized", (admin.clone(), 125u32));
    call(&env, &id, |e| {
        let persistent = e.storage().persistent();
        let instance = e.storage().instance();
        let key = |name: &str| (Symbol::new(e, name),);
        assert_eq!(persistent.get(&key("Admin")), Some(admin.clone()));
        assert_eq!(persistent.get(&key("FeeBps")), Some(125u32));
        assert_eq!(instance.get(&key("Admin")), Some(admin.clone()));
        assert_eq!(instance.get(&key("FeeBps")), Some(125u32));
        assert_eq!(instance.get(&key("WithdrawalLock")), Some(false));
        assert_eq!(instance.get(&key("WithdrawalCap")), Some(0i128));
        assert_eq!(instance.get(&key("EpochStart")), Some(77u64));
        assert_eq!(instance.get(&key("EpochWithdrawn")), Some(0i128));
        assert!(!instance.has(&key("WithdrawalCapProposal")));
        assert!(!instance.has(&key("UpgradeProposal")));
    });
}

#[test]
fn refused_initialization_writes_nothing() {
    let (env, id) = host();
    env.mock_all_auths();
    let admin = Address::generate(&env);
    let refused = call(&env, &id, |e| TreasuryContract::initialize(e, admin.clone(), 10_001));
    assert_eq!(refused, Err(KoraError::InvalidFeeBps));
    let known = call(&env, &id, |e| TreasuryContract::get_admin(e));
    assert_eq!(known, Err(KoraError::NotInitialized));
}

#[test]
fn administrator_stays_the_first_one() {
    let (env, id, admin) = initialized();
    let other = Address::generate(&env);
    let again = call(&env, &id, |e| TreasuryContract::initialize(e, other.clone(), 10));
    assert_eq!(again, Err(KoraError::AlreadyInitialized));
    assert_eq!(call(&env, &id, |e| TreasuryContract::get_admin(e)), Ok(admin));
    assert_eq!(call(&env, &id, |e| TreasuryContract::get_fee_bps(e)), 50);
}

#[test]
fn strangers_are_refused_everything() {
    let (env, id, _admin) = initialized();
    let other = Address::generate(&env);
    let token = Address::generate(&env);
    let hash = soroban_sdk::BytesN::from_array(&env, &[7; 32]);
    let refused = Err(KoraError::NotAdmin);
    let who = || other.clone();
    assert_eq!(call(&env, &id, |e| TreasuryContract::set_fee_bps(e, who(), 1)), refused);
    assert_eq!(
        call(&env, &id, |e| TreasuryContract::whitelist_token(e, who(), token.clone())),
        refused
    );
    assert_eq!(
        call(&env, &id, |e| TreasuryContract::execute_withdrawal_cap(e, who(), 0)),
        refused
    );
    assert_eq!(call(&env, &id, |e| TreasuryContract::propose_upgrade(e, who(), hash)), refused);
    assert_eq!(call(&env, &id, |e| TreasuryContract::execute_upgrade(e, who(), 0)), refused);
    assert!(env.events().all().events().is_empty());
}

#[test]
fn uninitialized_treasury_has_no_administrator_to_obey() {
    let (env, id) = host();
    env.mock_all_auths();
    let admin = Address::generate(&env);
    let answer = call(&env, &id, |e| TreasuryContract::set_fee_bps(e, admin.clone(), 1));
    assert_eq!(answer, Err(KoraError::NotInitialized));
}

#[test]
fn authorization_of_the_caller_is_demanded() {
    let (env, id, admin) = initialized();
    env.set_auths(&[]);
    let mut handle = env.clone();
    let answer = env.try_as_contract::<_, soroban_sdk::Error>(&id, || {
        TreasuryContract::set_fee_bps(&mut handle, admin.clone(), 99)
    });
    assert!(answer.is_err());
    assert_eq!(call(&env, &id, |e| TreasuryContract::get_fee_bps(e)), 50);
}

#[test]
fn fees_are_recorded_without_authorization() {
    let (env, id, admin) = initialized();
    let token = Address::generate(&env);
    call(&env, &id, |e| TreasuryContract::whitelist_token(e, admin.clone(), token.clone()))
        .unwrap();
    env.set_auths(&[]);
    let answer = call(&env, &id, |e| TreasuryContract::collect_fee(e, token.clone(), 8));
    assert_eq!(answer, Ok(()));
}

#[test]
fn fee_changes_are_announced_with_the_old_rate() {
    let (env, id, admin) = initialized();
    call(&env, &id, |e| TreasuryContract::set_fee_bps(e, admin.clone(), 80)).unwrap();
    assert_published(&env, &id, "fee_rate_updated", (admin.clone(), 50u32, 80u32));
    call(&env, &id, |e| TreasuryContract::set_fee_bps(e, admin.clone(), 30)).unwrap();
    assert_published(&env, &id, "fee_rate_updated", (admin.clone(), 80u32, 30u32));
}

#[test]
fn refused_calls_announce_nothing() {
    let (env, id, admin) = initialized();
    let refused = call(&env, &id, |e| TreasuryContract::set_fee_bps(e, admin.clone(), 20_000));
    assert_eq!(refused, Err(KoraError::InvalidFeeBps));
    assert!(env.events().all().events().is_empty());
}

#[test]
fn token_calls_are_announced() {
    let (env, id, admin) = initialized();
    let issuer = Address::generate(&env);
    let token = env.register_stellar_asset_contract_v2(issuer).address();
    let recipient = Address::generate(&env);
    call(&env, &id, |e| TreasuryContract::whitelist_token(e, admin.clone(), token.clone()))
        .unwrap();
    assert_published(&env, &id, "token_whitelisted", (token.clone(),));
    call(&env, &id, |e| TreasuryContract::collect_fee(e, token.clone(), 45)).unwrap();
    assert_published(&env, &id, "fee_collected", (0u64, 45i128, token.clone()));
    StellarAssetClient::new(&env, &token).mint(&id, &45);
    call(&env, &id, |e| {
        TreasuryContract::withdraw(e, admin.clone(), token.clone(), recipient.clone(), 40)
    })
    .unwrap();
    assert_published(&env, &id, "fee_withdrawn", (token.clone(), 40i128));
    call(&env, &id, |e| {
        TreasuryContract::emergency_withdraw(e, admin.clone(), token.clone(), recipient.clone())
    })
    .unwrap();
    assert_published(&env, &id, "emergency_withdrawn", (admin.clone(), token.clone(), 5i128));
    // There is nothing left to withdraw, and nothing to announce.
    call(&env, &id, |e| {
        TreasuryContract::emergency_withdraw(e, admin.clone(), token.clone(), recipient.clone())
    })
    .unwrap();
    assert!(env.events().all().filter_by_contract(&id).events().is_empty());
}

#[test]
fn entries_are_extended_when_half_their_life_is_gone() {
    let (env, id, admin) = initialized();
    let life = |name: &str| {
        call(&env, &id, |e| e.storage().persistent().get_ttl(&(Symbol::new(e, name),)))
    };
    call(&env, &id, |e| e.storage().instance().extend_ttl(1_000_000, 1_000_000));
    assert_eq!(life("Admin"), 535_680);
    assert_eq!(life("FeeBps"), 535_680);
    // With more than half left, nothing is extended.
    env.ledger().set_sequence_number(267_839);
    call(&env, &id, |e| TreasuryContract::set_fee_bps(e, admin.clone(), 60)).unwrap();
    assert_eq!(life("FeeBps"), 267_841);
    env.ledger().set_sequence_number(267_840);
    call(&env, &id, |e| TreasuryContract::set_fee_bps(e, admin.clone(), 70)).unwrap();
    assert_eq!(life("FeeBps"), 535_680);
    assert_eq!(life("Admin"), 267_840);
}

#[test]
fn network_limit_bounds_the_life_of_entries() {
    let (env, id) = host();
    env.mock_all_auths();
    env.ledger().set_max_entry_ttl(300_000);
    let admin = Address::generate(&env);
    call(&env, &id, |e| TreasuryContract::initialize(e, admin.clone(), 50)).unwrap();
    let life = call(&env, &id, |e| {
        e.storage().persistent().get_ttl(&(Symbol::new(e, "Admin"),))
    });
    assert_eq!(life, 300_000);
}
