//! Proposals: withdrawal caps and upgrades, and their timelocks.

use soroban_sdk::testutils::{
    Address as _, ContractFunctionSet, EnvTestConfig, Events as _, Ledger as _,
};
use soroban_sdk::{
    Address, Bytes, BytesN, Env, Executable, IntoVal, Symbol, Val,
};
use treasury::{KoraError, TreasuryContract};

const DELAY: u64 = 172_800;

/// The contract under whose address the treasury runs.
struct Deployed;

impl ContractFunctionSet for Deployed {
    fn call(&self, _func: &str, _env: Env, _args: &[Val]) -> Option<Val> {
        None
    }
}

/// The smallest code that a host accepts: an empty Wasm module that names the
/// interface version it was built for.
fn empty_module(env: &Env) -> Bytes {
    let mut module = Bytes::from_slice(env, b"\0asm\x01\0\0\0");
    // A custom section of 30 bytes, with its name and the version.
    module.extend_from_slice(b"\0\x1e\x11contractenvmetav0");
    module.extend_from_slice(&[0, 0, 0, 0, 0, 0, 0, 22, 0, 0, 0, 0]);
    module
}

/// An initialized treasury on a host of its own.
struct Treasury {
    env: Env,
    id: Address,
    admin: Address,
}

impl Treasury {
    fn new() -> Treasury {
        let env = Env::new_with_config(EnvTestConfig { capture_snapshot_at_drop: false });
        env.mock_all_auths();
        env.ledger().set_timestamp(1_000);
        let id = env.register(Deployed, ());
        let admin = Address::generate(&env);
        let treasury = Treasury { env, id, admin };
        treasury
            .call(|env| TreasuryContract::initialize(env, treasury.admin.clone(), 50))
            .unwrap();
        treasury
    }

    /// Runs `f` as one invocation of the treasury.
    fn call<T>(&self, f: impl FnOnce(&mut Env) -> T) -> T {
        let mut env = self.env.clone();
        self.env.as_contract(&self.id, || f(&mut env))
    }

    fn propose_cap(&self, cap: i128) -> Result<(), KoraError> {
        self.call(|env| TreasuryContract::propose_withdrawal_cap(env, self.admin.clone(), cap))
    }

    fn execute_cap(&self, delay: u64) -> Result<(), KoraError> {
        self.call(|env| TreasuryContract::execute_withdrawal_cap(env, self.admin.clone(), delay))
    }

    fn cap(&self) -> i128 {
        self.call(|env| TreasuryContract::get_withdrawal_cap(env))
    }

    fn propose_upgrade(&self, hash: &BytesN<32>) -> Result<(), KoraError> {
        self.call(|env| TreasuryContract::propose_upgrade(env, self.admin.clone(), hash.clone()))
    }

    fn execute_upgrade(&self, delay: u64) -> Result<(), KoraError> {
        self.call(|env| TreasuryContract::execute_upgrade(env, self.admin.clone(), delay))
    }

    fn assert_published<D: IntoVal<Env, Val>>(&self, topic: &str, data: D) {
        let env = &self.env;
        let topics: soroban_sdk::Vec<Val> = (Symbol::new(env, topic),).into_val(env);
        let data: Val = data.into_val(env);
        let expected = soroban_sdk::Vec::from_array(env, [(self.id.clone(), topics, data)]);
        assert_eq!(env.events().all().filter_by_contract(&self.id), expected);
    }
}

#[test]
fn proposed_cap_waits_for_the_timelock() {
    let treasury = Treasury::new();
    assert_eq!(treasury.propose_cap(5_000), Ok(()));
    treasury.assert_published("withdrawal_cap_proposed", (treasury.admin.clone(), 5_000i128));
    assert_eq!(treasury.cap(), 0);
    treasury.env.ledger().set_timestamp(1_000 + DELAY - 1);
    assert_eq!(treasury.execute_cap(DELAY), Err(KoraError::WithdrawalCapTimelockNotElapsed));
    assert_eq!(treasury.cap(), 0);
    treasury.env.ledger().set_timestamp(1_000 + DELAY);
    assert_eq!(treasury.execute_cap(DELAY), Ok(()));
    treasury.assert_published(
        "withdrawal_cap_updated",
        (treasury.admin.clone(), 0i128, 5_000i128),
    );
    assert_eq!(treasury.cap(), 5_000);
}

#[test]
fn proposed_cap_is_executed_once() {
    let treasury = Treasury::new();
    treasury.propose_cap(5_000).unwrap();
    treasury.execute_cap(0).unwrap();
    assert_eq!(treasury.execute_cap(0), Err(KoraError::NoCapChangeProposed));
    assert_eq!(treasury.cap(), 5_000);
}

#[test]
fn last_cap_proposal_counts_and_waits_anew() {
    let treasury = Treasury::new();
    treasury.propose_cap(5_000).unwrap();
    treasury.env.ledger().set_timestamp(1_000 + DELAY);
    treasury.propose_cap(6_000).unwrap();
    assert_eq!(treasury.execute_cap(DELAY), Err(KoraError::WithdrawalCapTimelockNotElapsed));
    treasury.env.ledger().set_timestamp(1_000 + 2 * DELAY);
    assert_eq!(treasury.execute_cap(DELAY), Ok(()));
    assert_eq!(treasury.cap(), 6_000);
}

#[test]
fn refused_cap_proposal_leaves_the_pending_one() {
    let treasury = Treasury::new();
    treasury.propose_cap(5_000).unwrap();
    assert_eq!(treasury.propose_cap(-1), Err(KoraError::InvalidAmount));
    assert_eq!(treasury.execute_cap(0), Ok(()));
    assert_eq!(treasury.cap(), 5_000);
}

#[test]
fn timelock_beyond_all_time_never_elapses() {
    let treasury = Treasury::new();
    treasury.propose_cap(5_000).unwrap();
    treasury.env.ledger().set_timestamp(u64::MAX);
    assert_eq!(treasury.execute_cap(u64::MAX), Err(KoraError::WithdrawalCapTimelockNotElapsed));
    assert_eq!(treasury.execute_cap(u64::MAX - 1_000), Ok(()));
}

#[test]
fn upgrade_needs_a_proposal() {
    let treasury = Treasury::new();
    assert_eq!(treasury.execute_upgrade(0), Err(KoraError::NoUpgradeProposed));
}

#[test]
fn proposed_upgrade_waits_for_the_timelock() {
    let treasury = Treasury::new();
    let hash = treasury.env.deployer().upload_contract_wasm(empty_module(&treasury.env));
    assert_eq!(treasury.propose_upgrade(&hash), Ok(()));
    treasury.assert_published("upgrade_proposed", (treasury.admin.clone(), hash.clone()));
    treasury.env.ledger().set_timestamp(1_000 + DELAY - 1);
    assert_eq!(treasury.execute_upgrade(DELAY), Err(KoraError::UpgradeTimelockNotElapsed));
    treasury.env.ledger().set_timestamp(1_000 + DELAY);
    assert_eq!(treasury.execute_upgrade(DELAY), Ok(()));
    treasury.assert_published("upgrade_executed", (treasury.admin.clone(), hash.clone()));
    assert_eq!(treasury.id.executable(), Some(Executable::Wasm(hash.clone())));
}

#[test]
fn proposed_upgrade_is_executed_once() {
    let treasury = Treasury::new();
    let hash = treasury.env.deployer().upload_contract_wasm(empty_module(&treasury.env));
    treasury.propose_upgrade(&hash).unwrap();
    treasury.execute_upgrade(0).unwrap();
    assert_eq!(treasury.execute_upgrade(0), Err(KoraError::NoUpgradeProposed));
}

#[test]
fn cap_and_upgrade_proposals_do_not_mix() {
    let treasury = Treasury::new();
    let hash = BytesN::from_array(&treasury.env, &[9; 32]);
    treasury.propose_upgrade(&hash).unwrap();
    assert_eq!(treasury.execute_cap(0), Err(KoraError::NoCapChangeProposed));
    treasury.propose_cap(1).unwrap();
    assert_eq!(treasury.execute_cap(0), Ok(()));
    assert_eq!(treasury.execute_upgrade(1), Err(KoraError::UpgradeTimelockNotElapsed));
}
