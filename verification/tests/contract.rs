//! The calls of the treasury, on a test host.

use soroban_sdk::testutils::{Address as _, ContractFunctionSet, EnvTestConfig};
use soroban_sdk::{Address, Env, Val};
use treasury::{KoraError, TreasuryContract};

/// A timelock of two days.
const TIMELOCK_DELAY: u64 = 172_800;

/// The contract under whose address the treasury runs.
struct Deployed;

impl ContractFunctionSet for Deployed {
    fn call(&self, _func: &str, _env: Env, _args: &[Val]) -> Option<Val> {
        None
    }
}

/// A treasury on a host of its own.
struct Treasury {
    env: Env,
    id: Address,
}

impl Treasury {
    fn deploy() -> Treasury {
        let env = Env::new_with_config(EnvTestConfig { capture_snapshot_at_drop: false });
        env.mock_all_auths();
        let id = env.register(Deployed, ());
        Treasury { env, id }
    }

    /// Runs `f` as one invocation of the treasury.
    fn call<T>(&self, f: impl FnOnce(&mut Env) -> T) -> T {
        let mut env = self.env.clone();
        self.env.as_contract(&self.id, || f(&mut env))
    }

    fn initialize(&self, admin: &Address, fee_bps: u32) -> Result<(), KoraError> {
        self.call(|env| TreasuryContract::initialize(env, admin.clone(), fee_bps))
    }

    fn set_fee_bps(&self, admin: &Address, fee_bps: u32) -> Result<(), KoraError> {
        self.call(|env| TreasuryContract::set_fee_bps(env, admin.clone(), fee_bps))
    }

    fn fee_bps(&self) -> u32 {
        self.call(|env| TreasuryContract::get_fee_bps(env))
    }

    fn withdraw(
        &self,
        admin: &Address,
        token: &Address,
        recipient: &Address,
        amount: i128,
    ) -> Result<(), KoraError> {
        self.call(|env| {
            TreasuryContract::withdraw(
                env,
                admin.clone(),
                token.clone(),
                recipient.clone(),
                amount,
            )
        })
    }

    fn emergency_withdraw(
        &self,
        admin: &Address,
        token: &Address,
        recipient: &Address,
    ) -> Result<(), KoraError> {
        self.call(|env| {
            TreasuryContract::emergency_withdraw(
                env,
                admin.clone(),
                token.clone(),
                recipient.clone(),
            )
        })
    }

    fn propose_withdrawal_cap(&self, admin: &Address, new_cap: i128) -> Result<(), KoraError> {
        self.call(|env| TreasuryContract::propose_withdrawal_cap(env, admin.clone(), new_cap))
    }

    fn execute_withdrawal_cap(&self, admin: &Address) -> Result<(), KoraError> {
        self.call(|env| {
            TreasuryContract::execute_withdrawal_cap(env, admin.clone(), TIMELOCK_DELAY)
        })
    }
}

fn setup() -> (Treasury, Address) {
    let treasury = Treasury::deploy();
    let admin = Address::generate(&treasury.env);
    treasury.initialize(&admin, 50).unwrap();
    (treasury, admin)
}

#[test]
fn test_initialize_creates_contract() {
    let treasury = Treasury::deploy();
    let admin = Address::generate(&treasury.env);
    assert!(treasury.initialize(&admin, 50).is_ok());
    assert_eq!(treasury.fee_bps(), 50);
}

#[test]
fn test_initialize_already_initialized() {
    let (treasury, admin) = setup();
    let result = treasury.initialize(&admin, 50);
    assert!(result.is_err());
    assert_eq!(result, Err(KoraError::AlreadyInitialized));
}

#[test]
fn test_initialize_invalid_fee_bps() {
    let treasury = Treasury::deploy();
    let admin = Address::generate(&treasury.env);
    let result = treasury.initialize(&admin, 10_001);
    assert!(result.is_err());
    assert_eq!(result, Err(KoraError::InvalidFeeBps));
}

#[test]
fn test_get_fee_bps_after_init() {
    let (treasury, _admin) = setup();
    assert_eq!(treasury.fee_bps(), 50);
}

#[test]
fn test_set_fee_bps_success() {
    let (treasury, admin) = setup();
    treasury.set_fee_bps(&admin, 100).unwrap();
    assert_eq!(treasury.fee_bps(), 100);
}

#[test]
fn test_set_fee_bps_requires_admin() {
    let (treasury, _admin) = setup();
    let non_admin = Address::generate(&treasury.env);
    let result = treasury.set_fee_bps(&non_admin, 100);
    assert!(result.is_err());
    assert_eq!(result, Err(KoraError::NotAdmin));
}

#[test]
fn test_set_fee_bps_invalid_bps_fails() {
    let (treasury, admin) = setup();
    assert!(treasury.set_fee_bps(&admin, 10_001).is_err());
}

#[test]
fn test_set_fee_bps_zero_allowed() {
    let (treasury, admin) = setup();
    treasury.set_fee_bps(&admin, 0).unwrap();
    assert_eq!(treasury.fee_bps(), 0);
}

#[test]
fn test_set_fee_bps_max_allowed() {
    let (treasury, admin) = setup();
    treasury.set_fee_bps(&admin, 10_000).unwrap();
    assert_eq!(treasury.fee_bps(), 10_000);
}

#[test]
fn test_set_fee_bps_over_max_fails() {
    let (treasury, admin) = setup();
    assert!(treasury.set_fee_bps(&admin, 10_001).is_err());
}

#[test]
fn test_set_fee_bps_multiple_updates() {
    let (treasury, admin) = setup();
    treasury.set_fee_bps(&admin, 100).unwrap();
    assert_eq!(treasury.fee_bps(), 100);
    treasury.set_fee_bps(&admin, 200).unwrap();
    assert_eq!(treasury.fee_bps(), 200);
    treasury.set_fee_bps(&admin, 50).unwrap();
    assert_eq!(treasury.fee_bps(), 50);
}

#[test]
fn test_withdraw_requires_admin() {
    let (treasury, _admin) = setup();
    let non_admin = Address::generate(&treasury.env);
    let token = Address::generate(&treasury.env);
    let recipient = Address::generate(&treasury.env);
    let result = treasury.withdraw(&non_admin, &token, &recipient, 1_000_000);
    assert!(result.is_err());
    assert_eq!(result, Err(KoraError::NotAdmin));
}

#[test]
fn test_withdraw_zero_amount_fails() {
    let (treasury, admin) = setup();
    let token = Address::generate(&treasury.env);
    let recipient = Address::generate(&treasury.env);
    let result = treasury.withdraw(&admin, &token, &recipient, 0);
    assert!(result.is_err());
    assert_eq!(result, Err(KoraError::InvalidAmount));
}

#[test]
fn test_withdraw_with_negative_amount_rejected() {
    let (treasury, admin) = setup();
    let token = Address::generate(&treasury.env);
    let recipient = Address::generate(&treasury.env);
    let result = treasury.withdraw(&admin, &token, &recipient, -1_000);
    assert!(result.is_err());
    assert_eq!(result, Err(KoraError::InvalidAmount));
}

#[test]
fn test_emergency_withdraw_requires_admin() {
    let (treasury, _admin) = setup();
    let non_admin = Address::generate(&treasury.env);
    let token = Address::generate(&treasury.env);
    let recipient = Address::generate(&treasury.env);
    let result = treasury.emergency_withdraw(&non_admin, &token, &recipient);
    assert!(result.is_err());
    assert_eq!(result, Err(KoraError::NotAdmin));
}

#[test]
fn test_get_fee_bps_default_before_init() {
    let treasury = Treasury::deploy();
    assert_eq!(treasury.fee_bps(), 50);
}

#[test]
fn test_lock_released_after_failed_withdraw() {
    let (treasury, admin) = setup();
    let token = Address::generate(&treasury.env);
    let recipient = Address::generate(&treasury.env);
    // Fails because the token is not whitelisted; the lock must be released.
    let _ = treasury.withdraw(&admin, &token, &recipient, 1_000);
    // A later call of the administrator must succeed.
    assert!(treasury.set_fee_bps(&admin, 100).is_ok());
}

#[test]
fn test_lock_released_after_emergency_withdraw() {
    let (treasury, admin) = setup();
    let token = Address::generate(&treasury.env);
    let recipient = Address::generate(&treasury.env);
    let _ = treasury.emergency_withdraw(&admin, &token, &recipient);
    // The lock must be released whatever the balance.
    assert!(treasury.set_fee_bps(&admin, 100).is_ok());
}

#[test]
fn test_initialize_self_as_admin_rejected() {
    let treasury = Treasury::deploy();
    let own_address = treasury.id.clone();
    let result = treasury.initialize(&own_address, 50);
    assert!(result.is_err());
    assert_eq!(result, Err(KoraError::InvalidAddress));
}

#[test]
fn test_withdrawal_cap_default_is_uncapped() {
    let (treasury, _admin) = setup();
    assert_eq!(treasury.call(|env| TreasuryContract::get_withdrawal_cap(env)), 0);
}

#[test]
fn test_propose_withdrawal_cap_requires_admin() {
    let (treasury, _admin) = setup();
    let non_admin = Address::generate(&treasury.env);
    let result = treasury.propose_withdrawal_cap(&non_admin, 1_000_000);
    assert!(result.is_err());
    assert_eq!(result, Err(KoraError::NotAdmin));
}

#[test]
fn test_propose_negative_cap_rejected() {
    let (treasury, admin) = setup();
    let result = treasury.propose_withdrawal_cap(&admin, -1);
    assert!(result.is_err());
    assert_eq!(result, Err(KoraError::InvalidAmount));
}

#[test]
fn test_execute_cap_before_timelock_fails() {
    let (treasury, admin) = setup();
    treasury.propose_withdrawal_cap(&admin, 1_000_000).unwrap();
    // The timelock has not elapsed.
    let result = treasury.execute_withdrawal_cap(&admin);
    assert!(result.is_err());
    assert_eq!(result, Err(KoraError::WithdrawalCapTimelockNotElapsed));
}

#[test]
fn test_execute_cap_without_proposal_fails() {
    let (treasury, admin) = setup();
    let result = treasury.execute_withdrawal_cap(&admin);
    assert!(result.is_err());
    assert_eq!(result, Err(KoraError::NoCapChangeProposed));
}
