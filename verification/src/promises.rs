//! What each call does, said of the call itself: which answer it gives on which
//! storage, and what it leaves in storage, announces and asks of tokens.
//!
//! `env` stands for the host: before the call as `*old(env)`, after it as
//! `*final(env)`. A `r` that stands in `call_ensures` is an answer that the call
//! may give.

use crate::data_key::DataKey;
use crate::error::KoraError;
use crate::host::{
    contents, invocation, names_contract, token_answer, transfer_answer, Event, Invocation,
    RawKey, TokenRequest, Transfer, Value,
};
use crate::model;
use crate::reentrancy::ReentrancyGuard;
use crate::state::{authorizes, is_own, state, valid, Query, State};
use crate::treasury::{drains, withdraws, TreasuryContract};
use crate::validation::{require_not_self, require_valid_fee_bps};
use soroban_sdk::{Address, BytesN, Env};
use vstd::prelude::*;

verus! {

/// What is read of the state is what the storage entries hold, and the value for a
/// missing entry where there is none.
pub proof fn law_entries_read(s: State, token: Address, now: u64)
    ensures
        !s.persistent.contains_key(DataKey::Admin) ==> s.admin() is None,
        s.persistent.contains_key(DataKey::Admin) ==> (s.persistent[DataKey::Admin]
            matches Value::Address(a) ==> s.admin() == Some(a)),
        s.admin() is Some <==> s.persistent.contains_key(DataKey::Admin),
        !s.persistent.contains_key(DataKey::FeeBps) ==> s.fee_bps() == 50,
        s.persistent.contains_key(DataKey::FeeBps) ==> (s.persistent[DataKey::FeeBps]
            matches Value::U32(bps) ==> s.fee_bps() == bps),
        s.collected(token) is Some <==> s.persistent.contains_key(DataKey::Collected(token)),
        s.persistent.contains_key(DataKey::Collected(token)) ==> (s.persistent[DataKey::Collected(
            token,
        )] matches Value::I128(c) ==> s.collected(token) == Some(c)),
        !s.persistent.contains_key(DataKey::WhitelistedToken(token)) ==> !s.is_whitelisted(token),
        s.persistent.contains_key(DataKey::WhitelistedToken(token)) ==> (
        s.persistent[DataKey::WhitelistedToken(token)] matches Value::Bool(b)
            ==> s.is_whitelisted(token) == b),
        !s.instance.contains_key(DataKey::WithdrawalCap) ==> s.cap() == 0,
        s.instance.contains_key(DataKey::WithdrawalCap) ==> (s.instance[DataKey::WithdrawalCap]
            matches Value::I128(c) ==> s.cap() == c),
        !s.instance.contains_key(DataKey::EpochStart) ==> s.epoch_start(now) == now,
        s.instance.contains_key(DataKey::EpochStart) ==> (s.instance[DataKey::EpochStart]
            matches Value::U64(start) ==> s.epoch_start(now) == start),
        !s.instance.contains_key(DataKey::EpochWithdrawn) ==> s.epoch_withdrawn() == 0,
        s.instance.contains_key(DataKey::EpochWithdrawn) ==> (s.instance[DataKey::EpochWithdrawn]
            matches Value::I128(w) ==> s.epoch_withdrawn() == w),
        !s.instance.contains_key(DataKey::WithdrawalLock) ==> !s.is_locked(),
        s.instance.contains_key(DataKey::WithdrawalLock) ==> (s.instance[DataKey::WithdrawalLock]
            matches Value::Bool(b) ==> s.is_locked() == b),
        s.cap_proposal() is Some <==> s.instance.contains_key(DataKey::WithdrawalCapProposal),
        s.instance.contains_key(DataKey::WithdrawalCapProposal) ==> (
        s.instance[DataKey::WithdrawalCapProposal] matches Value::AmountAt(cap, at)
            ==> s.cap_proposal() == Some((cap, at))),
        s.upgrade_proposal() is Some <==> s.instance.contains_key(DataKey::UpgradeProposal),
        s.instance.contains_key(DataKey::UpgradeProposal) ==> (s.instance[DataKey::UpgradeProposal]
            matches Value::HashAt(hash, at) ==> s.upgrade_proposal() == Some((hash, at))),
{
}

/// The state is what the host holds: under each key of the treasury the entry that
/// the host has under that key's symbol, and everything else as it is there.
pub proof fn law_state_is_what_the_host_holds(env: Env, k: DataKey, foreign: RawKey)
    requires
        forall|d: DataKey| foreign != #[trigger] d.raw(),
    ensures
        ({
            let c = contents(env);
            let s = state(env);
            &&& s.persistent.contains_key(k) == c.persistent.contains_key(k.raw())
            &&& s.persistent.contains_key(k) ==> s.persistent[k] == c.persistent[k.raw()]
            &&& s.live_until.contains_key(k) == c.live_until.contains_key(k.raw())
            &&& s.live_until.contains_key(k) ==> s.live_until[k] == c.live_until[k.raw()]
            &&& s.instance.contains_key(k) == c.instance.contains_key(k.raw())
            &&& s.instance.contains_key(k) ==> s.instance[k] == c.instance[k.raw()]
            &&& s.foreign.persistent.contains_key(foreign) == c.persistent.contains_key(foreign)
            &&& s.foreign.persistent.contains_key(foreign) ==> s.foreign.persistent[foreign]
                == c.persistent[foreign]
            &&& s.foreign.live_until.contains_key(foreign) == c.live_until.contains_key(foreign)
            &&& s.foreign.live_until.contains_key(foreign) ==> s.foreign.live_until[foreign]
                == c.live_until[foreign]
            &&& s.foreign.instance.contains_key(foreign) == c.instance.contains_key(foreign)
            &&& s.foreign.instance.contains_key(foreign) ==> s.foreign.instance[foreign]
                == c.instance[foreign]
            &&& s.auth_checked == c.auth_checked
            &&& s.published == c.published
            &&& s.transfers == c.transfers
            &&& s.replacement == c.replacement
            &&& s.token_calls.len() == c.token_calls.len()
            &&& forall|n: int|
                #![trigger s.token_calls[n]]
                0 <= n < c.token_calls.len() ==> {
                    &&& s.token_calls[n].token == c.token_calls[n].token
                    &&& s.token_calls[n].request == c.token_calls[n].request
                }
        }),
{
    assert(!is_own(foreign));
}

/// The symbol of each key, and the token it is about.
pub proof fn law_keys(token: Address)
    ensures
        DataKey::Admin.raw() == (RawKey { name: "Admin"@, subject: None }),
        DataKey::FeeBps.raw() == (RawKey { name: "FeeBps"@, subject: None }),
        DataKey::Collected(token).raw() == (RawKey { name: "Collected"@, subject: Some(token) }),
        DataKey::WhitelistedToken(token).raw() == (RawKey {
            name: "WhitelistedToken"@,
            subject: Some(token),
        }),
        DataKey::UpgradeProposal.raw() == (RawKey { name: "UpgradeProposal"@, subject: None }),
        DataKey::WithdrawalLock.raw() == (RawKey { name: "WithdrawalLock"@, subject: None }),
        DataKey::WithdrawalCap.raw() == (RawKey { name: "WithdrawalCap"@, subject: None }),
        DataKey::WithdrawalCapProposal.raw() == (RawKey {
            name: "WithdrawalCapProposal"@,
            subject: None,
        }),
        DataKey::EpochStart.raw() == (RawKey { name: "EpochStart"@, subject: None }),
        DataKey::EpochWithdrawn.raw() == (RawKey { name: "EpochWithdrawn"@, subject: None }),
{
}

/// The host is fit for a call exactly if it is running a contract, the lives that
/// the network grants end within the range of ledger numbers, every entry of the
/// treasury is of its type, and every persistent one is alive.
pub proof fn law_valid(env: Env)
    ensures
        valid(env) <==> {
            let i = invocation(env);
            let s = state(env);
            &&& i.in_contract
            &&& i.sequence + i.min_ttl <= u32::MAX + 1 || i.min_ttl == 0
            &&& i.sequence + i.max_ttl <= u32::MAX + 1 || i.max_ttl == 0
            &&& forall|k: DataKey| #[trigger]
                s.persistent.contains_key(k) ==> {
                    &&& s.live_until.contains_key(k)
                    &&& s.live_until[k] >= i.sequence
                    &&& match k {
                        DataKey::Admin => s.persistent[k] is Address,
                        DataKey::FeeBps => s.persistent[k] is U32,
                        DataKey::WhitelistedToken(_) => s.persistent[k] is Bool,
                        DataKey::WithdrawalLock => s.persistent[k] is Bool,
                        DataKey::UpgradeProposal => s.persistent[k] is HashAt,
                        DataKey::WithdrawalCapProposal => s.persistent[k] is AmountAt,
                        DataKey::EpochStart => s.persistent[k] is U64,
                        _ => s.persistent[k] is I128,
                    }
                }
            &&& forall|k: DataKey| #[trigger]
                s.instance.contains_key(k) ==> match k {
                    DataKey::Admin => s.instance[k] is Address,
                    DataKey::FeeBps => s.instance[k] is U32,
                    DataKey::WhitelistedToken(_) => s.instance[k] is Bool,
                    DataKey::WithdrawalLock => s.instance[k] is Bool,
                    DataKey::UpgradeProposal => s.instance[k] is HashAt,
                    DataKey::WithdrawalCapProposal => s.instance[k] is AmountAt,
                    DataKey::EpochStart => s.instance[k] is U64,
                    _ => s.instance[k] is I128,
                }
        },
{
}

/// The last ledger of the life of the entry under `k` once it has been written: the
/// life that it had, or that the network grants a new entry, and if no more than
/// half of 535 680 ledgers of that is left, 535 680 ledgers from now or as many as
/// the network grants.
pub open spec fn life_when_written(i: Invocation, s: State, k: DataKey) -> u32 {
    let had = if s.persistent.contains_key(k) {
        s.live_until[k] as int
    } else if i.min_ttl == 0 {
        i.sequence as int
    } else {
        i.sequence + i.min_ttl - 1
    };
    let most = if i.max_ttl == 0 {
        i.sequence as int
    } else {
        i.sequence + i.max_ttl - 1
    };
    let wanted = if i.sequence + 535_680 < most {
        i.sequence + 535_680
    } else {
        most
    };
    if had - i.sequence <= 267_840 && wanted > had {
        wanted as u32
    } else {
        had as u32
    }
}

/// The first initialization names the administrator, who is not the treasury
/// itself, and a fee rate within the whole. It leaves the treasury uncapped and
/// unlocked, in an epoch that starts now with nothing withdrawn. Any other is
/// refused and changes nothing.
pub proof fn law_initialize(
    env: &mut Env,
    admin: Address,
    fee_bps: u32,
    r: Result<(), KoraError>,
)
    requires
        valid(*old(env)),
        call_ensures(TreasuryContract::initialize, (env, admin, fee_bps), r),
    ensures
        ({
            let i = invocation(*old(env));
            let s = state(*old(env));
            let t = state(*final(env));
            &&& valid(*final(env))
            &&& invocation(*final(env)) == i
            &&& r is Ok <==> s.admin() is None && fee_bps <= 10_000 && admin != i.contract
            &&& r == Err::<(), KoraError>(KoraError::AlreadyInitialized) <==> s.admin() is Some
            &&& r == Err::<(), KoraError>(KoraError::InvalidFeeBps) <==> s.admin() is None
                && fee_bps > 10_000
            &&& r == Err::<(), KoraError>(KoraError::InvalidAddress) <==> s.admin() is None
                && fee_bps <= 10_000 && admin == i.contract
            &&& r is Err ==> t == s
            &&& r is Ok ==> {
                &&& t.admin() == Some(admin)
                &&& t.fee_bps() == fee_bps
                &&& t.cap() == 0
                &&& t.epoch_start(0) == i.timestamp
                &&& t.instance.contains_key(DataKey::EpochStart)
                &&& t.epoch_withdrawn() == 0
                &&& !t.is_locked()
                &&& t.cap_proposal() == s.cap_proposal()
                &&& t.upgrade_proposal() == s.upgrade_proposal()
                &&& t =~= State {
                    persistent: s.persistent.insert(DataKey::Admin, Value::Address(admin)).insert(
                        DataKey::FeeBps,
                        Value::U32(fee_bps),
                    ),
                    live_until: s.live_until.insert(
                        DataKey::Admin,
                        life_when_written(i, s, DataKey::Admin),
                    ).insert(DataKey::FeeBps, life_when_written(i, s, DataKey::FeeBps)),
                    instance: s.instance.insert(DataKey::Admin, Value::Address(admin)).insert(
                        DataKey::FeeBps,
                        Value::U32(fee_bps),
                    ).insert(DataKey::WithdrawalLock, Value::Bool(false)).insert(
                        DataKey::WithdrawalCap,
                        Value::I128(0),
                    ).insert(DataKey::EpochStart, Value::U64(i.timestamp)).insert(
                        DataKey::EpochWithdrawn,
                        Value::I128(0),
                    ),
                    published: s.published.push(
                        Event {
                            topic: "treasury_initialized"@,
                            data: seq![Value::Address(admin), Value::U32(fee_bps)],
                        },
                    ),
                    ..s
                }
            }
        }),
{
}

/// The fee rate is set for the administrator exactly if it is within the whole; the
/// old rate is announced with the new one.
pub proof fn law_set_fee_bps(
    env: &mut Env,
    admin: Address,
    fee_bps: u32,
    r: Result<(), KoraError>,
)
    requires
        valid(*old(env)),
        call_ensures(TreasuryContract::set_fee_bps, (env, admin, fee_bps), r),
    ensures
        ({
            let i = invocation(*old(env));
            let s = state(*old(env));
            let t = state(*final(env));
            &&& valid(*final(env))
            &&& invocation(*final(env)) == i
            &&& r is Ok <==> s.admin() == Some(admin) && fee_bps <= 10_000
            &&& r == Err::<(), KoraError>(KoraError::NotInitialized) <==> s.admin() is None
            &&& r == Err::<(), KoraError>(KoraError::NotAdmin) <==> s.admin() is Some && s.admin()
                != Some(admin)
            &&& r == Err::<(), KoraError>(KoraError::InvalidFeeBps) <==> s.admin() == Some(admin)
                && fee_bps > 10_000
            &&& r is Err ==> t =~= State { auth_checked: s.auth_checked.insert(admin), ..s }
            &&& r is Ok ==> {
                &&& t.fee_bps() == fee_bps
                &&& t =~= State {
                    persistent: s.persistent.insert(DataKey::FeeBps, Value::U32(fee_bps)),
                    live_until: s.live_until.insert(
                        DataKey::FeeBps,
                        life_when_written(i, s, DataKey::FeeBps),
                    ),
                    auth_checked: s.auth_checked.insert(admin),
                    published: s.published.push(
                        Event {
                            topic: "fee_rate_updated"@,
                            data: seq![
                                Value::Address(admin),
                                Value::U32(s.fee_bps()),
                                Value::U32(fee_bps),
                            ],
                        },
                    ),
                    ..s
                }
            }
        }),
{
}

/// The administrator is refused no token: whatever the state, the token is
/// whitelisted afterwards. Nobody else can have one whitelisted.
pub proof fn law_whitelist_token(
    env: &mut Env,
    admin: Address,
    token: Address,
    r: Result<(), KoraError>,
)
    requires
        valid(*old(env)),
        call_ensures(TreasuryContract::whitelist_token, (env, admin, token), r),
    ensures
        ({
            let i = invocation(*old(env));
            let s = state(*old(env));
            let t = state(*final(env));
            &&& valid(*final(env))
            &&& invocation(*final(env)) == i
            &&& r is Ok <==> s.admin() == Some(admin)
            &&& r == Err::<(), KoraError>(KoraError::NotInitialized) <==> s.admin() is None
            &&& r == Err::<(), KoraError>(KoraError::NotAdmin) <==> s.admin() is Some && s.admin()
                != Some(admin)
            &&& r is Err ==> t =~= State { auth_checked: s.auth_checked.insert(admin), ..s }
            &&& r is Ok ==> {
                &&& t.is_whitelisted(token)
                &&& t =~= State {
                    persistent: s.persistent.insert(
                        DataKey::WhitelistedToken(token),
                        Value::Bool(true),
                    ),
                    live_until: s.live_until.insert(
                        DataKey::WhitelistedToken(token),
                        life_when_written(i, s, DataKey::WhitelistedToken(token)),
                    ),
                    auth_checked: s.auth_checked.insert(admin),
                    published: s.published.push(
                        Event { topic: "token_whitelisted"@, data: seq![Value::Address(token)] },
                    ),
                    ..s
                }
            }
        }),
{
}

/// A fee is recorded exactly if it is positive, of a whitelisted token, and fits
/// into the total; it is added to what is on record for that token.
pub proof fn law_collect_fee(
    env: &mut Env,
    token: Address,
    amount: i128,
    r: Result<(), KoraError>,
)
    requires
        valid(*old(env)),
        call_ensures(TreasuryContract::collect_fee, (env, token, amount), r),
    ensures
        ({
            let i = invocation(*old(env));
            let s = state(*old(env));
            let t = state(*final(env));
            let before: int = if s.collected(token) is Some {
                s.collected(token)->0 as int
            } else {
                0
            };
            &&& valid(*final(env))
            &&& invocation(*final(env)) == i
            &&& r is Ok <==> amount > 0 && s.is_whitelisted(token) && before + amount <= i128::MAX
            &&& r == Err::<(), KoraError>(KoraError::InvalidAmount) <==> amount <= 0
            &&& r == Err::<(), KoraError>(KoraError::TokenNotWhitelisted) <==> amount > 0
                && !s.is_whitelisted(token)
            &&& r == Err::<(), KoraError>(KoraError::ArithmeticOverflow) <==> amount > 0
                && s.is_whitelisted(token) && before + amount > i128::MAX
            &&& r is Err ==> t == s
            &&& r is Ok ==> {
                &&& t.collected(token) == Some((before + amount) as i128)
                &&& t =~= State {
                    persistent: s.persistent.insert(
                        DataKey::Collected(token),
                        Value::I128((before + amount) as i128),
                    ),
                    live_until: s.live_until.insert(
                        DataKey::Collected(token),
                        life_when_written(i, s, DataKey::Collected(token)),
                    ),
                    published: s.published.push(
                        Event {
                            topic: "fee_collected"@,
                            data: seq![Value::U64(0), Value::I128(amount), Value::Address(token)],
                        },
                    ),
                    ..s
                }
            }
        }),
{
}

/// The administrator can propose any cap that is not negative; the proposal is kept
/// with the time at which it was made, and nothing else changes yet.
pub proof fn law_propose_withdrawal_cap(
    env: &mut Env,
    admin: Address,
    new_cap: i128,
    r: Result<(), KoraError>,
)
    requires
        valid(*old(env)),
        call_ensures(TreasuryContract::propose_withdrawal_cap, (env, admin, new_cap), r),
    ensures
        ({
            let i = invocation(*old(env));
            let s = state(*old(env));
            let t = state(*final(env));
            &&& valid(*final(env))
            &&& invocation(*final(env)) == i
            &&& r is Ok <==> s.admin() == Some(admin) && new_cap >= 0
            &&& r == Err::<(), KoraError>(KoraError::NotInitialized) <==> s.admin() is None
            &&& r == Err::<(), KoraError>(KoraError::NotAdmin) <==> s.admin() is Some && s.admin()
                != Some(admin)
            &&& r == Err::<(), KoraError>(KoraError::InvalidAmount) <==> s.admin() == Some(admin)
                && new_cap < 0
            &&& r is Err ==> t =~= State { auth_checked: s.auth_checked.insert(admin), ..s }
            &&& r is Ok ==> {
                &&& t.cap_proposal() == Some((new_cap, i.timestamp))
                &&& t.cap() == s.cap()
                &&& t =~= State {
                    instance: s.instance.insert(
                        DataKey::WithdrawalCapProposal,
                        Value::AmountAt(new_cap, i.timestamp),
                    ),
                    auth_checked: s.auth_checked.insert(admin),
                    published: s.published.push(
                        Event {
                            topic: "withdrawal_cap_proposed"@,
                            data: seq![Value::Address(admin), Value::I128(new_cap)],
                        },
                    ),
                    ..s
                }
            }
        }),
{
}

/// The administrator can execute a proposed cap exactly from the moment at which it
/// has waited for the timelock. That puts the proposed cap in force, uses the
/// proposal up, and leaves the epoch and its total as they were, whatever cap was
/// in force before.
pub proof fn law_execute_withdrawal_cap(
    env: &mut Env,
    admin: Address,
    timelock_delay: u64,
    r: Result<(), KoraError>,
)
    requires
        valid(*old(env)),
        call_ensures(TreasuryContract::execute_withdrawal_cap, (env, admin, timelock_delay), r),
    ensures
        ({
            let i = invocation(*old(env));
            let s = state(*old(env));
            let t = state(*final(env));
            &&& valid(*final(env))
            &&& invocation(*final(env)) == i
            &&& r == Err::<(), KoraError>(KoraError::NotInitialized) <==> s.admin() is None
            &&& r == Err::<(), KoraError>(KoraError::NotAdmin) <==> s.admin() is Some && s.admin()
                != Some(admin)
            &&& r == Err::<(), KoraError>(KoraError::NoCapChangeProposed) <==> s.admin() == Some(
                admin,
            ) && s.cap_proposal() is None
            &&& s.admin() == Some(admin) ==> (s.cap_proposal() matches Some((new_cap, proposed_at))
                ==> {
                &&& i.timestamp - proposed_at >= timelock_delay ==> {
                    &&& r is Ok
                    &&& t.cap() == new_cap
                    &&& t.cap_proposal() is None
                    &&& t.epoch_start(i.timestamp) == s.epoch_start(i.timestamp)
                    &&& t.epoch_withdrawn() == s.epoch_withdrawn()
                    &&& t =~= State {
                        instance: s.instance.insert(
                            DataKey::WithdrawalCap,
                            Value::I128(new_cap),
                        ).remove(DataKey::WithdrawalCapProposal),
                        auth_checked: s.auth_checked.insert(admin),
                        published: s.published.push(
                            Event {
                                topic: "withdrawal_cap_updated"@,
                                data: seq![
                                    Value::Address(admin),
                                    Value::I128(s.cap()),
                                    Value::I128(new_cap),
                                ],
                            },
                        ),
                        ..s
                    }
                }
                &&& i.timestamp - proposed_at < timelock_delay ==> r == Err::<(), KoraError>(
                    KoraError::WithdrawalCapTimelockNotElapsed,
                )
            })
            &&& r is Err ==> t =~= State { auth_checked: s.auth_checked.insert(admin), ..s }
        }),
{
}

/// The administrator can propose any upgrade; the proposal is kept with the time at
/// which it was made, and nothing else changes yet.
pub proof fn law_propose_upgrade(
    env: &mut Env,
    admin: Address,
    new_wasm_hash: BytesN<32>,
    r: Result<(), KoraError>,
)
    requires
        valid(*old(env)),
        call_ensures(TreasuryContract::propose_upgrade, (env, admin, new_wasm_hash), r),
    ensures
        ({
            let i = invocation(*old(env));
            let s = state(*old(env));
            let t = state(*final(env));
            &&& valid(*final(env))
            &&& invocation(*final(env)) == i
            &&& r is Ok <==> s.admin() == Some(admin)
            &&& r == Err::<(), KoraError>(KoraError::NotInitialized) <==> s.admin() is None
            &&& r == Err::<(), KoraError>(KoraError::NotAdmin) <==> s.admin() is Some && s.admin()
                != Some(admin)
            &&& r is Err ==> t =~= State { auth_checked: s.auth_checked.insert(admin), ..s }
            &&& r is Ok ==> {
                &&& t.upgrade_proposal() == Some((new_wasm_hash, i.timestamp))
                &&& t =~= State {
                    instance: s.instance.insert(
                        DataKey::UpgradeProposal,
                        Value::HashAt(new_wasm_hash, i.timestamp),
                    ),
                    auth_checked: s.auth_checked.insert(admin),
                    published: s.published.push(
                        Event {
                            topic: "upgrade_proposed"@,
                            data: seq![Value::Address(admin), Value::Hash(new_wasm_hash)],
                        },
                    ),
                    ..s
                }
            }
        }),
{
}

/// The administrator can execute a proposed upgrade exactly from the moment at which
/// it has waited for the timelock. That has the code replaced by the proposed code
/// and uses the proposal up.
pub proof fn law_execute_upgrade(
    env: &mut Env,
    admin: Address,
    timelock_delay: u64,
    r: Result<(), KoraError>,
)
    requires
        valid(*old(env)),
        call_ensures(TreasuryContract::execute_upgrade, (env, admin, timelock_delay), r),
    ensures
        ({
            let i = invocation(*old(env));
            let s = state(*old(env));
            let t = state(*final(env));
            &&& valid(*final(env))
            &&& invocation(*final(env)) == i
            &&& r == Err::<(), KoraError>(KoraError::NotInitialized) <==> s.admin() is None
            &&& r == Err::<(), KoraError>(KoraError::NotAdmin) <==> s.admin() is Some && s.admin()
                != Some(admin)
            &&& r == Err::<(), KoraError>(KoraError::NoUpgradeProposed) <==> s.admin() == Some(
                admin,
            ) && s.upgrade_proposal() is None
            &&& s.admin() == Some(admin) ==> (s.upgrade_proposal() matches Some((hash, proposed_at))
                ==> {
                &&& i.timestamp - proposed_at >= timelock_delay ==> {
                    &&& r is Ok
                    &&& t.upgrade_proposal() is None
                    &&& t =~= State {
                        replacement: Some(hash),
                        instance: s.instance.remove(DataKey::UpgradeProposal),
                        auth_checked: s.auth_checked.insert(admin),
                        published: s.published.push(
                            Event {
                                topic: "upgrade_executed"@,
                                data: seq![Value::Address(admin), Value::Hash(hash)],
                            },
                        ),
                        ..s
                    }
                }
                &&& i.timestamp - proposed_at < timelock_delay ==> r == Err::<(), KoraError>(
                    KoraError::UpgradeTimelockNotElapsed,
                )
            })
            &&& r is Err ==> t =~= State { auth_checked: s.auth_checked.insert(admin), ..s }
        }),
{
}

/// The rate check first starts a new epoch if the one on record has lasted a day,
/// whatever the cap. Then, without a cap, every amount passes; with one, an amount
/// passes exactly if it is within the cap together with the total that is on record
/// for the epoch. It changes nothing but the epoch.
pub proof fn law_enforce_rate_limit(env: &mut Env, amount: i128, r: Result<(), KoraError>)
    requires
        valid(*old(env)),
        call_ensures(TreasuryContract::enforce_rate_limit, (env, amount), r),
    ensures
        ({
            let i = invocation(*old(env));
            let s = state(*old(env));
            let t = state(*final(env));
            let over = s.instance.contains_key(DataKey::EpochStart) && i.timestamp - s.epoch_start(0)
                >= 86_400;
            let counted: int = if over {
                0
            } else {
                s.epoch_withdrawn() as int
            };
            let epoch = if over {
                s.instance.insert(DataKey::EpochStart, Value::U64(i.timestamp)).insert(
                    DataKey::EpochWithdrawn,
                    Value::I128(0),
                )
            } else {
                s.instance
            };
            &&& valid(*final(env))
            &&& invocation(*final(env)) == i
            &&& s.cap() == 0 ==> r is Ok
            &&& s.cap() != 0 && i128::MIN <= counted + amount <= i128::MAX ==> (r is Ok <==> counted
                + amount <= s.cap())
            &&& s.cap() != 0 && i128::MIN <= counted + amount <= i128::MAX && r is Err ==> r
                == Err::<(), KoraError>(KoraError::WithdrawalRateLimitExceeded)
            &&& s.cap() != 0 && !(i128::MIN <= counted + amount <= i128::MAX) ==> r == Err::<
                (),
                KoraError,
            >(KoraError::ArithmeticOverflow)
            &&& t =~= State { instance: epoch, ..s }
        }),
{
}

/// While an epoch lasts, a positive amount passes under a cap exactly if it is
/// within the cap together with the total on record; once the epoch has lasted a
/// day, exactly if it is within the cap by itself.
pub proof fn law_rate_room(env: &mut Env, amount: i128, r: Result<(), KoraError>)
    requires
        valid(*old(env)),
        call_ensures(TreasuryContract::enforce_rate_limit, (env, amount), r),
        amount > 0,
        state(*old(env)).cap() != 0,
    ensures
        ({
            let i = invocation(*old(env));
            let s = state(*old(env));
            let start = s.epoch_start(i.timestamp);
            &&& i.timestamp - start < 86_400 ==> (r is Ok <==> s.epoch_withdrawn() + amount
                <= s.cap())
            &&& i.timestamp - start >= 86_400 ==> (r is Ok <==> amount <= s.cap())
        }),
{
}

/// A withdrawal begins exactly if the administrator asks for a positive amount of a
/// whitelisted token, within the cap, while no other is under way. It then holds
/// the lock; nothing was asked of the token yet.
pub proof fn law_begin_withdrawal(
    env: &mut Env,
    admin: Address,
    token: Address,
    amount: i128,
    r: Result<(), KoraError>,
)
    requires
        valid(*old(env)),
        call_ensures(TreasuryContract::begin_withdrawal, (env, &admin, &token, amount), r),
    ensures
        ({
            let i = invocation(*old(env));
            let s = state(*old(env));
            let t = state(*final(env));
            let over = s.instance.contains_key(DataKey::EpochStart) && i.timestamp - s.epoch_start(0)
                >= 86_400;
            let counted: int = if over {
                0
            } else {
                s.epoch_withdrawn() as int
            };
            let epoch = if over {
                s.instance.insert(DataKey::EpochStart, Value::U64(i.timestamp)).insert(
                    DataKey::EpochWithdrawn,
                    Value::I128(0),
                )
            } else {
                s.instance
            };
            let room = s.cap() == 0 || counted + amount <= s.cap();
            &&& valid(*final(env))
            &&& invocation(*final(env)) == i
            &&& r is Ok <==> s.admin() == Some(admin) && amount > 0 && s.is_whitelisted(token)
                && room && !s.is_locked()
            &&& r == Err::<(), KoraError>(KoraError::NotInitialized) <==> s.admin() is None
            &&& r == Err::<(), KoraError>(KoraError::NotAdmin) <==> s.admin() is Some && s.admin()
                != Some(admin)
            &&& s.admin() == Some(admin) ==> {
                &&& r == Err::<(), KoraError>(KoraError::InvalidAmount) <==> amount <= 0
                &&& r == Err::<(), KoraError>(KoraError::TokenNotWhitelisted) <==> amount > 0
                    && !s.is_whitelisted(token)
                &&& amount > 0 && s.is_whitelisted(token) ==> {
                    &&& r == Err::<(), KoraError>(KoraError::ArithmeticOverflow) <==> !room
                        && counted + amount > i128::MAX
                    &&& r == Err::<(), KoraError>(KoraError::WithdrawalRateLimitExceeded) <==> !room
                        && counted + amount <= i128::MAX
                    &&& r == Err::<(), KoraError>(KoraError::ReentrantCall) <==> room
                        && s.is_locked()
                }
            }
            &&& r is Ok ==> t =~= State {
                instance: epoch.insert(DataKey::WithdrawalLock, Value::Bool(true)),
                auth_checked: s.auth_checked.insert(admin),
                ..s
            }
            &&& r is Err ==> t =~= State {
                instance: if s.admin() == Some(admin) && amount > 0 && s.is_whitelisted(token) {
                    epoch
                } else {
                    s.instance
                },
                auth_checked: s.auth_checked.insert(admin),
                ..s
            }
        }),
{
}

/// A withdrawal is booked exactly if the token reported at least the amount. It is
/// taken off the fees on record, if there are any, down to the least number that
/// fits, and added to the total of the epoch, if a cap is in force.
pub proof fn law_book_withdrawal(
    env: &mut Env,
    token: Address,
    amount: i128,
    balance: Option<i128>,
    r: Result<(), KoraError>,
)
    requires
        valid(*old(env)),
        call_ensures(TreasuryContract::book_withdrawal, (env, &token, amount, balance), r),
    ensures
        ({
            let i = invocation(*old(env));
            let s = state(*old(env));
            let t = state(*final(env));
            &&& valid(*final(env))
            &&& invocation(*final(env)) == i
            &&& r is Ok <==> balance is Some && balance->0 >= amount
            &&& r == Err::<(), KoraError>(KoraError::TokenCallFailed) <==> balance is None
            &&& r == Err::<(), KoraError>(KoraError::InsufficientPoolBalance) <==> balance is Some
                && balance->0 < amount
            &&& r is Err ==> t =~= State {
                instance: s.instance.insert(DataKey::WithdrawalLock, Value::Bool(false)),
                ..s
            }
            &&& r is Ok ==> {
                &&& s.collected(token) is None ==> t.collected(token) is None && t.persistent
                    == s.persistent && t.live_until == s.live_until
                &&& s.collected(token) matches Some(c) ==> {
                    let left = if c - amount < i128::MIN {
                        i128::MIN
                    } else if c - amount > i128::MAX {
                        i128::MAX
                    } else {
                        (c - amount) as i128
                    };
                    &&& t.collected(token) == Some(left)
                    &&& t.persistent =~= s.persistent.insert(
                        DataKey::Collected(token),
                        Value::I128(left),
                    )
                    &&& t.live_until =~= s.live_until.insert(
                        DataKey::Collected(token),
                        life_when_written(i, s, DataKey::Collected(token)),
                    )
                }
                &&& s.cap() == 0 ==> t.instance == s.instance
                &&& s.cap() != 0 ==> {
                    let total = if s.epoch_withdrawn() + amount > i128::MAX {
                        i128::MAX
                    } else if s.epoch_withdrawn() + amount < i128::MIN {
                        i128::MIN
                    } else {
                        (s.epoch_withdrawn() + amount) as i128
                    };
                    t.instance =~= s.instance.insert(DataKey::EpochWithdrawn, Value::I128(total))
                }
                &&& t == State {
                    persistent: t.persistent,
                    live_until: t.live_until,
                    instance: t.instance,
                    ..s
                }
            }
        }),
{
}

/// A withdrawal ends well exactly if the token reported that the transfer was done,
/// and only then is it announced; either way the lock is given back.
pub proof fn law_finish_withdrawal(
    env: &mut Env,
    token: Address,
    amount: i128,
    paid: bool,
    r: Result<(), KoraError>,
)
    requires
        valid(*old(env)),
        call_ensures(TreasuryContract::finish_withdrawal, (env, &token, amount, paid), r),
    ensures
        ({
            let i = invocation(*old(env));
            let s = state(*old(env));
            let t = state(*final(env));
            &&& valid(*final(env))
            &&& invocation(*final(env)) == i
            &&& paid ==> r is Ok
            &&& !paid ==> r == Err::<(), KoraError>(KoraError::TokenCallFailed)
            &&& t =~= State {
                instance: s.instance.insert(DataKey::WithdrawalLock, Value::Bool(false)),
                published: if paid {
                    s.published.push(
                        Event {
                            topic: "fee_withdrawn"@,
                            data: seq![Value::Address(token), Value::I128(amount)],
                        },
                    )
                } else {
                    s.published
                },
                ..s
            }
        }),
{
}

/// An emergency withdrawal begins exactly if the administrator asks for a
/// whitelisted token while no other is under way. It then holds the lock; nothing
/// was asked of the token yet.
pub proof fn law_begin_emergency(
    env: &mut Env,
    admin: Address,
    token: Address,
    r: Result<(), KoraError>,
)
    requires
        valid(*old(env)),
        call_ensures(TreasuryContract::begin_emergency, (env, &admin, &token), r),
    ensures
        ({
            let i = invocation(*old(env));
            let s = state(*old(env));
            let t = state(*final(env));
            &&& valid(*final(env))
            &&& invocation(*final(env)) == i
            &&& r is Ok <==> s.admin() == Some(admin) && s.is_whitelisted(token) && !s.is_locked()
            &&& r == Err::<(), KoraError>(KoraError::NotInitialized) <==> s.admin() is None
            &&& r == Err::<(), KoraError>(KoraError::NotAdmin) <==> s.admin() is Some && s.admin()
                != Some(admin)
            &&& r == Err::<(), KoraError>(KoraError::TokenNotWhitelisted) <==> s.admin() == Some(
                admin,
            ) && !s.is_whitelisted(token)
            &&& r == Err::<(), KoraError>(KoraError::ReentrantCall) <==> s.admin() == Some(admin)
                && s.is_whitelisted(token) && s.is_locked()
            &&& t =~= State {
                instance: if r is Ok {
                    s.instance.insert(DataKey::WithdrawalLock, Value::Bool(true))
                } else {
                    s.instance
                },
                auth_checked: s.auth_checked.insert(admin),
                ..s
            }
        }),
{
}

/// All that the token reported is due, if it is within the cap, and nothing if
/// nothing is held. What is due is added to the total of the epoch, if a cap is in
/// force; the fees on record stay.
pub proof fn law_book_emergency(
    env: &mut Env,
    balance: Option<i128>,
    r: Result<i128, KoraError>,
)
    requires
        valid(*old(env)),
        call_ensures(TreasuryContract::book_emergency, (env, balance), r),
    ensures
        ({
            let i = invocation(*old(env));
            let s = state(*old(env));
            let t = state(*final(env));
            let over = s.instance.contains_key(DataKey::EpochStart) && i.timestamp - s.epoch_start(0)
                >= 86_400;
            let counted: int = if over {
                0
            } else {
                s.epoch_withdrawn() as int
            };
            let epoch = if over {
                s.instance.insert(DataKey::EpochStart, Value::U64(i.timestamp)).insert(
                    DataKey::EpochWithdrawn,
                    Value::I128(0),
                )
            } else {
                s.instance
            };
            &&& valid(*final(env))
            &&& invocation(*final(env)) == i
            &&& balance is None ==> {
                &&& r == Err::<i128, KoraError>(KoraError::TokenCallFailed)
                &&& t =~= State {
                    instance: s.instance.insert(DataKey::WithdrawalLock, Value::Bool(false)),
                    ..s
                }
            }
            &&& balance matches Some(held) ==> {
                &&& held <= 0 ==> r == Ok::<i128, KoraError>(0) && t == s
                &&& held > 0 && (s.cap() == 0 || counted + held <= s.cap()) ==> {
                    &&& r == Ok::<i128, KoraError>(held)
                    &&& t =~= State {
                        instance: if s.cap() == 0 {
                            epoch
                        } else {
                            epoch.insert(
                                DataKey::EpochWithdrawn,
                                Value::I128((counted + held) as i128),
                            )
                        },
                        ..s
                    }
                }
                &&& held > 0 && s.cap() != 0 && counted + held > s.cap() ==> {
                    &&& r == Err::<i128, KoraError>(
                        if counted + held > i128::MAX {
                            KoraError::ArithmeticOverflow
                        } else {
                            KoraError::WithdrawalRateLimitExceeded
                        },
                    )
                    &&& t =~= State {
                        instance: epoch.insert(DataKey::WithdrawalLock, Value::Bool(false)),
                        ..s
                    }
                }
            }
        }),
{
}

/// An emergency withdrawal ends well exactly if nothing was due, or the token
/// reported that the transfer was done, and only then is it announced; in any case
/// the lock is given back.
pub proof fn law_finish_emergency(
    env: &mut Env,
    admin: Address,
    token: Address,
    due: i128,
    paid: bool,
    r: Result<(), KoraError>,
)
    requires
        valid(*old(env)),
        call_ensures(TreasuryContract::finish_emergency, (env, &admin, &token, due, paid), r),
    ensures
        ({
            let i = invocation(*old(env));
            let s = state(*old(env));
            let t = state(*final(env));
            &&& valid(*final(env))
            &&& invocation(*final(env)) == i
            &&& due == 0 || paid ==> r is Ok
            &&& due != 0 && !paid ==> r == Err::<(), KoraError>(KoraError::TokenCallFailed)
            &&& t =~= State {
                instance: s.instance.insert(DataKey::WithdrawalLock, Value::Bool(false)),
                published: if due != 0 && paid {
                    s.published.push(
                        Event {
                            topic: "emergency_withdrawn"@,
                            data: seq![
                                Value::Address(admin),
                                Value::Address(token),
                                Value::I128(due),
                            ],
                        },
                    )
                } else {
                    s.published
                },
                ..s
            }
        }),
{
}

/// What is read is what is there, and the token's own answer for the balance.
pub proof fn law_reads(
    env: Env,
    fee_bps: u32,
    cap: i128,
    admin: Result<Address, KoraError>,
)
    requires
        valid(env),
        call_ensures(TreasuryContract::get_fee_bps, (&env,), fee_bps),
        call_ensures(TreasuryContract::get_withdrawal_cap, (&env,), cap),
        call_ensures(TreasuryContract::get_admin, (&env,), admin),
    ensures
        ({
            let s = state(env);
            &&& !s.persistent.contains_key(DataKey::FeeBps) ==> fee_bps == 50
            &&& s.persistent.contains_key(DataKey::FeeBps) ==> s.persistent[DataKey::FeeBps]
                == Value::U32(fee_bps)
            &&& !s.instance.contains_key(DataKey::WithdrawalCap) ==> cap == 0
            &&& s.instance.contains_key(DataKey::WithdrawalCap)
                ==> s.instance[DataKey::WithdrawalCap] == Value::I128(cap)
            &&& !s.persistent.contains_key(DataKey::Admin) ==> admin == Err::<Address, KoraError>(
                KoraError::NotInitialized,
            )
            &&& s.persistent.contains_key(DataKey::Admin) ==> admin is Ok
                && s.persistent[DataKey::Admin] == Value::Address(admin->Ok_0)
        }),
{
}

/// The balance is the token's answer for the treasury's own address, and to ask for
/// it changes nothing.
pub proof fn law_get_balance(env: &mut Env, token: Address, r: Result<i128, KoraError>)
    requires
        valid(*old(env)),
        call_ensures(TreasuryContract::get_balance, (env, token), r),
    ensures
        ({
            let i = invocation(*old(env));
            let s = state(*old(env));
            let t = state(*final(env));
            let answer = token_answer(*old(env), token, i.contract);
            &&& valid(*final(env))
            &&& invocation(*final(env)) == i
            &&& answer is None ==> r == Err::<i128, KoraError>(KoraError::TokenCallFailed)
            &&& answer is Some ==> r == Ok::<i128, KoraError>(answer->0)
            &&& t =~= State {
                token_calls: s.token_calls.push(
                    Query {
                        token,
                        request: TokenRequest::Balance { holder: i.contract },
                        instance: s.instance,
                        foreign: s.foreign.instance,
                    },
                ),
                ..s
            }
        }),
{
}

/// The lock is taken exactly if it is free, and given back in any case.
pub proof fn law_lock(env: &mut Env, other: &mut Env, r: Result<(), KoraError>)
    requires
        valid(*old(env)),
        call_ensures(ReentrancyGuard::acquire, (env,), r),
        call_ensures(ReentrancyGuard::release, (other,), ()),
    ensures
        state(*old(env)).is_locked() ==> {
            &&& r == Err::<(), KoraError>(KoraError::ReentrantCall)
            &&& state(*final(env)) == state(*old(env))
        },
        !state(*old(env)).is_locked() ==> {
            &&& r is Ok
            &&& state(*final(env)) =~= State {
                instance: state(*old(env)).instance.insert(
                    DataKey::WithdrawalLock,
                    Value::Bool(true),
                ),
                ..state(*old(env))
            }
        },
        state(*final(other)) =~= (State {
            instance: state(*old(other)).instance.insert(
                DataKey::WithdrawalLock,
                Value::Bool(false),
            ),
            ..state(*old(other))
        }),
{
}

/// A fee rate is valid exactly up to the whole, and an address exactly if it is not
/// the executing contract's own.
pub proof fn law_validation(
    env: Env,
    fee_bps: u32,
    fee_answer: Result<(), KoraError>,
    address: Address,
    address_answer: Result<(), KoraError>,
)
    requires
        call_ensures(require_valid_fee_bps, (fee_bps,), fee_answer),
        call_ensures(require_not_self, (&env, &address), address_answer),
    ensures
        fee_bps <= 10_000 ==> fee_answer is Ok,
        fee_bps > 10_000 ==> fee_answer == Err::<(), KoraError>(KoraError::InvalidFeeBps),
        address != invocation(env).contract ==> address_answer is Ok,
        address == invocation(env).contract ==> address_answer == Err::<(), KoraError>(
            KoraError::InvalidAddress,
        ),
{
}

/// A withdrawal that its checks refuse says why, asks the token for nothing, and
/// leaves everything but the epoch, if a new one was due.
pub proof fn law_withdraw_refused(
    env: &mut Env,
    admin: Address,
    token: Address,
    recipient: Address,
    amount: i128,
    r: Result<(), KoraError>,
)
    requires
        valid(*old(env)),
        call_ensures(TreasuryContract::withdraw, (env, admin, token, recipient, amount), r),
    ensures
        ({
            let i = invocation(*old(env));
            let s = state(*old(env));
            let t = state(*final(env));
            let over = s.instance.contains_key(DataKey::EpochStart) && i.timestamp - s.epoch_start(0)
                >= 86_400;
            let counted: int = if over {
                0
            } else {
                s.epoch_withdrawn() as int
            };
            let epoch = if over {
                s.instance.insert(DataKey::EpochStart, Value::U64(i.timestamp)).insert(
                    DataKey::EpochWithdrawn,
                    Value::I128(0),
                )
            } else {
                s.instance
            };
            let room = s.cap() == 0 || counted + amount <= s.cap();
            &&& valid(*final(env))
            &&& invocation(*final(env)) == i
            &&& s.admin() is None ==> r == Err::<(), KoraError>(KoraError::NotInitialized)
            &&& s.admin() is Some && s.admin() != Some(admin) ==> r == Err::<(), KoraError>(
                KoraError::NotAdmin,
            )
            &&& s.admin() == Some(admin) && amount <= 0 ==> r == Err::<(), KoraError>(
                KoraError::InvalidAmount,
            )
            &&& s.admin() == Some(admin) && amount > 0 && !s.is_whitelisted(token) ==> r == Err::<
                (),
                KoraError,
            >(KoraError::TokenNotWhitelisted)
            &&& s.admin() != Some(admin) || amount <= 0 || !s.is_whitelisted(token) ==> t
                =~= State { auth_checked: s.auth_checked.insert(admin), ..s }
            &&& s.admin() == Some(admin) && amount > 0 && s.is_whitelisted(token) ==> {
                &&& !room ==> r == Err::<(), KoraError>(
                    if counted + amount > i128::MAX {
                        KoraError::ArithmeticOverflow
                    } else {
                        KoraError::WithdrawalRateLimitExceeded
                    },
                )
                &&& room && s.is_locked() ==> r == Err::<(), KoraError>(KoraError::ReentrantCall)
                &&& !room || s.is_locked() ==> t =~= State {
                    instance: epoch,
                    auth_checked: s.auth_checked.insert(admin),
                    ..s
                }
            }
        }),
{
}

/// A withdrawal that passes its checks asks the token for the treasury's balance,
/// with the lock held, and if that covers the amount, for the transfer of exactly
/// that amount to the recipient, with the withdrawal booked and the lock still held.
/// It succeeds exactly if the balance covers the amount and the transfer is done.
pub proof fn law_withdraw(
    env: &mut Env,
    admin: Address,
    token: Address,
    recipient: Address,
    amount: i128,
    r: Result<(), KoraError>,
)
    requires
        valid(*old(env)),
        call_ensures(TreasuryContract::withdraw, (env, admin, token, recipient, amount), r),
    ensures
        ({
            let i = invocation(*old(env));
            let s = state(*old(env));
            let t = state(*final(env));
            let over = s.instance.contains_key(DataKey::EpochStart) && i.timestamp - s.epoch_start(0)
                >= 86_400;
            let counted: int = if over {
                0
            } else {
                s.epoch_withdrawn() as int
            };
            let epoch = if over {
                s.instance.insert(DataKey::EpochStart, Value::U64(i.timestamp)).insert(
                    DataKey::EpochWithdrawn,
                    Value::I128(0),
                )
            } else {
                s.instance
            };
            let room = s.cap() == 0 || counted + amount <= s.cap();
            let locked = epoch.insert(DataKey::WithdrawalLock, Value::Bool(true));
            let booked = if s.cap() == 0 {
                locked
            } else {
                locked.insert(DataKey::EpochWithdrawn, Value::I128((counted + amount) as i128))
            };
            let authorized = s.auth_checked.insert(admin);
            let balance_asked = s.token_calls.push(
                Query {
                    token,
                    request: TokenRequest::Balance { holder: i.contract },
                    instance: locked,
                    foreign: s.foreign.instance,
                },
            );
            let transfer_asked = balance_asked.push(
                Query {
                    token,
                    request: TokenRequest::Transfer { from: i.contract, to: recipient, amount },
                    instance: booked,
                    foreign: s.foreign.instance,
                },
            );
            let (persistent, live_until) = match s.collected(token) {
                None => (s.persistent, s.live_until),
                Some(c) => (
                    s.persistent.insert(
                        DataKey::Collected(token),
                        Value::I128(
                            if c - amount < i128::MIN {
                                i128::MIN
                            } else {
                                (c - amount) as i128
                            },
                        ),
                    ),
                    s.live_until.insert(
                        DataKey::Collected(token),
                        life_when_written(i, s, DataKey::Collected(token)),
                    ),
                ),
            };
            s.admin() == Some(admin) && amount > 0 && s.is_whitelisted(token) && room
                && !s.is_locked() ==> exists|asked: Env, paying: Env|
                {
                    let held = #[trigger] token_answer(asked, token, i.contract);
                    let paid = #[trigger] transfer_answer(
                        paying,
                        token,
                        i.contract,
                        recipient,
                        amount,
                    );
                    &&& invocation(asked) == i
                    &&& state(asked) =~= State { instance: locked, auth_checked: authorized, ..s }
                    &&& r is Ok <==> held is Some && held->0 >= amount && paid
                    &&& held is None ==> r == Err::<(), KoraError>(KoraError::TokenCallFailed)
                    &&& held is Some && held->0 < amount ==> r == Err::<(), KoraError>(
                        KoraError::InsufficientPoolBalance,
                    )
                    &&& held is None || held->0 < amount ==> t =~= State {
                        instance: epoch.insert(DataKey::WithdrawalLock, Value::Bool(false)),
                        auth_checked: authorized,
                        token_calls: balance_asked,
                        ..s
                    }
                    &&& held is Some && held->0 >= amount ==> {
                        &&& invocation(paying) == i
                        &&& state(paying) =~= State {
                            persistent,
                            live_until,
                            instance: booked,
                            auth_checked: authorized,
                            token_calls: balance_asked,
                            ..s
                        }
                        &&& !paid ==> r == Err::<(), KoraError>(KoraError::TokenCallFailed)
                        &&& t =~= State {
                            persistent,
                            live_until,
                            instance: booked.insert(DataKey::WithdrawalLock, Value::Bool(false)),
                            auth_checked: authorized,
                            token_calls: transfer_asked,
                            transfers: if paid {
                                s.transfers.push(
                                    Transfer { token, from: i.contract, to: recipient, amount },
                                )
                            } else {
                                s.transfers
                            },
                            published: if paid {
                                s.published.push(
                                    Event {
                                        topic: "fee_withdrawn"@,
                                        data: seq![Value::Address(token), Value::I128(amount)],
                                    },
                                )
                            } else {
                                s.published
                            },
                            ..s
                        }
                    }
                }
        }),
{
    let i = invocation(*old(env));
    let s = state(*old(env));
    let t = state(*final(env));
    let args = (admin, token, recipient, amount);
    let (asked, paying) = choose|asked: Env, paying: Env|
        withdraws(i, s, args, asked, paying, (t, r));
    let held = token_answer(asked, token, i.contract);
    let paid = transfer_answer(paying, token, i.contract, recipient, amount);
    assert(model::withdraw(i, s, admin, token, recipient, amount, held, paid) == (t, r));
}

/// An emergency withdrawal that its checks refuse says why, asks the token for
/// nothing, and leaves everything as it was.
pub proof fn law_emergency_withdraw_refused(
    env: &mut Env,
    admin: Address,
    token: Address,
    recipient: Address,
    r: Result<(), KoraError>,
)
    requires
        valid(*old(env)),
        call_ensures(TreasuryContract::emergency_withdraw, (env, admin, token, recipient), r),
    ensures
        ({
            let i = invocation(*old(env));
            let s = state(*old(env));
            let t = state(*final(env));
            &&& valid(*final(env))
            &&& invocation(*final(env)) == i
            &&& s.admin() is None ==> r == Err::<(), KoraError>(KoraError::NotInitialized)
            &&& s.admin() is Some && s.admin() != Some(admin) ==> r == Err::<(), KoraError>(
                KoraError::NotAdmin,
            )
            &&& s.admin() == Some(admin) && !s.is_whitelisted(token) ==> r == Err::<
                (),
                KoraError,
            >(KoraError::TokenNotWhitelisted)
            &&& s.admin() == Some(admin) && s.is_whitelisted(token) && s.is_locked() ==> r == Err::<
                (),
                KoraError,
            >(KoraError::ReentrantCall)
            &&& s.admin() != Some(admin) || !s.is_whitelisted(token) || s.is_locked() ==> t
                =~= State { auth_checked: s.auth_checked.insert(admin), ..s }
        }),
{
}

/// An emergency withdrawal that passes its checks asks the token for the treasury's
/// balance, with the lock held, and if anything is held and all of it is within the
/// cap, for the transfer of exactly all of it to the recipient. It succeeds exactly
/// if nothing is held, or all that is held is within the cap and its transfer is
/// done. The fees on record stay.
pub proof fn law_emergency_withdraw(
    env: &mut Env,
    admin: Address,
    token: Address,
    recipient: Address,
    r: Result<(), KoraError>,
)
    requires
        valid(*old(env)),
        call_ensures(TreasuryContract::emergency_withdraw, (env, admin, token, recipient), r),
    ensures
        ({
            let i = invocation(*old(env));
            let s = state(*old(env));
            let t = state(*final(env));
            let over = s.instance.contains_key(DataKey::EpochStart) && i.timestamp - s.epoch_start(0)
                >= 86_400;
            let counted: int = if over {
                0
            } else {
                s.epoch_withdrawn() as int
            };
            let epoch = if over {
                s.instance.insert(DataKey::EpochStart, Value::U64(i.timestamp)).insert(
                    DataKey::EpochWithdrawn,
                    Value::I128(0),
                )
            } else {
                s.instance
            };
            let authorized = s.auth_checked.insert(admin);
            let locked = s.instance.insert(DataKey::WithdrawalLock, Value::Bool(true));
            let balance_asked = s.token_calls.push(
                Query {
                    token,
                    request: TokenRequest::Balance { holder: i.contract },
                    instance: locked,
                    foreign: s.foreign.instance,
                },
            );
            s.admin() == Some(admin) && s.is_whitelisted(token) && !s.is_locked()
                ==> exists|asked: Env, paying: Env|
                #![trigger transfer_answer(
                    paying,
                    token,
                    i.contract,
                    recipient,
                    token_answer(asked, token, i.contract)->0,
                )]
                {
                    let held = token_answer(asked, token, i.contract);
                    let all = held->0;
                    let room = s.cap() == 0 || counted + all <= s.cap();
                    let booked = if s.cap() == 0 {
                        epoch.insert(DataKey::WithdrawalLock, Value::Bool(true))
                    } else {
                        epoch.insert(DataKey::WithdrawalLock, Value::Bool(true)).insert(
                            DataKey::EpochWithdrawn,
                            Value::I128((counted + all) as i128),
                        )
                    };
                    let paid = transfer_answer(
                        paying,
                        token,
                        i.contract,
                        recipient,
                        all,
                    );
                    &&& invocation(asked) == i
                    &&& state(asked) =~= State { instance: locked, auth_checked: authorized, ..s }
                    &&& r is Ok <==> held is Some && (all <= 0 || (room && paid))
                    &&& held is None ==> r == Err::<(), KoraError>(KoraError::TokenCallFailed)
                    &&& held is None || all <= 0 ==> t =~= State {
                        instance: s.instance.insert(DataKey::WithdrawalLock, Value::Bool(false)),
                        auth_checked: authorized,
                        token_calls: balance_asked,
                        ..s
                    }
                    &&& held is Some && all > 0 && !room ==> {
                        &&& r == Err::<(), KoraError>(
                            if counted + all > i128::MAX {
                                KoraError::ArithmeticOverflow
                            } else {
                                KoraError::WithdrawalRateLimitExceeded
                            },
                        )
                        &&& t =~= State {
                            instance: epoch.insert(DataKey::WithdrawalLock, Value::Bool(false)),
                            auth_checked: authorized,
                            token_calls: balance_asked,
                            ..s
                        }
                    }
                    &&& held is Some && all > 0 && room ==> {
                        &&& invocation(paying) == i
                        &&& state(paying) =~= State {
                            instance: booked,
                            auth_checked: authorized,
                            token_calls: balance_asked,
                            ..s
                        }
                        &&& !paid ==> r == Err::<(), KoraError>(KoraError::TokenCallFailed)
                        &&& t =~= State {
                            instance: booked.insert(DataKey::WithdrawalLock, Value::Bool(false)),
                            auth_checked: authorized,
                            token_calls: balance_asked.push(
                                Query {
                                    token,
                                    request: TokenRequest::Transfer {
                                        from: i.contract,
                                        to: recipient,
                                        amount: all,
                                    },
                                    instance: booked,
                                    foreign: s.foreign.instance,
                                },
                            ),
                            transfers: if paid {
                                s.transfers.push(
                                    Transfer {
                                        token,
                                        from: i.contract,
                                        to: recipient,
                                        amount: all,
                                    },
                                )
                            } else {
                                s.transfers
                            },
                            published: if paid {
                                s.published.push(
                                    Event {
                                        topic: "emergency_withdrawn"@,
                                        data: seq![
                                            Value::Address(admin),
                                            Value::Address(token),
                                            Value::I128(all),
                                        ],
                                    },
                                )
                            } else {
                                s.published
                            },
                            ..s
                        }
                    }
                }
        }),
{
    let i = invocation(*old(env));
    let s = state(*old(env));
    let t = state(*final(env));
    let args = (admin, token, recipient);
    let (asked, paying) = choose|asked: Env, paying: Env|
        drains(i, s, args, asked, paying, (t, r));
    let held = token_answer(asked, token, i.contract);
    let paid = transfer_answer(paying, token, i.contract, recipient, held->0);
    assert(model::emergency_withdraw(i, s, admin, token, recipient, held, paid) == (t, r));
    let locked = s.instance.insert(DataKey::WithdrawalLock, Value::Bool(true));
    assert(s.instance.insert(DataKey::EpochStart, Value::U64(i.timestamp)).insert(
        DataKey::EpochWithdrawn,
        Value::I128(0),
    ).insert(DataKey::WithdrawalLock, Value::Bool(true)) =~= locked.insert(
        DataKey::EpochStart,
        Value::U64(i.timestamp),
    ).insert(DataKey::EpochWithdrawn, Value::I128(0)));
}

/// On a host that is fit for it, every call that demands no authorization can be
/// made, and every other that the caller has authorized; those that go as far as the
/// token need a contract for a token, and those that replace the code, code that is
/// on the ledger.
pub proof fn law_admitted(
    env: &mut Env,
    admin: Address,
    token: Address,
    recipient: Address,
    amount: i128,
    fee_bps: u32,
    hash: BytesN<32>,
    delay: u64,
    balance: Option<i128>,
    paid: bool,
)
    requires
        valid(*old(env)),
    ensures
        ({
            let i = invocation(*old(env));
            let s = state(*old(env));
            let over = s.instance.contains_key(DataKey::EpochStart) && i.timestamp - s.epoch_start(0)
                >= 86_400;
            let room = s.cap() == 0 || amount <= s.cap() - if over {
                0
            } else {
                s.epoch_withdrawn() as int
            };
            &&& call_requires(TreasuryContract::initialize, (env, admin, fee_bps))
            &&& call_requires(TreasuryContract::collect_fee, (env, token, amount))
            &&& call_requires(TreasuryContract::enforce_rate_limit, (env, amount))
            &&& call_requires(TreasuryContract::book_withdrawal, (env, &token, amount, balance))
            &&& call_requires(TreasuryContract::finish_withdrawal, (env, &token, amount, paid))
            &&& call_requires(TreasuryContract::book_emergency, (env, balance))
            &&& call_requires(
                TreasuryContract::finish_emergency,
                (env, &admin, &token, amount, paid),
            )
            &&& call_requires(TreasuryContract::get_fee_bps, (&*old(env),))
            &&& call_requires(TreasuryContract::get_withdrawal_cap, (&*old(env),))
            &&& call_requires(TreasuryContract::get_admin, (&*old(env),))
            &&& call_requires(ReentrancyGuard::acquire, (env,))
            &&& call_requires(ReentrancyGuard::release, (env,))
            &&& names_contract(token) ==> call_requires(
                TreasuryContract::get_balance,
                (env, token),
            )
            &&& i.authorized.contains(admin) && !s.auth_checked.contains(admin) ==> {
                &&& call_requires(TreasuryContract::set_fee_bps, (env, admin, fee_bps))
                &&& call_requires(TreasuryContract::whitelist_token, (env, admin, token))
                &&& call_requires(TreasuryContract::begin_withdrawal, (env, &admin, &token, amount))
                &&& call_requires(TreasuryContract::begin_emergency, (env, &admin, &token))
                &&& call_requires(TreasuryContract::propose_withdrawal_cap, (env, admin, amount))
                &&& call_requires(TreasuryContract::execute_withdrawal_cap, (env, admin, delay))
                &&& call_requires(TreasuryContract::propose_upgrade, (env, admin, hash))
                &&& (s.admin() == Some(admin) && (s.upgrade_proposal() matches Some((proposed, at))
                    && i.timestamp - at >= delay && !i.uploaded.contains(proposed)))
                    || call_requires(TreasuryContract::execute_upgrade, (env, admin, delay))
                &&& (s.admin() == Some(admin) && amount > 0 && s.is_whitelisted(token) && room
                    && !s.is_locked() && !names_contract(token)) || call_requires(
                    TreasuryContract::withdraw,
                    (env, admin, token, recipient, amount),
                )
                &&& (s.admin() == Some(admin) && s.is_whitelisted(token) && !s.is_locked()
                    && !names_contract(token)) || call_requires(
                    TreasuryContract::emergency_withdraw,
                    (env, admin, token, recipient),
                )
            }
        }),
{
    assert(authorizes(*old(env), admin) <==> invocation(*old(env)).authorized.contains(admin)
        && !state(*old(env)).auth_checked.contains(admin));
}

} // verus!
