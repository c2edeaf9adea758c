//! What holds of the treasury as a whole: over every call, and over every
//! sequence of calls.

use crate::data_key::DataKey;
use crate::error::KoraError;
use crate::host::{last_ledger, Invocation, TokenRequest, Transfer, Value};
use crate::model::{self, Outcome};
use crate::state::{
    running, well_formed, State, DEFAULT_FEE_BPS, EPOCH_DURATION, MAX_FEE_BPS,
    PERSISTENT_LIFETIME_THRESHOLD,
};
use soroban_sdk::{Address, BytesN};
use vstd::prelude::*;

verus! {

/// A call that may change the treasury, with its arguments. Those that ask a token
/// carry what the token answers: the balance, if the call for it succeeds, and
/// whether the transfer succeeds.
pub enum Call {
    Initialize { admin: Address, fee_bps: u32 },
    SetFeeBps { admin: Address, fee_bps: u32 },
    WhitelistToken { admin: Address, token: Address },
    CollectFee { token: Address, amount: i128 },
    Withdraw {
        admin: Address,
        token: Address,
        recipient: Address,
        amount: i128,
        balance: Option<i128>,
        paid: bool,
    },
    EmergencyWithdraw {
        admin: Address,
        token: Address,
        recipient: Address,
        balance: Option<i128>,
        paid: bool,
    },
    ProposeWithdrawalCap { admin: Address, new_cap: i128 },
    ExecuteWithdrawalCap { admin: Address, timelock_delay: u64 },
    ProposeUpgrade { admin: Address, new_wasm_hash: BytesN<32> },
    ExecuteUpgrade { admin: Address, timelock_delay: u64 },
}

impl Call {
    /// What the call does and answers.
    pub open spec fn outcome(self, i: Invocation, s: State) -> Outcome {
        match self {
            Call::Initialize { admin, fee_bps } => model::initialize(i, s, admin, fee_bps),
            Call::SetFeeBps { admin, fee_bps } => model::set_fee_bps(i, s, admin, fee_bps),
            Call::WhitelistToken { admin, token } => model::whitelist_token(i, s, admin, token),
            Call::CollectFee { token, amount } => model::collect_fee(i, s, token, amount),
            Call::Withdraw { admin, token, recipient, amount, balance, paid } => model::withdraw(
                i,
                s,
                admin,
                token,
                recipient,
                amount,
                balance,
                paid,
            ),
            Call::EmergencyWithdraw { admin, token, recipient, balance, paid } =>
                model::emergency_withdraw(i, s, admin, token, recipient, balance, paid),
            Call::ProposeWithdrawalCap { admin, new_cap } => model::propose_withdrawal_cap(
                i,
                s,
                admin,
                new_cap,
            ),
            Call::ExecuteWithdrawalCap { admin, timelock_delay } => model::execute_withdrawal_cap(
                i,
                s,
                admin,
                timelock_delay,
            ),
            Call::ProposeUpgrade { admin, new_wasm_hash } => model::propose_upgrade(
                i,
                s,
                admin,
                new_wasm_hash,
            ),
            Call::ExecuteUpgrade { admin, timelock_delay } => model::execute_upgrade(
                i,
                s,
                admin,
                timelock_delay,
            ),
        }
    }

    /// Who calls, where the call is for the administrator alone.
    pub open spec fn caller(self) -> Option<Address> {
        match self {
            Call::Initialize { .. } => None,
            Call::SetFeeBps { admin, .. } => Some(admin),
            Call::WhitelistToken { admin, .. } => Some(admin),
            Call::CollectFee { .. } => None,
            Call::Withdraw { admin, .. } => Some(admin),
            Call::EmergencyWithdraw { admin, .. } => Some(admin),
            Call::ProposeWithdrawalCap { admin, .. } => Some(admin),
            Call::ExecuteWithdrawalCap { admin, .. } => Some(admin),
            Call::ProposeUpgrade { admin, .. } => Some(admin),
            Call::ExecuteUpgrade { admin, .. } => Some(admin),
        }
    }
}

/// What the ledger has after a call: nothing is kept of a call that was refused,
/// and the next invocation has demanded no authorization yet.
pub open spec fn committed(i: Invocation, s: State, call: Call) -> State {
    let after = call.outcome(i, s);
    State {
        auth_checked: Set::empty(),
        ..if after.1 is Ok {
            after.0
        } else {
            s
        }
    }
}

/// What the ledger has after a sequence of calls.
pub open spec fn after_all(s: State, calls: Seq<(Invocation, Call)>) -> State
    decreases calls.len(),
{
    if calls.len() == 0 {
        s
    } else {
        committed(calls.last().0, after_all(s, calls.drop_last()), calls.last().1)
    }
}

/// The storage of a treasury that nothing was ever asked of.
pub open spec fn fresh(s: State) -> bool {
    &&& s.persistent == Map::<DataKey, Value>::empty()
    &&& s.instance == Map::<DataKey, Value>::empty()
    &&& s.transfers == Seq::<Transfer>::empty()
}

/// What holds of the treasury `own` whenever no call is running.
pub open spec fn sound(own: Address, s: State) -> bool {
    &&& s.fee_bps() <= MAX_FEE_BPS
    &&& s.admin() != Some(own)
    &&& s.cap() >= 0
    &&& s.epoch_withdrawn() >= 0
    &&& s.cap_proposal() matches Some((new_cap, _)) ==> new_cap >= 0
    &&& !s.is_locked()
    &&& s.admin() is None ==> !s.persistent.contains_key(DataKey::FeeBps)
    &&& s.admin() is Some ==> s.instance.contains_key(DataKey::EpochStart)
    &&& forall|k: int|
        0 <= k < s.transfers.len() ==> {
            let t = #[trigger] s.transfers[k];
            t.from == own && t.amount > 0 && s.is_whitelisted(t.token)
        }
}

/// What a withdrawal of either kind leaves as it was.
proof fn lemma_withdrawal_leaves(i: Invocation, s: State, call: Call)
    requires
        call is Withdraw || call is EmergencyWithdraw,
    ensures
        ({
            let after = call.outcome(i, s).0;
            &&& after.admin() == s.admin()
            &&& after.fee_bps() == s.fee_bps()
            &&& after.persistent.contains_key(DataKey::FeeBps) == s.persistent.contains_key(
                DataKey::FeeBps,
            )
            &&& forall|token: Address| #[trigger]
                after.is_whitelisted(token) == s.is_whitelisted(token)
            &&& after.cap() == s.cap()
            &&& after.cap_proposal() == s.cap_proposal()
            &&& after.upgrade_proposal() == s.upgrade_proposal()
            &&& after.replacement == s.replacement
            &&& after.foreign == s.foreign
            &&& after.instance.contains_key(DataKey::EpochStart) || !s.instance.contains_key(
                DataKey::EpochStart,
            )
            &&& !s.is_locked() ==> !after.is_locked()
        }),
{
}

/// Before the first call there is no administrator, no cap, no proposal and no
/// lock, and the fee rate is the default of 50 basis points; that is sound.
pub proof fn law_fresh(own: Address, s: State)
    requires
        fresh(s),
    ensures
        sound(own, s),
        s.admin() is None,
        s.fee_bps() == DEFAULT_FEE_BPS == 50,
        s.cap() == 0,
        s.cap_proposal() is None,
        s.upgrade_proposal() is None,
        forall|token: Address| !s.is_whitelisted(token),
        forall|token: Address| #[trigger] s.collected(token) is None,
{
}

/// Every call, whether it succeeds or is refused, leaves the treasury sound: the
/// fee rate stays within the whole, caps and running totals are never negative,
/// the treasury is never its own administrator, the lock is not left behind, and
/// all that was ever paid out was a positive amount of a whitelisted token.
#[verifier::rlimit(30)]
pub proof fn law_sound(i: Invocation, s: State, call: Call)
    requires
        sound(i.contract, s),
    ensures
        sound(i.contract, call.outcome(i, s).0),
        sound(i.contract, committed(i, s, call)),
{
    let after = call.outcome(i, s).0;
    match call {
        Call::Initialize { .. } => {
            assert(sound(i.contract, after));
        },
        Call::SetFeeBps { .. } => {
            assert(sound(i.contract, after));
        },
        Call::WhitelistToken { .. } => {
            assert(sound(i.contract, after));
        },
        Call::CollectFee { .. } => {
            assert(sound(i.contract, after));
        },
        Call::Withdraw { .. } => {
            lemma_withdrawal_leaves(i, s, call);
            assert(sound(i.contract, after));
        },
        Call::EmergencyWithdraw { .. } => {
            lemma_withdrawal_leaves(i, s, call);
            assert(sound(i.contract, after));
        },
        Call::ProposeWithdrawalCap { .. } => {
            assert(sound(i.contract, after));
        },
        Call::ExecuteWithdrawalCap { .. } => {
            assert(sound(i.contract, after));
        },
        Call::ProposeUpgrade { .. } => {
            assert(sound(i.contract, after));
        },
        Call::ExecuteUpgrade { .. } => {
            assert(sound(i.contract, after));
        },
    }
}

/// A treasury that started out sound is sound after any sequence of calls to it.
pub proof fn law_always_sound(own: Address, s: State, calls: Seq<(Invocation, Call)>)
    requires
        sound(own, s),
        forall|k: int| 0 <= k < calls.len() ==> (#[trigger] calls[k]).0.contract == own,
    ensures
        sound(own, after_all(s, calls)),
    decreases calls.len(),
{
    if calls.len() > 0 {
        law_always_sound(own, s, calls.drop_last());
        law_sound(calls.last().0, after_all(s, calls.drop_last()), calls.last().1);
    }
}

/// Initialization happens once: there is an administrator after the first that
/// succeeds, every later one is refused and changes nothing, and no call ever
/// changes the administrator.
pub proof fn law_initialized_once(i: Invocation, s: State, call: Call)
    ensures
        s.admin() is Some ==> {
            &&& call.outcome(i, s).0.admin() == s.admin()
            &&& call is Initialize ==> call.outcome(i, s) == (
                s,
                Err::<(), KoraError>(KoraError::AlreadyInitialized),
            )
        },
        s.admin() is None ==> {
            &&& call matches Call::Initialize { admin, .. } ==> (call.outcome(i, s).1 is Ok
                ==> call.outcome(i, s).0.admin() == Some(admin))
            &&& !(call is Initialize && call.outcome(i, s).1 is Ok) ==> call.outcome(
                i,
                s,
            ).0.admin() is None
        },
{
    if call is Withdraw || call is EmergencyWithdraw {
        lemma_withdrawal_leaves(i, s, call);
    }
}

/// The administrator that a treasury has stays, whatever is called.
pub proof fn law_admin_stays(s: State, calls: Seq<(Invocation, Call)>)
    requires
        s.admin() is Some,
    ensures
        after_all(s, calls).admin() == s.admin(),
    decreases calls.len(),
{
    if calls.len() > 0 {
        law_admin_stays(s, calls.drop_last());
        law_initialized_once(calls.last().0, after_all(s, calls.drop_last()), calls.last().1);
    }
}

/// What is for the administrator alone is refused to everyone else, and nothing
/// comes of it but that the caller's authorization was demanded.
pub proof fn law_administrator_only(i: Invocation, s: State, call: Call)
    requires
        call.caller() is Some,
        call.caller() != s.admin(),
    ensures
        call.outcome(i, s) == (
            s.check_auth(call.caller()->0),
            Err::<(), KoraError>(
                if s.admin() is None {
                    KoraError::NotInitialized
                } else {
                    KoraError::NotAdmin
                },
            ),
        ),
{
}

/// What is for the administrator alone succeeds only once the administrator's
/// authorization was demanded.
pub proof fn law_authorization_demanded(i: Invocation, s: State, call: Call)
    requires
        call.caller() is Some,
        call.outcome(i, s).1 is Ok,
    ensures
        s.admin() == call.caller(),
        call.outcome(i, s).0.auth_checked == s.auth_checked.insert(call.caller()->0),
{
    if s.admin() != call.caller() {
        law_administrator_only(i, s, call);
    }
}

/// A fee rate that was set is the rate from then on; a call that does not set it
/// leaves it, and so does one that is refused.
pub proof fn law_fee_rate(i: Invocation, s: State, call: Call)
    ensures
        call.outcome(i, s).1 is Ok ==> match call {
            Call::Initialize { fee_bps, .. } => call.outcome(i, s).0.fee_bps() == fee_bps,
            Call::SetFeeBps { fee_bps, .. } => call.outcome(i, s).0.fee_bps() == fee_bps,
            _ => call.outcome(i, s).0.fee_bps() == s.fee_bps(),
        },
        call.outcome(i, s).1 is Err ==> call.outcome(i, s).0.fee_bps() == s.fee_bps(),
{
    if call is Withdraw || call is EmergencyWithdraw {
        lemma_withdrawal_leaves(i, s, call);
    }
}

/// A fee rate is accepted exactly if it does not exceed the whole: from the
/// administrator at any time, and at the initialization by anyone but the treasury
/// itself.
pub proof fn law_fee_rate_bounds(i: Invocation, s: State, admin: Address, fee_bps: u32)
    ensures
        s.admin() == Some(admin) ==> (model::set_fee_bps(i, s, admin, fee_bps).1 is Ok <==> fee_bps
            <= 10_000),
        s.admin() is None && admin != i.contract ==> (model::initialize(i, s, admin, fee_bps).1
            is Ok <==> fee_bps <= 10_000),
        s.admin() is None ==> model::initialize(i, s, i.contract, fee_bps).1 is Err,
{
}

/// A withdrawal that is booked, and whose transfer the token then fails to carry
/// out.
pub open spec fn left_unpaid(i: Invocation, s: State, call: Call) -> bool {
    match call {
        Call::Withdraw { balance: Some(_), paid: false, .. } => call.outcome(i, s).1 == Err::<
            (),
            KoraError,
        >(KoraError::TokenCallFailed),
        Call::EmergencyWithdraw { balance: Some(_), paid: false, .. } => call.outcome(i, s).1
            == Err::<(), KoraError>(KoraError::TokenCallFailed),
        _ => false,
    }
}

/// The keys of the entries that the rate limit and the lock keep.
pub open spec fn is_bookkeeping(k: DataKey) -> bool {
    k is EpochStart || k is EpochWithdrawn || k is WithdrawalLock
}

/// A call that is refused publishes nothing, moves no token, replaces no code and
/// leaves the cap and the proposals as they were. Unless a token fails to carry out
/// a withdrawal after it was booked, it leaves all of persistent storage as it was,
/// and charges nothing to the epoch: the total is what it was, or zero if a new
/// epoch was due. The ledger keeps nothing of it in any case.
pub proof fn law_refused(i: Invocation, s: State, call: Call)
    requires
        call.outcome(i, s).1 is Err,
    ensures
        ({
            let after = call.outcome(i, s).0;
            &&& after.published == s.published
            &&& after.transfers == s.transfers
            &&& after.replacement == s.replacement
            &&& forall|k: DataKey|
                #![trigger after.instance.contains_key(k)]
                !is_bookkeeping(k) ==> {
                    &&& after.instance.contains_key(k) == s.instance.contains_key(k)
                    &&& after.instance[k] == s.instance[k]
                }
            &&& after.cap() == s.cap()
            &&& after.cap_proposal() == s.cap_proposal()
            &&& after.upgrade_proposal() == s.upgrade_proposal()
            &&& !left_unpaid(i, s, call) ==> {
                &&& after.persistent == s.persistent
                &&& after.live_until == s.live_until
                &&& after.epoch_withdrawn() == s.epoch_withdrawn() || (i.timestamp
                    - s.epoch_start(i.timestamp) >= 86_400 && after.epoch_withdrawn() == 0)
            }
        }),
        committed(i, s, call) == (State { auth_checked: Set::empty(), ..s }),
{
    if call is Withdraw || call is EmergencyWithdraw {
        lemma_withdrawal_leaves(i, s, call);
    }
}

/// An emergency withdrawal, whatever comes of it, leaves all of persistent storage
/// as it was, the fees on record for the drained token with it, and of instance
/// storage all but the epoch, its total and the lock.
pub proof fn law_drain_leaves(i: Invocation, s: State, call: Call)
    requires
        call is EmergencyWithdraw,
    ensures
        ({
            let after = call.outcome(i, s).0;
            &&& after.persistent == s.persistent
            &&& after.live_until == s.live_until
            &&& forall|k: DataKey|
                #![trigger after.instance.contains_key(k)]
                !is_bookkeeping(k) ==> {
                    &&& after.instance.contains_key(k) == s.instance.contains_key(k)
                    &&& after.instance[k] == s.instance[k]
                }
        }),
{
}

/// No call touches a storage entry whose key is not one of the treasury's.
pub proof fn law_foreign_entries(i: Invocation, s: State, call: Call)
    ensures
        call.outcome(i, s).0.foreign == s.foreign,
{
    if call is Withdraw || call is EmergencyWithdraw {
        lemma_withdrawal_leaves(i, s, call);
    }
}

/// Tokens are called by withdrawals alone, once these have passed their checks, and
/// with the lock held: each is of a whitelisted token, on behalf of the
/// administrator. A withdrawal that is refused by its checks, or by the lock, calls
/// no token.
pub proof fn law_token_calls(i: Invocation, s: State, call: Call)
    ensures
        ({
            let after = call.outcome(i, s).0;
            let checked = match call {
                Call::Withdraw { admin, token, amount, .. } => model::begin_withdrawal(
                    i,
                    s,
                    admin,
                    token,
                    amount,
                ).1 is Ok,
                Call::EmergencyWithdraw { admin, token, .. } => model::begin_emergency(
                    s,
                    admin,
                    token,
                ).1 is Ok,
                _ => false,
            };
            &&& !checked ==> after.token_calls == s.token_calls
            &&& s.is_locked() ==> !checked
            &&& s.token_calls.is_prefix_of(after.token_calls)
            &&& forall|n: int|
                s.token_calls.len() <= n < after.token_calls.len() ==> {
                    let asked = #[trigger] after.token_calls[n];
                    &&& asked.is_locked()
                    &&& s.is_whitelisted(asked.token)
                    &&& s.admin() is Some && s.admin() == call.caller()
                }
        }),
{
    let after = call.outcome(i, s).0;
    match call {
        Call::Withdraw { admin, token, amount, .. } => {
            let begun = model::begin_withdrawal(i, s, admin, token, amount);
            assert(begun.1 is Ok ==> begun.0.is_locked());
        },
        Call::EmergencyWithdraw { admin, token, .. } => {
            let begun = model::begin_emergency(s, admin, token);
            assert(begun.1 is Ok ==> begun.0.is_locked());
        },
        _ => {},
    }
}

/// The requests that a withdrawal makes of the token, and no others: first for the
/// treasury's own balance, then for the transfer, if the withdrawal was booked.
pub proof fn law_token_requests(
    i: Invocation,
    s: State,
    admin: Address,
    token: Address,
    recipient: Address,
    amount: i128,
    balance: Option<i128>,
    paid: bool,
)
    ensures
        model::begin_withdrawal(i, s, admin, token, amount).1 is Ok ==> {
            let made = model::withdraw(
                i,
                s,
                admin,
                token,
                recipient,
                amount,
                balance,
                paid,
            ).0.token_calls;
            let first = s.token_calls.len() as int;
            &&& made[first].token == token
            &&& made[first].request == TokenRequest::Balance { holder: i.contract }
            &&& if balance is Some && balance->0 >= amount {
                &&& made.len() == first + 2
                &&& made[first + 1].token == token
                &&& made[first + 1].request == TokenRequest::Transfer {
                    from: i.contract,
                    to: recipient,
                    amount,
                }
            } else {
                made.len() == first + 1
            }
        },
        model::begin_emergency(s, admin, token).1 is Ok ==> {
            let made = model::emergency_withdraw(
                i,
                s,
                admin,
                token,
                recipient,
                balance,
                paid,
            ).0.token_calls;
            let first = s.token_calls.len() as int;
            &&& made[first].token == token
            &&& made[first].request == TokenRequest::Balance { holder: i.contract }
            &&& if balance is Some && balance->0 > 0 && (s.cap() == 0 || balance->0 <= s.cap() - if
                i.timestamp - s.epoch_start(i.timestamp) >= 86_400 {
                0
            } else {
                s.epoch_withdrawn() as int
            }) {
                &&& made.len() == first + 2
                &&& made[first + 1].token == token
                &&& made[first + 1].request == TokenRequest::Transfer {
                    from: i.contract,
                    to: recipient,
                    amount: balance->0,
                }
            } else {
                made.len() == first + 1
            }
        },
{
}

/// Each call that succeeds publishes one event, except that an emergency
/// withdrawal publishes none if there is nothing to withdraw. Events and transfers
/// that were made are never taken back.
#[verifier::rlimit(30)]
pub proof fn law_events(i: Invocation, s: State, call: Call)
    requires
        call.outcome(i, s).1 is Ok,
    ensures
        call matches Call::EmergencyWithdraw { balance: Some(held), .. } ==> (held <= 0
            ==> call.outcome(i, s).0.published == s.published),
        !(call matches Call::EmergencyWithdraw { balance: Some(held), .. } && held <= 0) ==> {
            let after = call.outcome(i, s).0.published;
            after.len() == s.published.len() + 1 && after.drop_last() == s.published
        },
        s.transfers.is_prefix_of(call.outcome(i, s).0.transfers),
{
    let after = call.outcome(i, s).0;
    if after.published.len() == s.published.len() + 1 {
        assert(after.published.drop_last() == s.published);
    }
}

/// An ordinary withdrawal succeeds exactly if the administrator asks for a
/// positive amount of a whitelisted token, within the cap and within the balance
/// that the token reports, while no other withdrawal is under way, and the token
/// carries the transfer out.
pub proof fn law_withdrawal_granted(
    i: Invocation,
    s: State,
    admin: Address,
    token: Address,
    recipient: Address,
    amount: i128,
    balance: Option<i128>,
    paid: bool,
)
    ensures
        model::withdraw(i, s, admin, token, recipient, amount, balance, paid).1 is Ok <==> {
            &&& s.admin() == Some(admin)
            &&& amount > 0
            &&& s.is_whitelisted(token)
            &&& s.cap() == 0 || amount <= s.cap() - if i.timestamp - s.epoch_start(i.timestamp)
                >= 86_400 {
                0
            } else {
                s.epoch_withdrawn() as int
            }
            &&& !s.is_locked()
            &&& balance is Some && balance->0 >= amount
            &&& paid
        },
{
}

/// An emergency withdrawal succeeds exactly if the administrator asks for a
/// whitelisted token, while no other withdrawal is under way, and either the token
/// reports that nothing is held, or all that is held is within the cap and the
/// token carries the transfer out.
pub proof fn law_emergency_granted(
    i: Invocation,
    s: State,
    admin: Address,
    token: Address,
    recipient: Address,
    balance: Option<i128>,
    paid: bool,
)
    ensures
        model::emergency_withdraw(i, s, admin, token, recipient, balance, paid).1 is Ok <==> {
            &&& s.admin() == Some(admin)
            &&& s.is_whitelisted(token)
            &&& !s.is_locked()
            &&& balance is Some
            &&& balance->0 <= 0 || {
                &&& s.cap() == 0 || balance->0 <= s.cap() - if i.timestamp - s.epoch_start(
                    i.timestamp,
                ) >= 86_400 {
                    0
                } else {
                    s.epoch_withdrawn() as int
                }
                &&& paid
            }
        },
{
}

/// Tokens leave the treasury by withdrawals that succeed, and in no other way. An
/// ordinary one transfers to the recipient exactly the amount asked for, no more
/// than the treasury holds; an emergency one, all that the treasury holds.
pub proof fn law_transfers(i: Invocation, s: State, call: Call)
    ensures
        ({
            let (after, answer) = call.outcome(i, s);
            match (call, answer) {
                (Call::Withdraw { token, recipient, amount, balance, .. }, Ok(_)) => {
                    &&& after.transfers == s.transfers.push(
                        Transfer { token, from: i.contract, to: recipient, amount },
                    )
                    &&& 0 < amount <= balance->0
                    &&& s.is_whitelisted(token)
                },
                (Call::EmergencyWithdraw { token, recipient, balance: Some(held), .. }, Ok(_)) =>
                    if held > 0 {
                        &&& after.transfers == s.transfers.push(
                            Transfer { token, from: i.contract, to: recipient, amount: held },
                        )
                        &&& s.is_whitelisted(token)
                    } else {
                        after.transfers == s.transfers
                    },
                _ => after.transfers == s.transfers,
            }
        }),
{
}

/// A token is whitelisted by the administrator's call for it alone, and for good.
pub proof fn law_whitelist(i: Invocation, s: State, call: Call, token: Address)
    ensures
        ({
            let (after, answer) = call.outcome(i, s);
            after.is_whitelisted(token) <==> {
                ||| s.is_whitelisted(token)
                ||| call matches Call::WhitelistToken { token: t, .. } && t == token && answer is Ok
            }
        }),
{
    if call is Withdraw || call is EmergencyWithdraw {
        lemma_withdrawal_leaves(i, s, call);
    }
}

/// A fee is recorded exactly if it is positive, its token is whitelisted and the
/// total fits; nobody's authorization is demanded for it.
pub proof fn law_fee_recorded(i: Invocation, s: State, token: Address, amount: i128)
    ensures
        model::collect_fee(i, s, token, amount).1 is Ok <==> {
            &&& amount > 0
            &&& s.is_whitelisted(token)
            &&& s.collected(token).unwrap_or(0) + amount <= i128::MAX
        },
        model::collect_fee(i, s, token, amount).0.auth_checked == s.auth_checked,
{
}

/// The fees on record for a token grow by what is collected and shrink by what is
/// withdrawn, to the nearest number that fits; no other call that succeeds, and no
/// call about another token, changes them.
pub proof fn law_fees_on_record(i: Invocation, s: State, call: Call, token: Address)
    requires
        call.outcome(i, s).1 is Ok,
    ensures
        ({
            let after = call.outcome(i, s).0.collected(token);
            match call {
                Call::CollectFee { token: t, amount } => if t == token {
                    after is Some && after->0 == s.collected(token).unwrap_or(0) + amount
                } else {
                    after == s.collected(token)
                },
                Call::Withdraw { token: t, amount, .. } => if t == token && s.collected(token)
                    is Some {
                    after is Some && after->0 == if s.collected(token)->0 - amount < i128::MIN {
                        i128::MIN as int
                    } else {
                        s.collected(token)->0 - amount
                    }
                } else {
                    after == s.collected(token)
                },
                _ => after == s.collected(token),
            }
        }),
{
}

/// To collect a fee and to withdraw the same amount leaves on record what was
/// there, or zero if nothing was.
pub proof fn law_collect_then_withdraw(
    i: Invocation,
    s: State,
    token: Address,
    amount: i128,
    j: Invocation,
    admin: Address,
    recipient: Address,
    balance: Option<i128>,
)
    requires
        model::collect_fee(i, s, token, amount).1 is Ok,
        model::withdraw(
            j,
            model::collect_fee(i, s, token, amount).0,
            admin,
            token,
            recipient,
            amount,
            balance,
            true,
        ).1 is Ok,
    ensures
        model::withdraw(
            j,
            model::collect_fee(i, s, token, amount).0,
            admin,
            token,
            recipient,
            amount,
            balance,
            true,
        ).0.collected(token) == Some(s.collected(token).unwrap_or(0)),
{
    let collect = Call::CollectFee { token, amount };
    let withdraw = Call::Withdraw { admin, token, recipient, amount, balance, paid: true };
    law_fees_on_record(i, s, collect, token);
    law_fees_on_record(j, collect.outcome(i, s).0, withdraw, token);
}

/// The cap changes only when the administrator executes a proposal that has waited
/// for the timelock, and then to the proposed cap; an initialization sets it to
/// none.
pub proof fn law_cap_changes(i: Invocation, s: State, call: Call)
    ensures
        ({
            let (after, answer) = call.outcome(i, s);
            match (call, answer) {
                (Call::Initialize { .. }, Ok(_)) => after.cap() == 0,
                (Call::ExecuteWithdrawalCap { timelock_delay, .. }, Ok(_)) => {
                    &&& s.cap_proposal() matches Some((new_cap, proposed_at))
                    &&& i.timestamp >= proposed_at + timelock_delay
                    &&& after.cap() == new_cap
                    &&& after.cap_proposal() is None
                },
                _ => after.cap() == s.cap(),
            }
        }),
{
    if call is Withdraw || call is EmergencyWithdraw {
        lemma_withdrawal_leaves(i, s, call);
    }
}

/// A cap proposal stands until it is executed or another takes its place.
pub proof fn law_cap_proposal_stands(i: Invocation, s: State, call: Call)
    requires
        !(call is ProposeWithdrawalCap),
        !(call is ExecuteWithdrawalCap),
    ensures
        call.outcome(i, s).0.cap_proposal() == s.cap_proposal(),
{
    if call is Withdraw || call is EmergencyWithdraw {
        lemma_withdrawal_leaves(i, s, call);
    }
}

/// A cap that the administrator proposed can be put in force from the moment at
/// which the timelock has elapsed, whatever else was called in between, and once
/// only.
pub proof fn law_cap_timelock(
    i: Invocation,
    s: State,
    admin: Address,
    new_cap: i128,
    between: Seq<(Invocation, Call)>,
    j: Invocation,
    timelock_delay: u64,
)
    requires
        s.admin() == Some(admin),
        new_cap >= 0,
        forall|k: int|
            0 <= k < between.len() ==> !((#[trigger] between[k]).1 is ProposeWithdrawalCap) && !(
            between[k].1 is ExecuteWithdrawalCap),
    ensures
        ({
            let proposed = committed(i, s, Call::ProposeWithdrawalCap { admin, new_cap });
            let waited = after_all(proposed, between);
            let (after, answer) = model::execute_withdrawal_cap(j, waited, admin, timelock_delay);
            &&& model::propose_withdrawal_cap(i, s, admin, new_cap).1 is Ok
            &&& waited.cap_proposal() == Some((new_cap, i.timestamp))
            &&& if j.timestamp >= i.timestamp + timelock_delay {
                &&& answer is Ok
                &&& after.cap() == new_cap
                &&& model::execute_withdrawal_cap(j, after, admin, timelock_delay).1 == Err::<
                    (),
                    KoraError,
                >(KoraError::NoCapChangeProposed)
            } else {
                &&& answer == Err::<(), KoraError>(KoraError::WithdrawalCapTimelockNotElapsed)
                &&& after.cap() == waited.cap()
                &&& after.cap_proposal() == waited.cap_proposal()
            }
        }),
{
    let proposed = committed(i, s, Call::ProposeWithdrawalCap { admin, new_cap });
    lemma_cap_proposal_waits(proposed, between);
    law_admin_stays(proposed, between);
}

/// A cap proposal outlasts any calls but those on proposals.
proof fn lemma_cap_proposal_waits(s: State, calls: Seq<(Invocation, Call)>)
    requires
        forall|k: int|
            0 <= k < calls.len() ==> !((#[trigger] calls[k]).1 is ProposeWithdrawalCap) && !(
            calls[k].1 is ExecuteWithdrawalCap),
    ensures
        after_all(s, calls).cap_proposal() == s.cap_proposal(),
    decreases calls.len(),
{
    if calls.len() > 0 {
        lemma_cap_proposal_waits(s, calls.drop_last());
        law_cap_proposal_stands(calls.last().0, after_all(s, calls.drop_last()), calls.last().1);
    }
}

/// The code is replaced only when the administrator executes an upgrade that was
/// proposed and has waited for the timelock, and then by the proposed code.
pub proof fn law_code_replaced(i: Invocation, s: State, call: Call)
    ensures
        ({
            let (after, answer) = call.outcome(i, s);
            match (call, answer) {
                (Call::ExecuteUpgrade { timelock_delay, .. }, Ok(_)) => {
                    &&& s.upgrade_proposal() matches Some((wasm_hash, proposed_at))
                    &&& i.timestamp >= proposed_at + timelock_delay
                    &&& after.replacement == Some(wasm_hash)
                    &&& after.upgrade_proposal() is None
                },
                _ => after.replacement == s.replacement,
            }
        }),
{
    if call is Withdraw || call is EmergencyWithdraw {
        lemma_withdrawal_leaves(i, s, call);
    }
}

/// An upgrade proposal stands until it is executed or another takes its place.
pub proof fn law_upgrade_proposal_stands(i: Invocation, s: State, call: Call)
    requires
        !(call is ProposeUpgrade),
        !(call is ExecuteUpgrade),
    ensures
        call.outcome(i, s).0.upgrade_proposal() == s.upgrade_proposal(),
{
    if call is Withdraw || call is EmergencyWithdraw {
        lemma_withdrawal_leaves(i, s, call);
    }
}

/// An upgrade that the administrator proposed can be executed from the moment at
/// which the timelock has elapsed, whatever else was called in between, and once
/// only.
pub proof fn law_upgrade_timelock(
    i: Invocation,
    s: State,
    admin: Address,
    new_wasm_hash: BytesN<32>,
    between: Seq<(Invocation, Call)>,
    j: Invocation,
    timelock_delay: u64,
)
    requires
        s.admin() == Some(admin),
        forall|k: int|
            0 <= k < between.len() ==> !((#[trigger] between[k]).1 is ProposeUpgrade) && !(
            between[k].1 is ExecuteUpgrade),
    ensures
        ({
            let proposed = committed(i, s, Call::ProposeUpgrade { admin, new_wasm_hash });
            let waited = after_all(proposed, between);
            let (after, answer) = model::execute_upgrade(j, waited, admin, timelock_delay);
            &&& model::propose_upgrade(i, s, admin, new_wasm_hash).1 is Ok
            &&& waited.upgrade_proposal() == Some((new_wasm_hash, i.timestamp))
            &&& if j.timestamp >= i.timestamp + timelock_delay {
                &&& answer is Ok
                &&& after.replacement == Some(new_wasm_hash)
                &&& model::execute_upgrade(j, after, admin, timelock_delay).1 == Err::<
                    (),
                    KoraError,
                >(KoraError::NoUpgradeProposed)
            } else {
                &&& answer == Err::<(), KoraError>(KoraError::UpgradeTimelockNotElapsed)
                &&& after.replacement == waited.replacement
                &&& after.upgrade_proposal() == waited.upgrade_proposal()
            }
        }),
{
    let proposed = committed(i, s, Call::ProposeUpgrade { admin, new_wasm_hash });
    lemma_upgrade_proposal_waits(proposed, between);
    law_admin_stays(proposed, between);
}

/// An upgrade proposal outlasts any calls but those on upgrades.
proof fn lemma_upgrade_proposal_waits(s: State, calls: Seq<(Invocation, Call)>)
    requires
        forall|k: int|
            0 <= k < calls.len() ==> !((#[trigger] calls[k]).1 is ProposeUpgrade) && !(
            calls[k].1 is ExecuteUpgrade),
    ensures
        after_all(s, calls).upgrade_proposal() == s.upgrade_proposal(),
    decreases calls.len(),
{
    if calls.len() > 0 {
        lemma_upgrade_proposal_waits(s, calls.drop_last());
        law_upgrade_proposal_stands(
            calls.last().0,
            after_all(s, calls.drop_last()),
            calls.last().1,
        );
    }
}

/// A withdrawal holds the lock from its checks until it ends, in particular while
/// the token is asked for its balance and for the transfer; a withdrawal of either
/// kind that is tried meanwhile is refused, moves no token and calls none.
pub proof fn law_no_reentrance(
    i: Invocation,
    s: State,
    admin: Address,
    token: Address,
    amount: i128,
    balance: Option<i128>,
    inner: Call,
)
    requires
        inner is Withdraw || inner is EmergencyWithdraw,
    ensures
        ({
            let (begun, answer) = model::begin_withdrawal(i, s, admin, token, amount);
            let (booked, next) = model::book_withdrawal(i, begun, token, amount, balance);
            answer is Ok ==> {
                &&& begun.is_locked()
                &&& inner.outcome(i, begun).1 is Err
                &&& inner.outcome(i, begun).0.transfers == begun.transfers
                &&& inner.outcome(i, begun).0.token_calls == begun.token_calls
                &&& next is Ok ==> {
                    &&& booked.is_locked()
                    &&& inner.outcome(i, booked).1 is Err
                    &&& inner.outcome(i, booked).0.transfers == booked.transfers
                    &&& inner.outcome(i, booked).0.token_calls == booked.token_calls
                }
            }
        }),
        ({
            let (begun, answer) = model::begin_emergency(s, admin, token);
            let (booked, next) = model::book_emergency(i, begun, balance);
            answer is Ok ==> {
                &&& begun.is_locked()
                &&& inner.outcome(i, begun).1 is Err
                &&& inner.outcome(i, begun).0.transfers == begun.transfers
                &&& inner.outcome(i, begun).0.token_calls == begun.token_calls
                &&& next is Ok ==> {
                    &&& booked.is_locked()
                    &&& inner.outcome(i, booked).1 is Err
                    &&& inner.outcome(i, booked).0.transfers == booked.transfers
                    &&& inner.outcome(i, booked).0.token_calls == booked.token_calls
                }
            }
        }),
{
    let (begun, answer) = model::begin_withdrawal(i, s, admin, token, amount);
    if answer is Ok {
        lemma_locked_refuses(i, begun, inner);
        let (booked, next) = model::book_withdrawal(i, begun, token, amount, balance);
        if next is Ok {
            lemma_locked_refuses(i, booked, inner);
        }
    }
    let (begun, answer) = model::begin_emergency(s, admin, token);
    if answer is Ok {
        lemma_locked_refuses(i, begun, inner);
        let (booked, next) = model::book_emergency(i, begun, balance);
        if next is Ok {
            lemma_locked_refuses(i, booked, inner);
        }
    }
}

/// No withdrawal starts while the lock is held.
proof fn lemma_locked_refuses(i: Invocation, s: State, call: Call)
    requires
        s.is_locked(),
        call is Withdraw || call is EmergencyWithdraw,
    ensures
        call.outcome(i, s).1 is Err,
        call.outcome(i, s).0.transfers == s.transfers,
        call.outcome(i, s).0.token_calls == s.token_calls,
{
}

/// A withdrawal that took the lock has given it back when it ends, whether it
/// succeeds or is refused; no other call takes it.
pub proof fn law_lock_released(i: Invocation, s: State, call: Call)
    requires
        !s.is_locked(),
    ensures
        !call.outcome(i, s).0.is_locked(),
{
    if call is Withdraw || call is EmergencyWithdraw {
        lemma_withdrawal_leaves(i, s, call);
    }
}

/// What was paid out in all, over all tokens.
pub open spec fn paid_out(transfers: Seq<Transfer>) -> int
    decreases transfers.len(),
{
    if transfers.len() == 0 {
        0
    } else {
        paid_out(transfers.drop_last()) + transfers.last().amount
    }
}

/// Without a cap no amount is refused on account of the rate. With one, an amount
/// passes exactly if it is within the cap together with the total on record for the
/// epoch, and once the epoch has lasted its 24 hours, exactly if it is within the
/// cap by itself.
pub proof fn law_rate(i: Invocation, s: State, amount: i128)
    requires
        amount > 0,
    ensures
        s.cap() == 0 ==> model::rate_check(i, s, amount) is Ok,
        s.cap() != 0 && i.timestamp - s.epoch_start(i.timestamp) < 86_400 ==> (model::rate_check(
            i,
            s,
            amount,
        ) is Ok <==> s.epoch_withdrawn() + amount <= s.cap()),
        s.cap() != 0 && i.timestamp - s.epoch_start(i.timestamp) >= 86_400 ==> (model::rate_check(
            i,
            s,
            amount,
        ) is Ok <==> amount <= s.cap()),
{
}

/// A rate check starts a new epoch, with nothing withdrawn in it, exactly if the
/// one on record has lasted its 24 hours, whether or not a cap is in force; it
/// leaves everything else as it was. A withdrawal that gets as far as that check
/// starts the epoch too, whatever comes of the check.
pub proof fn law_epoch_advances(
    i: Invocation,
    s: State,
    admin: Address,
    token: Address,
    amount: i128,
)
    ensures
        ({
            let after = model::roll_epoch(i, s);
            if i.timestamp - s.epoch_start(i.timestamp) >= 86_400 {
                &&& after.epoch_start(0) == i.timestamp
                &&& after.epoch_withdrawn() == 0
                &&& after == (State { instance: after.instance, ..s })
                &&& forall|k: DataKey|
                    #![trigger after.instance.contains_key(k)]
                    !(k is EpochStart || k is EpochWithdrawn) ==> {
                        &&& after.instance.contains_key(k) == s.instance.contains_key(k)
                        &&& after.instance[k] == s.instance[k]
                    }
            } else {
                after == s
            }
        }),
        s.admin() == Some(admin) && amount > 0 && s.is_whitelisted(token) ==> {
            let begun = model::begin_withdrawal(i, s, admin, token, amount).0;
            let after = model::roll_epoch(i, s);
            &&& begun.epoch_start(0) == after.epoch_start(0)
            &&& begun.epoch_withdrawn() == after.epoch_withdrawn()
        },
{
}

/// A second rate check at the same time, with no other call between, gives the same
/// answer and changes nothing more. What passed for one amount passes for any
/// smaller one, and what failed for one amount fails for any larger one.
pub proof fn law_rate_again(i: Invocation, s: State, amount: i128, other: i128)
    requires
        amount > 0,
        other > 0,
    ensures
        ({
            let first = model::rate_check(i, s, amount);
            let after = model::roll_epoch(i, s);
            &&& model::rate_check(i, after, amount) == first
            &&& model::roll_epoch(i, after) == after
            &&& first is Ok && other <= amount ==> model::rate_check(i, after, other) is Ok
            &&& first is Err && other >= amount ==> model::rate_check(i, after, other) is Err
        }),
{
}

/// A call that pays out starts a new epoch if one is due, and under a cap adds what
/// it pays to the total of the epoch, which stays within the cap. Any other call
/// leaves the epoch and its total, whatever the cap, the execution of a cap as well
/// as a call that is refused.
pub proof fn law_epoch_total(i: Invocation, s: State, call: Call)
    requires
        s.admin() is Some,
    ensures
        ({
            let after = committed(i, s, call);
            let over = i.timestamp - s.epoch_start(i.timestamp) >= 86_400;
            let counted: int = if over {
                0
            } else {
                s.epoch_withdrawn() as int
            };
            let paid = paid_out(after.transfers) - paid_out(s.transfers);
            if after.transfers == s.transfers {
                &&& after.epoch_withdrawn() == s.epoch_withdrawn()
                &&& after.epoch_start(0) == s.epoch_start(0)
                &&& after.instance.contains_key(DataKey::EpochStart) == s.instance.contains_key(
                    DataKey::EpochStart,
                )
            } else {
                &&& paid > 0
                &&& s.cap() == 0 ==> after.epoch_withdrawn() == counted
                &&& s.cap() != 0 ==> after.epoch_withdrawn() == counted + paid
                &&& s.cap() != 0 ==> after.epoch_withdrawn() <= s.cap()
                &&& after.epoch_start(0) == if over {
                    i.timestamp
                } else {
                    s.epoch_start(0)
                }
            }
        }),
{
    let after = committed(i, s, call);
    law_transfers(i, s, call);
    if after.transfers.len() == s.transfers.len() + 1 {
        assert(after.transfers.drop_last() == s.transfers);
    }
    match call {
        Call::Withdraw { amount, .. } => {
            if call.outcome(i, s).1 is Ok {
                assert(after.transfers.last().amount == amount);
                assert(s.cap() != 0 ==> after.epoch_withdrawn() == model::spent(i, s) + amount);
            }
        },
        Call::EmergencyWithdraw { balance, .. } => {
            if call.outcome(i, s).1 is Ok && balance->0 > 0 {
                assert(after.transfers.last().amount == balance->0);
                assert(s.cap() != 0 ==> after.epoch_withdrawn() == model::spent(i, s)
                    + balance->0);
            }
        },
        _ => {},
    }
}

/// The epoch on record never starts in the future: over every sequence of calls at
/// times that do not decrease, its start is at most the time of the last one.
pub proof fn law_epoch_not_ahead(s: State, calls: Seq<(Invocation, Call)>, now: u64)
    requires
        s.epoch_start(0) <= now,
        forall|k: int| 0 <= k < calls.len() ==> now <= (#[trigger] calls[k]).0.timestamp,
        forall|k: int, l: int|
            0 <= k <= l < calls.len() ==> (#[trigger] calls[k]).0.timestamp <= (
            #[trigger] calls[l]).0.timestamp,
    ensures
        calls.len() == 0 ==> after_all(s, calls).epoch_start(0) <= now,
        calls.len() > 0 ==> after_all(s, calls).epoch_start(0) <= calls.last().0.timestamp,
    decreases calls.len(),
{
    if calls.len() > 0 {
        let before = calls.drop_last();
        let (i, call) = calls[calls.len() - 1];
        let mid = after_all(s, before);
        assert forall|k: int| 0 <= k < before.len() implies #[trigger] before[k] == calls[k] by {}
        law_epoch_not_ahead(s, before, now);
        assert(mid.epoch_start(0) <= i.timestamp) by {
            if before.len() > 0 {
                assert(before.last() == calls[before.len() - 1]);
            }
        }
        if mid.admin() is Some {
            law_epoch_total(i, mid, call);
        } else if call.caller() is Some {
            law_administrator_only(i, mid, call);
        }
    }
}

/// No epoch outlasts a day: a day after the last of any calls, made at times that do
/// not decrease, the whole cap is available.
pub proof fn law_cap_comes_back(
    s: State,
    calls: Seq<(Invocation, Call)>,
    now: u64,
    later: Invocation,
    amount: i128,
)
    requires
        s.epoch_start(0) <= now,
        forall|k: int| 0 <= k < calls.len() ==> now <= (#[trigger] calls[k]).0.timestamp,
        forall|k: int, l: int|
            0 <= k <= l < calls.len() ==> (#[trigger] calls[k]).0.timestamp <= (
            #[trigger] calls[l]).0.timestamp,
        calls.len() > 0,
        later.timestamp >= calls.last().0.timestamp + 86_400,
        after_all(s, calls).instance.contains_key(DataKey::EpochStart),
        0 < amount <= after_all(s, calls).cap(),
    ensures
        model::rate_check(later, after_all(s, calls), amount) is Ok,
{
    law_epoch_not_ahead(s, calls, now);
    law_rate(later, after_all(s, calls), amount);
}

/// While one epoch and one cap last, however many withdrawals of whatever tokens
/// there are, what they pay out is what is added to the epoch's total, and it is no
/// more than the cap had left at the start.
pub proof fn law_epoch_cap(own: Address, s: State, calls: Seq<(Invocation, Call)>)
    requires
        sound(own, s),
        s.admin() is Some,
        s.cap() != 0,
        forall|k: int|
            0 <= k < calls.len() ==> {
                let (i, call) = #[trigger] calls[k];
                &&& i.contract == own
                &&& i.timestamp < s.epoch_start(0) + EPOCH_DURATION
                &&& !(call is ExecuteWithdrawalCap)
            },
    ensures
        ({
            let after = after_all(s, calls);
            let paid = paid_out(after.transfers) - paid_out(s.transfers);
            &&& after.cap() == s.cap()
            &&& after.epoch_start(0) == s.epoch_start(0)
            &&& after.epoch_withdrawn() == s.epoch_withdrawn() + paid
            &&& paid >= 0
            &&& paid > 0 ==> paid <= s.cap() - s.epoch_withdrawn()
        }),
    decreases calls.len(),
{
    if calls.len() > 0 {
        let before = calls.drop_last();
        let (i, call) = calls[calls.len() - 1];
        let mid = after_all(s, before);
        assert forall|k: int| 0 <= k < before.len() implies #[trigger] before[k] == calls[k] by {}
        law_epoch_cap(own, s, before);
        law_always_sound(own, s, before);
        law_admin_stays(s, before);
        law_epoch_total(i, mid, call);
        law_cap_changes(i, mid, call);
        assert(!model::epoch_over(i, mid));
    }
}

/// In any 24 hours, wherever the epochs fall, no more than twice the cap is paid
/// out while the cap stays as it is.
pub proof fn law_day_cap(own: Address, s: State, calls: Seq<(Invocation, Call)>, start: u64)
    requires
        sound(own, s),
        s.admin() is Some,
        s.cap() != 0,
        forall|k: int|
            0 <= k < calls.len() ==> {
                let (i, call) = #[trigger] calls[k];
                &&& i.contract == own
                &&& start <= i.timestamp < start + 86_400
                &&& !(call is ExecuteWithdrawalCap)
            },
    ensures
        paid_out(after_all(s, calls).transfers) - paid_out(s.transfers) <= 2 * s.cap(),
{
    lemma_day_cap(own, s, calls, start);
}

/// Within 24 hours the epoch changes at most once.
proof fn lemma_day_cap(own: Address, s: State, calls: Seq<(Invocation, Call)>, start: u64)
    requires
        sound(own, s),
        s.admin() is Some,
        s.cap() != 0,
        forall|k: int|
            0 <= k < calls.len() ==> {
                let (i, call) = #[trigger] calls[k];
                &&& i.contract == own
                &&& start <= i.timestamp < start + EPOCH_DURATION
                &&& !(call is ExecuteWithdrawalCap)
            },
    ensures
        ({
            let after = after_all(s, calls);
            let paid = paid_out(after.transfers) - paid_out(s.transfers);
            &&& after.cap() == s.cap()
            &&& {
                ||| {
                    &&& paid == after.epoch_withdrawn() - s.epoch_withdrawn()
                    &&& paid == 0 || after.epoch_withdrawn() <= s.cap()
                }
                ||| {
                    &&& after.epoch_start(0) >= start
                    &&& paid <= s.cap() + after.epoch_withdrawn()
                    &&& after.epoch_withdrawn() <= s.cap()
                }
            }
        }),
    decreases calls.len(),
{
    if calls.len() > 0 {
        let before = calls.drop_last();
        let (i, call) = calls[calls.len() - 1];
        let mid = after_all(s, before);
        assert forall|k: int| 0 <= k < before.len() implies #[trigger] before[k] == calls[k] by {}
        lemma_day_cap(own, s, before, start);
        law_always_sound(own, s, before);
        law_admin_stays(s, before);
        law_epoch_total(i, mid, call);
        law_cap_changes(i, mid, call);
    }
}

/// The entry under `k` is still there and has no less life, and if it was written,
/// it is left with more than half of its full life, or with all the life that the
/// network grants.
pub open spec fn lives_on(i: Invocation, before: State, after: State, k: DataKey) -> bool {
    &&& before.persistent.contains_key(k) ==> {
        &&& after.persistent.contains_key(k)
        &&& after.live_until[k] >= before.live_until[k]
    }
    &&& after.persistent.contains_key(k) && (!before.persistent.contains_key(k)
        || after.persistent[k] != before.persistent[k]) ==> {
        ||| after.live_until[k] > i.sequence + PERSISTENT_LIFETIME_THRESHOLD
        ||| after.live_until[k] >= last_ledger(i, i.max_ttl)
    }
}

/// Entries live on when one of them is written and extended.
proof fn lemma_store_lives_on(i: Invocation, s: State, key: DataKey, value: Value, k: DataKey)
    requires
        running(i),
        well_formed(i, s),
    ensures
        lives_on(i, s, s.store(i, key, value), k),
{
}

/// A persistent entry that a call writes is left with more than half of its full
/// life, or with all the life that the network grants; no call shortens the life of
/// any entry or removes it.
pub proof fn law_entries_live_on(i: Invocation, s: State, call: Call, k: DataKey)
    requires
        running(i),
        well_formed(i, s),
    ensures
        lives_on(i, s, call.outcome(i, s).0, k),
{
    let after = call.outcome(i, s).0;
    match call {
        Call::Initialize { admin, fee_bps } => {
            if call.outcome(i, s).1 is Ok {
                let named = s.store(i, DataKey::Admin, Value::Address(admin));
                lemma_store_lives_on(i, s, DataKey::Admin, Value::Address(admin), k);
                assert(well_formed(i, named));
                lemma_store_lives_on(i, named, DataKey::FeeBps, Value::U32(fee_bps), k);
                let rated = named.store(i, DataKey::FeeBps, Value::U32(fee_bps));
                assert(after.persistent == rated.persistent);
                assert(after.live_until == rated.live_until);
            }
        },
        Call::SetFeeBps { fee_bps, .. } => {
            lemma_store_lives_on(i, s, DataKey::FeeBps, Value::U32(fee_bps), k);
        },
        Call::WhitelistToken { token, .. } => {
            lemma_store_lives_on(i, s, DataKey::WhitelistedToken(token), Value::Bool(true), k);
        },
        Call::CollectFee { token, amount } => {
            let total = (s.collected(token).unwrap_or(0) + amount) as i128;
            lemma_store_lives_on(i, s, DataKey::Collected(token), Value::I128(total), k);
        },
        Call::Withdraw { token, amount, .. } => {
            let total = model::saturated(s.collected(token).unwrap_or(0) - amount);
            let stored = s.store(i, DataKey::Collected(token), Value::I128(total));
            lemma_store_lives_on(i, s, DataKey::Collected(token), Value::I128(total), k);
            assert((after.persistent == s.persistent && after.live_until == s.live_until) || (
            after.persistent == stored.persistent && after.live_until == stored.live_until));
        },
        Call::EmergencyWithdraw { .. } => {
            law_drain_leaves(i, s, call);
        },
        _ => {},
    }
}

} // verus!
