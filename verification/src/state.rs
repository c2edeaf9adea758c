//! The state of the treasury, as its contracts speak of it.

use crate::data_key::DataKey;
use crate::host::{
    alive, contents, extended, invocation, last_ledger, Event, Invocation, RawKey, TokenCall,
    TokenRequest, Transfer, Value,
};
use soroban_sdk::{Address, BytesN, Env};
use vstd::prelude::*;

verus! {

/// The life that a persistent entry is given when it is written, in ledgers
/// (about 31 days).
pub const PERSISTENT_BUMP_AMOUNT: u32 = 535_680;

/// A persistent entry with no more ledgers than this left to live is extended.
pub const PERSISTENT_LIFETIME_THRESHOLD: u32 = 267_840;

/// The length of a rate-limit epoch: 24 hours in seconds.
pub const EPOCH_DURATION: u64 = 86_400;

/// The fee rate that holds until one is set, in basis points.
pub const DEFAULT_FEE_BPS: u32 = 50;

/// The whole, in basis points.
pub const MAX_FEE_BPS: u32 = 10_000;

/// The storage entries under keys that are not the treasury's.
#[verifier::ext_equal]
pub struct Foreign {
    pub persistent: Map<RawKey, Value>,
    pub live_until: Map<RawKey, u32>,
    pub instance: Map<RawKey, Value>,
}

/// A call of a token's contract, with what the treasury's instance storage held at
/// that moment.
pub struct Query {
    pub token: Address,
    pub request: TokenRequest,
    pub instance: Map<DataKey, Value>,
    /// The entries under keys that are not the treasury's.
    pub foreign: Map<RawKey, Value>,
}

impl Query {
    /// Whether a withdrawal was under way when the call was made.
    pub open spec fn is_locked(self) -> bool {
        &&& self.instance.contains_key(DataKey::WithdrawalLock)
        &&& self.instance[DataKey::WithdrawalLock]->Bool_0
    }
}

/// What the host has loaded for the treasury, and what the treasury has asked of
/// the host.
#[verifier::ext_equal]
pub struct State {
    /// Its persistent storage.
    pub persistent: Map<DataKey, Value>,
    /// The last ledger of the life of each persistent entry.
    pub live_until: Map<DataKey, u32>,
    /// Its instance storage.
    pub instance: Map<DataKey, Value>,
    /// Whatever else its storage holds.
    pub foreign: Foreign,
    /// The addresses whose authorization it has demanded in this invocation.
    pub auth_checked: Set<Address>,
    /// The events it has published, oldest first.
    pub published: Seq<Event>,
    /// The calls of tokens it has made, oldest first.
    pub token_calls: Seq<Query>,
    /// The token transfers it has made, oldest first.
    pub transfers: Seq<Transfer>,
    /// The hash of the Wasm blob that is to replace it, if any.
    pub replacement: Option<BytesN<32>>,
}

/// The entries of `m` whose keys are keys of the treasury.
pub open spec fn keyed<V>(m: Map<RawKey, V>) -> Map<DataKey, V> {
    Map::new(|k: DataKey| m.contains_key(k.raw()), |k: DataKey| m[k.raw()])
}

/// Whether a key is one of the treasury's.
pub open spec fn is_own(k: RawKey) -> bool {
    exists|d: DataKey| k == #[trigger] d.raw()
}

/// The entries of `m` whose keys are not keys of the treasury.
pub open spec fn unkeyed<V>(m: Map<RawKey, V>) -> Map<RawKey, V> {
    Map::new(|k: RawKey| m.contains_key(k) && !is_own(k), |k: RawKey| m[k])
}

/// A call of a token's contract, with the keys of the treasury.
pub open spec fn query(t: TokenCall) -> Query {
    Query {
        token: t.token,
        request: t.request,
        instance: keyed(t.instance),
        foreign: unkeyed(t.instance),
    }
}

/// The calls of tokens, with the keys of the treasury.
pub open spec fn queries(calls: Seq<TokenCall>) -> Seq<Query> {
    calls.map_values(|t: TokenCall| query(t))
}

/// The state of the treasury on the host of `env`.
pub open spec fn state(env: Env) -> State {
    State {
        persistent: keyed(contents(env).persistent),
        live_until: keyed(contents(env).live_until),
        instance: keyed(contents(env).instance),
        foreign: Foreign {
            persistent: unkeyed(contents(env).persistent),
            live_until: unkeyed(contents(env).live_until),
            instance: unkeyed(contents(env).instance),
        },
        auth_checked: contents(env).auth_checked,
        published: contents(env).published,
        token_calls: queries(contents(env).token_calls),
        transfers: contents(env).transfers,
        replacement: contents(env).replacement,
    }
}

/// Whether `value` is of the type of the entry under `key`.
pub open spec fn fits(key: DataKey, value: Value) -> bool {
    match key {
        DataKey::Admin => value is Address,
        DataKey::FeeBps => value is U32,
        DataKey::Collected(_) => value is I128,
        DataKey::WhitelistedToken(_) => value is Bool,
        DataKey::UpgradeProposal => value is HashAt,
        DataKey::WithdrawalLock => value is Bool,
        DataKey::WithdrawalCap => value is I128,
        DataKey::WithdrawalCapProposal => value is AmountAt,
        DataKey::EpochStart => value is U64,
        DataKey::EpochWithdrawn => value is I128,
    }
}

/// Every entry is of its type, and every persistent entry is alive, as all are that
/// the host has loaded.
pub open spec fn well_formed(i: Invocation, s: State) -> bool {
    &&& forall|k: DataKey| #[trigger]
        s.persistent.contains_key(k) ==> {
            &&& fits(k, s.persistent[k])
            &&& s.live_until.contains_key(k)
            &&& s.live_until[k] >= i.sequence
        }
    &&& forall|k: DataKey| #[trigger]
        s.instance.contains_key(k) ==> fits(k, s.instance[k])
}

/// An invocation of the treasury is running, and the lives that the network grants
/// end within the range of ledger numbers.
pub open spec fn running(i: Invocation) -> bool {
    &&& i.in_contract
    &&& last_ledger(i, i.min_ttl) <= u32::MAX
    &&& last_ledger(i, i.max_ttl) <= u32::MAX
}

/// The host of `env` is running the treasury, on storage that the treasury wrote.
pub open spec fn valid(env: Env) -> bool {
    running(invocation(env)) && well_formed(invocation(env), state(env))
}

/// `caller` has authorized the running invocation, which has not asked for that
/// yet.
pub open spec fn authorizes(env: Env, caller: Address) -> bool {
    &&& invocation(env).authorized.contains(caller)
    &&& !state(env).auth_checked.contains(caller)
}

impl State {
    /// The administrator, once there is one.
    pub open spec fn admin(self) -> Option<Address> {
        if self.persistent.contains_key(DataKey::Admin) {
            Some(self.persistent[DataKey::Admin]->Address_0)
        } else {
            None
        }
    }

    /// The fee rate in basis points.
    pub open spec fn fee_bps(self) -> u32 {
        if self.persistent.contains_key(DataKey::FeeBps) {
            self.persistent[DataKey::FeeBps]->U32_0
        } else {
            DEFAULT_FEE_BPS
        }
    }

    /// The fees on record for a token, if any were ever recorded.
    pub open spec fn collected(self, token: Address) -> Option<i128> {
        if self.persistent.contains_key(DataKey::Collected(token)) {
            Some(self.persistent[DataKey::Collected(token)]->I128_0)
        } else {
            None
        }
    }

    /// Whether a token is whitelisted.
    pub open spec fn is_whitelisted(self, token: Address) -> bool {
        &&& self.persistent.contains_key(DataKey::WhitelistedToken(token))
        &&& self.persistent[DataKey::WhitelistedToken(token)]->Bool_0
    }

    /// The withdrawal cap; zero stands for none.
    pub open spec fn cap(self) -> i128 {
        if self.instance.contains_key(DataKey::WithdrawalCap) {
            self.instance[DataKey::WithdrawalCap]->I128_0
        } else {
            0
        }
    }

    /// The pending cap change: the new cap and the time of the proposal.
    pub open spec fn cap_proposal(self) -> Option<(i128, u64)> {
        if self.instance.contains_key(DataKey::WithdrawalCapProposal) {
            let v = self.instance[DataKey::WithdrawalCapProposal];
            Some((v->AmountAt_0, v->AmountAt_1))
        } else {
            None
        }
    }

    /// The pending upgrade: the Wasm hash and the time of the proposal.
    pub open spec fn upgrade_proposal(self) -> Option<(BytesN<32>, u64)> {
        if self.instance.contains_key(DataKey::UpgradeProposal) {
            let v = self.instance[DataKey::UpgradeProposal];
            Some((v->HashAt_0, v->HashAt_1))
        } else {
            None
        }
    }

    /// When the current epoch started; at `now` if that is not on record.
    pub open spec fn epoch_start(self, now: u64) -> u64 {
        if self.instance.contains_key(DataKey::EpochStart) {
            self.instance[DataKey::EpochStart]->U64_0
        } else {
            now
        }
    }

    /// The running total of the epoch on record.
    pub open spec fn epoch_withdrawn(self) -> i128 {
        if self.instance.contains_key(DataKey::EpochWithdrawn) {
            self.instance[DataKey::EpochWithdrawn]->I128_0
        } else {
            0
        }
    }

    /// Whether a withdrawal is under way.
    pub open spec fn is_locked(self) -> bool {
        &&& self.instance.contains_key(DataKey::WithdrawalLock)
        &&& self.instance[DataKey::WithdrawalLock]->Bool_0
    }

    /// With a value put into persistent storage.
    pub open spec fn put(self, i: Invocation, k: DataKey, v: Value) -> State {
        State {
            persistent: self.persistent.insert(k, v),
            live_until: if self.persistent.contains_key(k) {
                self.live_until
            } else {
                self.live_until.insert(k, last_ledger(i, i.min_ttl) as u32)
            },
            ..self
        }
    }

    /// With the life of a persistent entry extended.
    pub open spec fn bump(self, i: Invocation, k: DataKey) -> State {
        State {
            live_until: self.live_until.insert(
                k,
                extended(
                    i,
                    self.live_until[k],
                    PERSISTENT_LIFETIME_THRESHOLD,
                    PERSISTENT_BUMP_AMOUNT,
                ),
            ),
            ..self
        }
    }

    /// With a value put into persistent storage, and its life extended.
    pub open spec fn store(self, i: Invocation, k: DataKey, v: Value) -> State {
        self.put(i, k, v).bump(i, k)
    }

    /// With a value put into instance storage.
    pub open spec fn keep(self, k: DataKey, v: Value) -> State {
        State { instance: self.instance.insert(k, v), ..self }
    }

    /// With an entry removed from instance storage.
    pub open spec fn forget(self, k: DataKey) -> State {
        State { instance: self.instance.remove(k), ..self }
    }

    /// With the withdrawal lock set or cleared.
    pub open spec fn lock(self, locked: bool) -> State {
        self.keep(DataKey::WithdrawalLock, Value::Bool(locked))
    }

    /// With the authorization of an address demanded.
    pub open spec fn check_auth(self, address: Address) -> State {
        State { auth_checked: self.auth_checked.insert(address), ..self }
    }

    /// With an event published.
    pub open spec fn publish(self, topic: Seq<char>, data: Seq<Value>) -> State {
        State { published: self.published.push(Event { topic, data }), ..self }
    }

    /// With a token asked for something.
    pub open spec fn ask(self, token: Address, request: TokenRequest) -> State {
        State {
            token_calls: self.token_calls.push(
                Query {
                    token,
                    request,
                    instance: self.instance,
                    foreign: self.foreign.instance,
                },
            ),
            ..self
        }
    }

    /// With a transfer out of the treasury made.
    pub open spec fn pay(self, i: Invocation, token: Address, to: Address, amount: i128) -> State {
        State {
            transfers: self.transfers.push(Transfer { token, from: i.contract, to, amount }),
            ..self
        }
    }
}

/// The entries of the treasury, read through its keys.
pub broadcast proof fn lemma_keyed_entry<V>(m: Map<RawKey, V>, k: DataKey)
    ensures
        #[trigger] m.contains_key(k.raw()) == keyed(m).contains_key(k),
        m.contains_key(k.raw()) ==> keyed(m)[k] == m[k.raw()],
{
}

/// On valid storage every entry is of its type, and every persistent one is alive.
pub broadcast proof fn lemma_fits(env: Env, k: DataKey)
    requires
        valid(env),
    ensures
        #![trigger contents(env).persistent.contains_key(k.raw())]
        #![trigger contents(env).instance.contains_key(k.raw())]
        #![trigger alive(invocation(env), contents(env), k.raw())]
        alive(invocation(env), contents(env), k.raw()),
        contents(env).persistent.contains_key(k.raw()) ==> fits(
            k,
            contents(env).persistent[k.raw()],
        ),
        contents(env).instance.contains_key(k.raw()) ==> fits(k, contents(env).instance[k.raw()]),
{
    assert(state(env).persistent.contains_key(k) == contents(env).persistent.contains_key(k.raw()));
    assert(state(env).instance.contains_key(k) == contents(env).instance.contains_key(k.raw()));
}

/// A value put under a key of the treasury is put under that key alone.
pub broadcast proof fn lemma_keyed_insert<V>(m: Map<RawKey, V>, k: DataKey, v: V)
    ensures
        #[trigger] keyed(m.insert(k.raw(), v)) == keyed(m).insert(k, v),
{
    crate::data_key::lemma_keys();
    assert(keyed(m.insert(k.raw(), v)) =~= keyed(m).insert(k, v));
}

/// An entry removed under a key of the treasury is removed under that key alone.
pub broadcast proof fn lemma_keyed_remove<V>(m: Map<RawKey, V>, k: DataKey)
    ensures
        #[trigger] keyed(m.remove(k.raw())) == keyed(m).remove(k),
{
    crate::data_key::lemma_keys();
    assert(keyed(m.remove(k.raw())) =~= keyed(m).remove(k));
}

/// A value put under a key of the treasury leaves the foreign entries.
pub broadcast proof fn lemma_unkeyed_insert<V>(m: Map<RawKey, V>, k: DataKey, v: V)
    ensures
        #[trigger] unkeyed(m.insert(k.raw(), v)) == unkeyed(m),
{
    assert(is_own(k.raw()));
    assert(unkeyed(m.insert(k.raw(), v)) =~= unkeyed(m));
}

/// An entry removed under a key of the treasury leaves the foreign entries.
pub broadcast proof fn lemma_unkeyed_remove<V>(m: Map<RawKey, V>, k: DataKey)
    ensures
        #[trigger] unkeyed(m.remove(k.raw())) == unkeyed(m),
{
    assert(is_own(k.raw()));
    assert(unkeyed(m.remove(k.raw())) =~= unkeyed(m));
}

/// A call of a token is the last of the treasury's calls.
pub broadcast proof fn lemma_queries_push(calls: Seq<TokenCall>, t: TokenCall)
    ensures
        #[trigger] queries(calls.push(t)) == queries(calls).push(query(t)),
{
    assert(queries(calls.push(t)) =~= queries(calls).push(query(t)));
}

/// Whether two maps agree on a key.
pub open spec fn agree<V>(a: Map<RawKey, V>, b: Map<RawKey, V>, k: RawKey) -> bool {
    &&& a.contains_key(k) == b.contains_key(k)
    &&& a.contains_key(k) ==> a[k] == b[k]
}

/// Maps with the same foreign entries agree on every foreign key.
proof fn lemma_unkeyed_agree<V>(a: Map<RawKey, V>, b: Map<RawKey, V>, k: RawKey)
    requires
        unkeyed(a) == unkeyed(b),
        !is_own(k),
    ensures
        agree(a, b, k),
{
    assert(unkeyed(a).contains_key(k) == a.contains_key(k));
    assert(unkeyed(b).contains_key(k) == b.contains_key(k));
    if a.contains_key(k) {
        assert(unkeyed(a)[k] == a[k]);
        assert(unkeyed(b)[k] == b[k]);
    }
}

/// Where the foreign entries are the same, every entry under a key that is not the
/// treasury's is as it was.
pub proof fn lemma_foreign_kept(before: Env, after: Env, k: RawKey)
    requires
        state(after).foreign == state(before).foreign,
        forall|d: DataKey| k != #[trigger] d.raw(),
    ensures
        agree(contents(after).persistent, contents(before).persistent, k),
        agree(contents(after).live_until, contents(before).live_until, k),
        agree(contents(after).instance, contents(before).instance, k),
{
    lemma_unkeyed_agree(contents(after).persistent, contents(before).persistent, k);
    lemma_unkeyed_agree(contents(after).live_until, contents(before).live_until, k);
    lemma_unkeyed_agree(contents(after).instance, contents(before).instance, k);
}

pub broadcast group group_keyed {
    lemma_keyed_entry,
    lemma_fits,
    lemma_keyed_insert,
    lemma_keyed_remove,
    lemma_unkeyed_insert,
    lemma_unkeyed_remove,
    lemma_queries_push,
}

} // verus!
