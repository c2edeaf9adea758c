//! The ledger host, as far as the treasury uses it.
//!
//! Everything here that is trusted is a call into `soroban_sdk`. An [`Env`] is a
//! handle on the host that runs the current invocation; the two spec functions
//! [`invocation`] and [`contents`] name what it holds. Addresses and byte strings
//! are handles too; all that meet in a call belong to one host. The host ends an
//! invocation that runs out of its resource budget or leaves its declared
//! footprint; no call returns then.

use soroban_sdk::token::TokenClient;
use soroban_sdk::{Address, BytesN, Env, IntoVal, Symbol, TryFromVal, Val};
use vstd::prelude::*;

verus! {

/// The host of an invocation.
#[verifier::external_type_specification]
#[verifier::external_body]
pub struct ExEnv(soroban_sdk::Env);

/// An account or a contract on the ledger.
#[verifier::external_type_specification]
#[verifier::external_body]
pub struct ExAddress(soroban_sdk::Address);

/// A byte string of fixed length.
#[verifier::external_type_specification]
#[verifier::external_body]
pub struct ExBytesN<const N: usize>(soroban_sdk::BytesN<N>);

/// A value that the host keeps or publishes.
pub enum Value {
    Address(Address),
    Bool(bool),
    U32(u32),
    U64(u64),
    I128(i128),
    Hash(BytesN<32>),
    /// An amount and a time.
    AmountAt(i128, u64),
    /// A hash and a time.
    HashAt(BytesN<32>, u64),
}

/// The key of a storage entry: a symbol, and the address it is about, if any.
pub struct RawKey {
    pub name: Seq<char>,
    pub subject: Option<Address>,
}

/// A storage key to hand to the host.
pub struct EntryKey {
    pub name: &'static str,
    pub subject: Option<Address>,
}

impl View for EntryKey {
    type V = RawKey;

    open spec fn view(&self) -> RawKey {
        RawKey { name: self.name@, subject: self.subject }
    }
}

/// A published event.
pub struct Event {
    pub topic: Seq<char>,
    pub data: Seq<Value>,
}

/// A token transfer that the token's contract reported as done.
pub struct Transfer {
    pub token: Address,
    pub from: Address,
    pub to: Address,
    pub amount: i128,
}

/// What stays fixed while an invocation runs.
pub struct Invocation {
    /// Whether a contract is executing at all.
    pub in_contract: bool,
    /// The close time of the current ledger, in seconds.
    pub timestamp: u64,
    /// The number of the current ledger.
    pub sequence: u32,
    /// The life that the network grants a new persistent entry, in ledgers, with
    /// the current one.
    pub min_ttl: u32,
    /// The longest life that the network grants an entry, in ledgers, with the
    /// current one.
    pub max_ttl: u32,
    /// The executing contract.
    pub contract: Address,
    /// The addresses that have authorized the invocation.
    pub authorized: Set<Address>,
    /// The hashes of the Wasm blobs that were on the ledger when the invocation
    /// began.
    pub uploaded: Set<BytesN<32>>,
}

/// A request to a token's contract.
pub enum TokenRequest {
    Balance { holder: Address },
    Transfer { from: Address, to: Address, amount: i128 },
}

/// A call of a token's contract, whether or not it succeeded.
pub struct TokenCall {
    pub token: Address,
    pub request: TokenRequest,
    /// What the caller's instance storage held at that moment.
    pub instance: Map<RawKey, Value>,
}

/// What the host has loaded for the executing contract, and what the contract has
/// asked of the host.
#[verifier::ext_equal]
pub struct Contents {
    /// The entries of its persistent storage that are in the footprint of the
    /// invocation. The host has restored those of them that were archived; entries
    /// outside the footprint are not loaded, archived or not.
    pub persistent: Map<RawKey, Value>,
    /// The last ledger of the life of each persistent entry.
    pub live_until: Map<RawKey, u32>,
    /// The entries of its instance storage.
    pub instance: Map<RawKey, Value>,
    /// The addresses whose authorization it has demanded in this invocation.
    pub auth_checked: Set<Address>,
    /// The events it has published, oldest first.
    pub published: Seq<Event>,
    /// The calls of tokens it has made, oldest first.
    pub token_calls: Seq<TokenCall>,
    /// The token transfers it has made, oldest first.
    pub transfers: Seq<Transfer>,
    /// The hash of the Wasm blob that it has asked to be replaced by, if any.
    pub replacement: Option<BytesN<32>>,
}

/// What the host of `env` holds fixed for the current invocation.
pub uninterp spec fn invocation(env: Env) -> Invocation;

/// What the host of `env` holds for the executing contract.
pub uninterp spec fn contents(env: Env) -> Contents;

/// Whether `address` is the address of a contract, rather than of an account.
pub uninterp spec fn names_contract(address: Address) -> bool;

/// What the contract at `token` answers when it is asked for the balance of
/// `holder`; `None` if the call fails.
pub uninterp spec fn token_answer(env: Env, token: Address, holder: Address) -> Option<i128>;

/// Whether the contract at `token` reports success when it is asked to transfer
/// `amount` from `from` to `to`.
pub uninterp spec fn transfer_answer(
    env: Env,
    token: Address,
    from: Address,
    to: Address,
    amount: i128,
) -> bool;

/// The characters of a symbol.
pub open spec fn is_symbol_char(c: char) -> bool {
    'a' <= c <= 'z' || 'A' <= c <= 'Z' || '0' <= c <= '9' || c == '_'
}

/// The strings that a symbol can spell.
pub open spec fn is_symbol(s: Seq<char>) -> bool {
    &&& s.len() <= 32
    &&& forall|i: int| 0 <= i < s.len() ==> is_symbol_char(#[trigger] s[i])
}

/// The last ledger of a life of `ttl` ledgers, with the current one.
pub open spec fn last_ledger(i: Invocation, ttl: u32) -> int {
    if ttl == 0 {
        i.sequence as int
    } else {
        i.sequence + ttl - 1
    }
}

/// Whether the persistent entry under a key is alive, if there is one. An entry
/// that is not must be restored before it can be used.
pub open spec fn alive(i: Invocation, c: Contents, key: RawKey) -> bool {
    c.persistent.contains_key(key) ==> c.live_until[key] >= i.sequence
}

/// With a call of a token's contract on record.
pub open spec fn with_token_call(c: Contents, token: Address, request: TokenRequest) -> Contents {
    Contents {
        token_calls: c.token_calls.push(TokenCall { token, request, instance: c.instance }),
        ..c
    }
}

/// Persistent storage after a value was put under a key.
pub open spec fn with_persistent(i: Invocation, c: Contents, key: RawKey, value: Value) -> Contents {
    Contents {
        persistent: c.persistent.insert(key, value),
        live_until: if c.persistent.contains_key(key) {
            c.live_until
        } else {
            c.live_until.insert(key, last_ledger(i, i.min_ttl) as u32)
        },
        ..c
    }
}

/// The last ledger of an entry's life after an extension.
pub open spec fn extended(i: Invocation, live_until: u32, threshold: u32, extend_to: u32) -> u32 {
    let wanted = i.sequence + extend_to;
    let granted = last_ledger(i, i.max_ttl);
    let reached = if wanted > granted {
        granted
    } else {
        wanted
    };
    if reached > live_until && live_until - i.sequence <= threshold {
        reached as u32
    } else {
        live_until
    }
}

/// The types of the values in storage entries.
pub trait Stored: Sized {
    /// The value as the host keeps it.
    spec fn value(self) -> Value;

    /// Whether `value` is a value of this type.
    spec fn accepts(value: Value) -> bool;
}

impl Stored for Address {
    open spec fn value(self) -> Value {
        Value::Address(self)
    }

    open spec fn accepts(value: Value) -> bool {
        value is Address
    }
}

impl Stored for bool {
    open spec fn value(self) -> Value {
        Value::Bool(self)
    }

    open spec fn accepts(value: Value) -> bool {
        value is Bool
    }
}

impl Stored for u32 {
    open spec fn value(self) -> Value {
        Value::U32(self)
    }

    open spec fn accepts(value: Value) -> bool {
        value is U32
    }
}

impl Stored for u64 {
    open spec fn value(self) -> Value {
        Value::U64(self)
    }

    open spec fn accepts(value: Value) -> bool {
        value is U64
    }
}

impl Stored for i128 {
    open spec fn value(self) -> Value {
        Value::I128(self)
    }

    open spec fn accepts(value: Value) -> bool {
        value is I128
    }
}

impl Stored for (i128, u64) {
    open spec fn value(self) -> Value {
        Value::AmountAt(self.0, self.1)
    }

    open spec fn accepts(value: Value) -> bool {
        value is AmountAt
    }
}

impl Stored for (BytesN<32>, u64) {
    open spec fn value(self) -> Value {
        Value::HashAt(self.0, self.1)
    }

    open spec fn accepts(value: Value) -> bool {
        value is HashAt
    }
}

/// The types of the data of events.
pub trait EventData: Sized {
    /// The values that an event carries.
    spec fn values(self) -> Seq<Value>;
}

impl EventData for (Address,) {
    open spec fn values(self) -> Seq<Value> {
        seq![Value::Address(self.0)]
    }
}

impl EventData for (Address, u32) {
    open spec fn values(self) -> Seq<Value> {
        seq![Value::Address(self.0), Value::U32(self.1)]
    }
}

impl EventData for (Address, u32, u32) {
    open spec fn values(self) -> Seq<Value> {
        seq![Value::Address(self.0), Value::U32(self.1), Value::U32(self.2)]
    }
}

impl EventData for (u64, i128, Address) {
    open spec fn values(self) -> Seq<Value> {
        seq![Value::U64(self.0), Value::I128(self.1), Value::Address(self.2)]
    }
}

impl EventData for (Address, i128) {
    open spec fn values(self) -> Seq<Value> {
        seq![Value::Address(self.0), Value::I128(self.1)]
    }
}

impl EventData for (Address, Address, i128) {
    open spec fn values(self) -> Seq<Value> {
        seq![Value::Address(self.0), Value::Address(self.1), Value::I128(self.2)]
    }
}

impl EventData for (Address, i128, i128) {
    open spec fn values(self) -> Seq<Value> {
        seq![Value::Address(self.0), Value::I128(self.1), Value::I128(self.2)]
    }
}

impl EventData for (Address, BytesN<32>) {
    open spec fn values(self) -> Seq<Value> {
        seq![Value::Address(self.0), Value::Hash(self.1)]
    }
}

/// `soroban_sdk::Address::clone`: the copy is the same address.
pub assume_specification[ <soroban_sdk::Address as Clone>::clone ](
    a: &soroban_sdk::Address,
) -> (r: soroban_sdk::Address)
    ensures
        r == *a,
;

/// `soroban_sdk::BytesN::clone`: the copy holds the same bytes.
pub assume_specification<const N: usize>[ <soroban_sdk::BytesN<N> as Clone>::clone ](
    a: &soroban_sdk::BytesN<N>,
) -> (r: soroban_sdk::BytesN<N>)
    ensures
        r == *a,
;

/// `==` of `soroban_sdk::Address`: whether both are the same address.
#[verifier::external_body]
pub(crate) fn same_address(a: &Address, b: &Address) -> (r: bool)
    ensures
        r == (*a == *b),
{
    a == b
}

/// `Env::current_contract_address`: the executing contract's own address, which
/// is a contract's.
#[verifier::external_body]
pub(crate) fn current_contract_address(env: &Env) -> (r: Address)
    requires
        invocation(*env).in_contract,
    ensures
        r == invocation(*env).contract,
        names_contract(r),
{
    env.current_contract_address()
}

/// `Ledger::timestamp`: the close time of the current ledger.
#[verifier::external_body]
pub(crate) fn ledger_timestamp(env: &Env) -> (r: u64)
    requires
        invocation(*env).in_contract,
    ensures
        r == invocation(*env).timestamp,
{
    env.ledger().timestamp()
}

/// `Address::require_auth`: demands that `address` has authorized the current
/// invocation. It panics if that is not so, and when it is asked of one address
/// a second time.
#[verifier::external_body]
pub(crate) fn require_auth(env: &mut Env, address: &Address)
    requires
        invocation(*old(env)).in_contract,
        invocation(*old(env)).authorized.contains(*address),
        !contents(*old(env)).auth_checked.contains(*address),
    ensures
        invocation(*final(env)) == invocation(*old(env)),
        contents(*final(env)) == (Contents {
            auth_checked: contents(*old(env)).auth_checked.insert(*address),
            ..contents(*old(env))
        }),
{
    let _ = env;
    address.require_auth()
}

/// `Persistent::has`: whether persistent storage has an entry under the key. An
/// entry that is no longer alive would be restored or end the invocation.
#[verifier::external_body]
pub(crate) fn persistent_has(env: &Env, key: &EntryKey) -> (r: bool)
    requires
        invocation(*env).in_contract,
        is_symbol(key@.name),
        alive(invocation(*env), contents(*env), key@),
    ensures
        r == contents(*env).persistent.contains_key(key@),
{
    let mut parts = soroban_sdk::Vec::from_array(env, [Symbol::new(env, key.name).to_val()]);
    for address in &key.subject {
        parts.push_back(address.to_val());
    }
    env.storage().persistent().has(&parts)
}

/// `Persistent::get`: the value of the entry under the key, if there is one. It
/// panics if that value is not of type `V`; an entry that is no longer alive would
/// be restored or end the invocation.
#[verifier::external_body]
pub(crate) fn persistent_get<V: Stored + TryFromVal<Env, Val>>(
    env: &Env,
    key: &EntryKey,
) -> (r: Option<V>) where V::Error: core::fmt::Debug
    requires
        invocation(*env).in_contract,
        is_symbol(key@.name),
        alive(invocation(*env), contents(*env), key@),
        contents(*env).persistent.contains_key(key@) ==> V::accepts(contents(*env).persistent[key@]),
    ensures
        r is Some <==> contents(*env).persistent.contains_key(key@),
        r is Some ==> r->0.value() == contents(*env).persistent[key@],
{
    let mut parts = soroban_sdk::Vec::from_array(env, [Symbol::new(env, key.name).to_val()]);
    for address in &key.subject {
        parts.push_back(address.to_val());
    }
    env.storage().persistent().get(&parts)
}

/// `Persistent::set`: puts the value under the key in persistent storage. An
/// entry that was there keeps its life, and one that is no longer alive would be
/// restored or end the invocation; a new one gets the life that the network grants
/// it. It panics if that life reaches beyond the last ledger number.
#[verifier::external_body]
pub(crate) fn persistent_set<V: Stored + IntoVal<Env, Val>>(
    env: &mut Env,
    key: &EntryKey,
    value: &V,
)
    requires
        invocation(*old(env)).in_contract,
        is_symbol(key@.name),
        alive(invocation(*old(env)), contents(*old(env)), key@),
        last_ledger(invocation(*old(env)), invocation(*old(env)).min_ttl) <= u32::MAX,
    ensures
        invocation(*final(env)) == invocation(*old(env)),
        contents(*final(env)) == with_persistent(
            invocation(*old(env)),
            contents(*old(env)),
            key@,
            value.value(),
        ),
{
    let mut parts = soroban_sdk::Vec::from_array(env, [Symbol::new(env, key.name).to_val()]);
    for address in &key.subject {
        parts.push_back(address.to_val());
    }
    env.storage().persistent().set(&parts, value)
}

/// `Persistent::extend_ttl`: extends the life of the entry under the key to
/// `extend_to` ledgers from now, or as far as the network grants, if no more than
/// `threshold` ledgers of it are left; it never shortens a life. It panics if
/// there is no live entry under the key, if `threshold` exceeds `extend_to`, or if
/// the longest life that the network grants reaches beyond the last ledger number.
#[verifier::external_body]
pub(crate) fn persistent_extend_ttl(
    env: &mut Env,
    key: &EntryKey,
    threshold: u32,
    extend_to: u32,
)
    requires
        invocation(*old(env)).in_contract,
        is_symbol(key@.name),
        contents(*old(env)).persistent.contains_key(key@),
        alive(invocation(*old(env)), contents(*old(env)), key@),
        threshold <= extend_to,
        last_ledger(invocation(*old(env)), invocation(*old(env)).max_ttl) <= u32::MAX,
    ensures
        invocation(*final(env)) == invocation(*old(env)),
        contents(*final(env)) == (Contents {
            live_until: contents(*old(env)).live_until.insert(
                key@,
                extended(
                    invocation(*old(env)),
                    contents(*old(env)).live_until[key@],
                    threshold,
                    extend_to,
                ),
            ),
            ..contents(*old(env))
        }),
{
    let mut parts = soroban_sdk::Vec::from_array(env, [Symbol::new(env, key.name).to_val()]);
    for address in &key.subject {
        parts.push_back(address.to_val());
    }
    env.storage().persistent().extend_ttl(&parts, threshold, extend_to)
}

/// `Instance::get`: the value of the entry under the key in instance storage, if
/// there is one. It panics if that value is not of type `V`.
#[verifier::external_body]
pub(crate) fn instance_get<V: Stored + TryFromVal<Env, Val>>(
    env: &Env,
    key: &EntryKey,
) -> (r: Option<V>) where V::Error: core::fmt::Debug
    requires
        invocation(*env).in_contract,
        is_symbol(key@.name),
        contents(*env).instance.contains_key(key@) ==> V::accepts(contents(*env).instance[key@]),
    ensures
        r is Some <==> contents(*env).instance.contains_key(key@),
        r is Some ==> r->0.value() == contents(*env).instance[key@],
{
    let mut parts = soroban_sdk::Vec::from_array(env, [Symbol::new(env, key.name).to_val()]);
    for address in &key.subject {
        parts.push_back(address.to_val());
    }
    env.storage().instance().get(&parts)
}

/// `Instance::set`: puts the value under the key in instance storage.
#[verifier::external_body]
pub(crate) fn instance_set<V: Stored + IntoVal<Env, Val>>(
    env: &mut Env,
    key: &EntryKey,
    value: &V,
)
    requires
        invocation(*old(env)).in_contract,
        is_symbol(key@.name),
    ensures
        invocation(*final(env)) == invocation(*old(env)),
        contents(*final(env)) == (Contents {
            instance: contents(*old(env)).instance.insert(
                key@,
                value.value(),
            ),
            ..contents(*old(env))
        }),
{
    let mut parts = soroban_sdk::Vec::from_array(env, [Symbol::new(env, key.name).to_val()]);
    for address in &key.subject {
        parts.push_back(address.to_val());
    }
    env.storage().instance().set(&parts, value)
}

/// `Instance::remove`: removes the entry under the key from instance storage, if
/// there is one.
#[verifier::external_body]
pub(crate) fn instance_remove(env: &mut Env, key: &EntryKey)
    requires
        invocation(*old(env)).in_contract,
        is_symbol(key@.name),
    ensures
        invocation(*final(env)) == invocation(*old(env)),
        contents(*final(env)) == (Contents {
            instance: contents(*old(env)).instance.remove(
                key@,
            ),
            ..contents(*old(env))
        }),
{
    let mut parts = soroban_sdk::Vec::from_array(env, [Symbol::new(env, key.name).to_val()]);
    for address in &key.subject {
        parts.push_back(address.to_val());
    }
    env.storage().instance().remove(&parts)
}

/// `Events::publish`: publishes an event with one topic.
#[allow(deprecated)]
#[verifier::external_body]
pub(crate) fn publish<D: EventData + IntoVal<Env, Val>>(env: &mut Env, topic: &str, data: D)
    requires
        invocation(*old(env)).in_contract,
        is_symbol(topic@),
    ensures
        invocation(*final(env)) == invocation(*old(env)),
        contents(*final(env)) == (Contents {
            published: contents(*old(env)).published.push(
                Event { topic: topic@, data: data.values() },
            ),
            ..contents(*old(env))
        }),
{
    env.events().publish((Symbol::new(env, topic),), data)
}

/// `TokenClient::try_balance`: asks the contract at `token` for the balance of
/// `holder`; `None` if the call fails or answers with no balance. The host lets no
/// contract re-enter the executing one, so nothing of the executing contract
/// changes; the call is put on record. It panics if `token` is not a contract's address. What a token answers
/// is up to its contract.
#[verifier::external_body]
pub(crate) fn try_balance(env: &mut Env, token: &Address, holder: &Address) -> (r: Option<i128>)
    requires
        invocation(*old(env)).in_contract,
        names_contract(*token),
    ensures
        r == token_answer(*old(env), *token, *holder),
        invocation(*final(env)) == invocation(*old(env)),
        contents(*final(env)) == with_token_call(
            contents(*old(env)),
            *token,
            TokenRequest::Balance { holder: *holder },
        ),
{
    TokenClient::new(env, token).try_balance(holder).ok()?.ok()
}

/// `TokenClient::try_transfer`: asks the contract at `token` to transfer `amount`
/// from `from` to `to`; whether it reports success. The host lets no contract
/// re-enter the executing one, so nothing of the executing contract changes; the
/// call is put on record, and the transfer too if it succeeds. It panics if `token` is not a contract's address.
/// Whether a transfer succeeds is up to the token's contract.
#[verifier::external_body]
pub(crate) fn try_transfer(
    env: &mut Env,
    token: &Address,
    from: &Address,
    to: &Address,
    amount: i128,
) -> (r: bool)
    requires
        invocation(*old(env)).in_contract,
        names_contract(*token),
    ensures
        r == transfer_answer(*old(env), *token, *from, *to, amount),
        invocation(*final(env)) == invocation(*old(env)),
        contents(*final(env)) == (Contents {
            transfers: if r {
                contents(*old(env)).transfers.push(
                    Transfer { token: *token, from: *from, to: *to, amount },
                )
            } else {
                contents(*old(env)).transfers
            },
            ..with_token_call(
                contents(*old(env)),
                *token,
                TokenRequest::Transfer { from: *from, to: *to, amount },
            )
        }),
{
    matches!(TokenClient::new(env, token).try_transfer(from, to, &amount), Ok(Ok(())))
}

/// `Deployer::update_current_contract_wasm`: has the executing contract replaced
/// by the Wasm blob with the given hash once the invocation has succeeded. It
/// panics if there is no such blob on the ledger.
#[allow(deprecated)]
#[verifier::external_body]
pub(crate) fn update_current_contract_wasm(env: &mut Env, wasm_hash: BytesN<32>)
    requires
        invocation(*old(env)).in_contract,
        invocation(*old(env)).uploaded.contains(wasm_hash),
    ensures
        invocation(*final(env)) == invocation(*old(env)),
        contents(*final(env)) == (Contents {
            replacement: Some(wasm_hash),
            ..contents(*old(env))
        }),
{
    env.deployer().update_current_contract_wasm(wasm_hash)
}

} // verus!
