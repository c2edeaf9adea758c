//! The keys of the treasury's storage.

use crate::host::{is_symbol, EntryKey, RawKey};
use soroban_sdk::Address;
use vstd::prelude::*;

verus! {

/// The entries of the treasury's storage.
pub enum DataKey {
    /// Admin address; persistent, so that it survives ledger archival.
    Admin,
    /// Protocol fee in basis points; persistent for durability.
    FeeBps,
    /// Accumulated fees per token (informational).
    Collected(Address),
    /// Whitelisted token flag.
    WhitelistedToken(Address),
    /// Pending upgrade proposal: the Wasm hash and the time of the proposal.
    UpgradeProposal,
    /// Reentrancy guard flag (instance-level).
    WithdrawalLock,
    /// Maximum total withdrawal allowed per epoch (0 = uncapped).
    WithdrawalCap,
    /// Pending cap change proposal: the new cap and the time of the proposal.
    WithdrawalCapProposal,
    /// Timestamp when the current rate-limit epoch started.
    EpochStart,
    /// Total withdrawn in the current epoch (resets each epoch).
    EpochWithdrawn,
}

impl DataKey {
    /// The symbol of the key.
    pub open spec fn spec_name(self) -> Seq<char> {
        match self {
            DataKey::Admin => "Admin"@,
            DataKey::FeeBps => "FeeBps"@,
            DataKey::Collected(_) => "Collected"@,
            DataKey::WhitelistedToken(_) => "WhitelistedToken"@,
            DataKey::UpgradeProposal => "UpgradeProposal"@,
            DataKey::WithdrawalLock => "WithdrawalLock"@,
            DataKey::WithdrawalCap => "WithdrawalCap"@,
            DataKey::WithdrawalCapProposal => "WithdrawalCapProposal"@,
            DataKey::EpochStart => "EpochStart"@,
            DataKey::EpochWithdrawn => "EpochWithdrawn"@,
        }
    }

    /// The address that the key is about.
    pub open spec fn spec_subject(self) -> Option<Address> {
        match self {
            DataKey::Collected(token) => Some(token),
            DataKey::WhitelistedToken(token) => Some(token),
            _ => None,
        }
    }

    /// The key as the host sees it.
    pub open spec fn raw(self) -> RawKey {
        RawKey { name: self.spec_name(), subject: self.spec_subject() }
    }

    /// The key to hand to the host.
    pub fn entry(&self) -> (r: EntryKey)
        ensures
            r@ == self.raw(),
            is_symbol(r@.name),
    {
        proof {
            lemma_keys();
        }
        match self {
            DataKey::Admin => EntryKey { name: "Admin", subject: None },
            DataKey::FeeBps => EntryKey { name: "FeeBps", subject: None },
            DataKey::Collected(token) => EntryKey {
                name: "Collected",
                subject: Some(token.clone()),
            },
            DataKey::WhitelistedToken(token) => EntryKey {
                name: "WhitelistedToken",
                subject: Some(token.clone()),
            },
            DataKey::UpgradeProposal => EntryKey { name: "UpgradeProposal", subject: None },
            DataKey::WithdrawalLock => EntryKey { name: "WithdrawalLock", subject: None },
            DataKey::WithdrawalCap => EntryKey { name: "WithdrawalCap", subject: None },
            DataKey::WithdrawalCapProposal => EntryKey {
                name: "WithdrawalCapProposal",
                subject: None,
            },
            DataKey::EpochStart => EntryKey { name: "EpochStart", subject: None },
            DataKey::EpochWithdrawn => EntryKey { name: "EpochWithdrawn", subject: None },
        }
    }
}

/// Every key symbol can be spelled, and no two keys look alike to the host.
pub proof fn lemma_keys()
    ensures
        forall|k: DataKey| is_symbol(#[trigger] k.spec_name()),
        forall|a: DataKey, b: DataKey| #[trigger] a.raw() == #[trigger] b.raw() ==> a == b,
{
    reveal_strlit("Admin");
    reveal_strlit("FeeBps");
    reveal_strlit("Collected");
    reveal_strlit("WhitelistedToken");
    reveal_strlit("UpgradeProposal");
    reveal_strlit("WithdrawalLock");
    reveal_strlit("WithdrawalCap");
    reveal_strlit("WithdrawalCapProposal");
    reveal_strlit("EpochStart");
    reveal_strlit("EpochWithdrawn");
    assert forall|a: DataKey, b: DataKey| #[trigger] a.raw() == #[trigger] b.raw() implies a
        == b by {
        assert(a.spec_name().len() == b.spec_name().len());
        assert(a.spec_name()[0] == b.spec_name()[0]);
    }
}

} // verus!
