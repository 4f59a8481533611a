//! The records that the fund manager keeps, and the accounts that each of
//! its operations is given.

use vstd::prelude::*;
use vstd::utf8::encode_utf8;
use crate::identity::Identity;

verus! {

/// The longest label of a whitelist entry, in bytes.
pub const MAX_LABEL_LEN: usize = 64;

/// The length of a label as it is stored: the number of bytes of its UTF-8
/// form.
pub open spec fn label_len(label: Seq<char>) -> nat {
    encode_utf8(label).len()
}

/// The ledger of the escrow. There is one per deployment.
#[derive(Clone, Copy, Debug, PartialEq, Eq)]
pub struct FundAccount {
    /// The identity that may rotate the admin, disburse funds and maintain
    /// the whitelist.
    pub admin: Identity,
    /// The funds in custody.
    pub total_funds: u64,
    /// The nonce of the escrow authority, fixed at creation.
    pub bump: u8,
    /// The number of whitelist entries ever created. It never goes down.
    pub whitelist_count: u16,
}

impl FundAccount {
    /// The ledger as `initialize` creates it.
    pub open spec fn created(admin: Identity, bump: u8) -> FundAccount {
        FundAccount { admin, total_funds: 0, bump, whitelist_count: 0 }
    }

    /// Whether `amount` more can be held without leaving the range of the
    /// counter.
    pub open spec fn can_hold(self, amount: u64) -> bool {
        self.total_funds + amount <= u64::MAX
    }

    /// This ledger with `amount` more in custody.
    pub open spec fn credited(self, amount: u64) -> FundAccount
        recommends
            self.can_hold(amount),
    {
        FundAccount { total_funds: (self.total_funds + amount) as u64, ..self }
    }

    /// This ledger with `amount` less in custody.
    pub open spec fn debited(self, amount: u64) -> FundAccount
        recommends
            amount <= self.total_funds,
    {
        FundAccount { total_funds: (self.total_funds - amount) as u64, ..self }
    }

    /// This ledger under the admin `new_admin`.
    pub open spec fn administered_by(self, new_admin: Identity) -> FundAccount {
        FundAccount { admin: new_admin, ..self }
    }

    /// This ledger with one more whitelist entry counted.
    pub open spec fn counting_one_more(self) -> FundAccount
        recommends
            self.whitelist_count < u16::MAX,
    {
        FundAccount { whitelist_count: (self.whitelist_count + 1) as u16, ..self }
    }
}

/// The record of one whitelisted recipient. It is created once for an
/// address and never deleted; after creation only `is_active` changes.
#[derive(Clone, Debug, PartialEq, Eq)]
pub struct WhitelistEntry {
    /// The recipient that this entry authorises.
    pub address: Identity,
    /// A note for human readers, at most `MAX_LABEL_LEN` bytes.
    pub label: String,
    /// Whether the recipient may receive funds now.
    pub is_active: bool,
    /// The admin that created the entry.
    pub added_by: Identity,
    /// When the entry was created.
    pub added_at: i64,
}

impl WhitelistEntry {
    /// The label fits the space that an entry has for it.
    pub open spec fn wf(self) -> bool {
        label_len(self.label@) <= MAX_LABEL_LEN
    }

    /// The entry as `add_whitelist` creates it.
    pub open spec fn created(address: Identity, label: String, added_by: Identity, added_at: i64) -> WhitelistEntry {
        WhitelistEntry { address, label, is_active: true, added_by, added_at }
    }

    /// This entry, active or not as `is_active` says.
    pub open spec fn with_active(self, is_active: bool) -> WhitelistEntry {
        WhitelistEntry { is_active, ..self }
    }

    /// Whether this entry lets `recipient` receive funds.
    pub open spec fn authorises(self, recipient: Identity) -> bool {
        self.is_active && self.address == recipient
    }
}

/// What the fund manager reads of a custody account of the asset.
#[derive(Clone, Copy, Debug, PartialEq, Eq)]
pub struct TokenAccount {
    /// The address of the custody account.
    pub key: Identity,
    /// The identity that owns what the account holds.
    pub owner: Identity,
}

/// The accounts of `initialize`.
#[derive(Clone, Copy, Debug, PartialEq, Eq)]
pub struct Initialize {
    /// The place of the fund account: empty until it is created.
    pub fund_account: Option<FundAccount>,
    /// The nonce with which the address of the fund account was derived.
    pub bump: u8,
}

/// The accounts of `store_funds`.
#[derive(Clone, Copy, Debug, PartialEq, Eq)]
pub struct StoreFunds {
    pub fund_account: FundAccount,
    /// The custody account that the deposit comes from.
    pub from_token_account: TokenAccount,
    /// The custody account of the escrow.
    pub fund_token_account: TokenAccount,
    /// The depositor, who signs for the transfer.
    pub authority: Identity,
}

/// The accounts of `allocate_funds`.
#[derive(Clone, Debug, PartialEq, Eq)]
pub struct AllocateFunds {
    pub fund_account: FundAccount,
    /// The custody account of the escrow.
    pub fund_token_account: TokenAccount,
    /// The custody account that the funds go to. Its owner is the recipient.
    pub to_token_account: TokenAccount,
    /// What is stored under the whitelist key of the recipient, if anything.
    pub whitelist_entry: Option<WhitelistEntry>,
    /// The caller.
    pub admin: Identity,
}

/// The accounts of `set_admin`.
#[derive(Clone, Copy, Debug, PartialEq, Eq)]
pub struct SetAdmin {
    pub fund_account: FundAccount,
    /// The caller.
    pub current_admin: Identity,
}

/// The accounts of `add_whitelist`.
#[derive(Clone, Debug, PartialEq, Eq)]
pub struct AddWhitelist {
    pub fund_account: FundAccount,
    /// The place of the entry under the whitelist key of the address: empty
    /// until the entry is created.
    pub whitelist_entry: Option<WhitelistEntry>,
    /// The caller.
    pub admin: Identity,
}

/// The accounts of `remove_whitelist`.
#[derive(Clone, Debug, PartialEq, Eq)]
pub struct RemoveWhitelist {
    pub fund_account: FundAccount,
    pub whitelist_entry: WhitelistEntry,
    /// The caller.
    pub admin: Identity,
}

/// The accounts of `toggle_whitelist`.
#[derive(Clone, Debug, PartialEq, Eq)]
pub struct ToggleWhitelist {
    pub fund_account: FundAccount,
    pub whitelist_entry: WhitelistEntry,
    /// The caller.
    pub admin: Identity,
}

} // verus!
