//! The whitelist policy: which recipients may receive disbursed funds.
//!
//! An entry is created once for an address, by the admin, and is never
//! deleted. Afterwards only `is_active` changes: `remove_whitelist` turns it
//! off where it is on, `toggle_whitelist` sets it to either state.

use vstd::prelude::*;
use crate::accounts::{label_len, AddWhitelist, RemoveWhitelist, ToggleWhitelist, WhitelistEntry, MAX_LABEL_LEN};
use crate::errors::{EscrowError, FundError};
use crate::identity::Identity;

verus! {

impl AddWhitelist {
    /// How the creation of an entry with `label` ends. The caller is checked
    /// first, then the label, then the place of the entry, then the counter.
    pub open spec fn result(self, label: Seq<char>) -> Result<(), EscrowError> {
        if self.admin != self.fund_account.admin {
            Err(EscrowError::Fund(FundError::UnauthorizedAdmin))
        } else if label_len(label) > MAX_LABEL_LEN {
            Err(EscrowError::Fund(FundError::LabelTooLong))
        } else if self.whitelist_entry is Some {
            Err(EscrowError::EntryAlreadyExists)
        } else if self.fund_account.whitelist_count == u16::MAX {
            Err(EscrowError::Arithmetic)
        } else {
            Ok(())
        }
    }

    /// These accounts after the entry for `address` was created at `now`.
    pub open spec fn added(self, address: Identity, label: String, now: i64) -> AddWhitelist {
        AddWhitelist {
            fund_account: self.fund_account.counting_one_more(),
            whitelist_entry: Some(WhitelistEntry::created(address, label, self.admin, now)),
            ..self
        }
    }
}

impl RemoveWhitelist {
    /// How the removal ends. The caller is checked first, then the entry.
    pub open spec fn result(self) -> Result<(), EscrowError> {
        if self.admin != self.fund_account.admin {
            Err(EscrowError::Fund(FundError::UnauthorizedAdmin))
        } else if !self.whitelist_entry.is_active {
            Err(EscrowError::Fund(FundError::WhitelistEntryNotActive))
        } else {
            Ok(())
        }
    }

    /// These accounts after the removal.
    pub open spec fn removed(self) -> RemoveWhitelist {
        RemoveWhitelist { whitelist_entry: self.whitelist_entry.with_active(false), ..self }
    }
}

impl ToggleWhitelist {
    /// How setting `is_active` ends: it needs the admin and nothing else.
    pub open spec fn result(self) -> Result<(), EscrowError> {
        if self.admin != self.fund_account.admin {
            Err(EscrowError::Fund(FundError::UnauthorizedAdmin))
        } else {
            Ok(())
        }
    }

    /// These accounts after the entry was set to `is_active`.
    pub open spec fn toggled(self, is_active: bool) -> ToggleWhitelist {
        ToggleWhitelist { whitelist_entry: self.whitelist_entry.with_active(is_active), ..self }
    }
}

/// Creates the whitelist entry of `address`, active, stamped with the caller
/// and with `now`, and counts it. Only the admin may do so, the label may
/// not be longer than `MAX_LABEL_LEN` bytes, and the address may not have an
/// entry yet.
pub fn add_whitelist(ctx: &mut AddWhitelist, address: Identity, label: String, now: i64) -> (r: Result<(), EscrowError>)
    ensures
        r == old(ctx).result(label@),
        r is Ok ==> *final(ctx) == old(ctx).added(address, label, now),
        r is Ok ==> final(ctx).whitelist_entry is Some && final(ctx).whitelist_entry->0.wf()
            && final(ctx).whitelist_entry->0.authorises(address),
        r is Err ==> *final(ctx) == *old(ctx),
        old(ctx).admin != old(ctx).fund_account.admin ==> r == Err::<(), EscrowError>(
            EscrowError::Fund(FundError::UnauthorizedAdmin),
        ),
{
    if ctx.admin != ctx.fund_account.admin {
        return Err(EscrowError::Fund(FundError::UnauthorizedAdmin));
    }
    if label.as_str().as_bytes().len() > MAX_LABEL_LEN {
        return Err(EscrowError::Fund(FundError::LabelTooLong));
    }
    if ctx.whitelist_entry.is_some() {
        return Err(EscrowError::EntryAlreadyExists);
    }
    match ctx.fund_account.whitelist_count.checked_add(1) {
        None => Err(EscrowError::Arithmetic),
        Some(count) => {
            ctx.whitelist_entry = Some(
                WhitelistEntry { address, label, is_active: true, added_by: ctx.admin, added_at: now },
            );
            ctx.fund_account.whitelist_count = count;
            Ok(())
        },
    }
}

/// Makes an entry inactive. Only the admin may do so, and only while the
/// entry is active.
pub fn remove_whitelist(ctx: &mut RemoveWhitelist) -> (r: Result<(), EscrowError>)
    ensures
        r == old(ctx).result(),
        r is Ok ==> *final(ctx) == old(ctx).removed(),
        r is Ok ==> !final(ctx).whitelist_entry.is_active,
        r is Err ==> *final(ctx) == *old(ctx),
        old(ctx).admin != old(ctx).fund_account.admin ==> r == Err::<(), EscrowError>(
            EscrowError::Fund(FundError::UnauthorizedAdmin),
        ),
        final(ctx).whitelist_entry.address == old(ctx).whitelist_entry.address,
        old(ctx).whitelist_entry.wf() ==> final(ctx).whitelist_entry.wf(),
{
    if ctx.admin != ctx.fund_account.admin {
        return Err(EscrowError::Fund(FundError::UnauthorizedAdmin));
    }
    if !ctx.whitelist_entry.is_active {
        return Err(EscrowError::Fund(FundError::WhitelistEntryNotActive));
    }
    ctx.whitelist_entry.is_active = false;
    Ok(())
}

/// Makes an entry active or inactive, whatever it was. Only the admin
/// may do so.
pub fn toggle_whitelist(ctx: &mut ToggleWhitelist, is_active: bool) -> (r: Result<(), EscrowError>)
    ensures
        r == old(ctx).result(),
        r is Ok ==> *final(ctx) == old(ctx).toggled(is_active),
        r is Ok ==> final(ctx).whitelist_entry.is_active == is_active,
        r is Err ==> *final(ctx) == *old(ctx),
        old(ctx).admin != old(ctx).fund_account.admin ==> r == Err::<(), EscrowError>(
            EscrowError::Fund(FundError::UnauthorizedAdmin),
        ),
        final(ctx).whitelist_entry.address == old(ctx).whitelist_entry.address,
        old(ctx).whitelist_entry.wf() ==> final(ctx).whitelist_entry.wf(),
{
    if ctx.admin != ctx.fund_account.admin {
        return Err(EscrowError::Fund(FundError::UnauthorizedAdmin));
    }
    ctx.whitelist_entry.is_active = is_active;
    Ok(())
}

/// Setting an entry again to the state it was just set to succeeds and
/// changes nothing.
pub proof fn lemma_toggle_repeats(ctx: ToggleWhitelist, is_active: bool)
    requires
        ctx.result() is Ok,
    ensures
        ctx.toggled(is_active).result() is Ok,
        ctx.toggled(is_active).toggled(is_active) == ctx.toggled(is_active),
{
}

/// A removal right after a removal that succeeded is refused: the entry is
/// not active any more.
pub proof fn lemma_remove_twice_fails(ctx: RemoveWhitelist)
    requires
        ctx.result() is Ok,
    ensures
        ctx.removed().result() == Err::<(), EscrowError>(
            EscrowError::Fund(FundError::WhitelistEntryNotActive),
        ),
{
}

} // verus!
