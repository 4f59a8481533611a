//! The escrow ledger: creation, deposit, disbursement and admin rotation.
//!
//! A deposit and a disbursement each go with one transfer by the custody of
//! the asset. The ledger does not make the transfer. It says which transfer
//! an operation needs, and it takes the custody's answer to finish the
//! operation: the counter moves only when the transfer was made.

use vstd::prelude::*;
use crate::accounts::{AllocateFunds, FundAccount, Initialize, SetAdmin, StoreFunds};
use crate::authority::{Authority, Transfer};
use crate::errors::{EscrowError, FundError, TransferError};
use crate::identity::Identity;

verus! {

impl Initialize {
    /// These accounts once the fund account is created for `admin`.
    pub open spec fn created(self, admin: Identity) -> Initialize {
        Initialize { fund_account: Some(FundAccount::created(admin, self.bump)), ..self }
    }
}

impl StoreFunds {
    /// The transfer that a deposit of `amount` needs: from the depositor's
    /// custody account to the escrow's, signed by the depositor.
    pub open spec fn transfer(self, amount: u64) -> Transfer {
        Transfer {
            from: self.from_token_account.key,
            to: self.fund_token_account.key,
            authority: Authority::Owner(self.authority),
            amount,
        }
    }

    /// How a deposit of `amount` ends when the custody answered `outcome`.
    pub open spec fn result(self, amount: u64, outcome: Result<(), TransferError>) -> Result<(), EscrowError> {
        match outcome {
            Err(e) => Err(EscrowError::Transfer(e)),
            Ok(_) => if self.fund_account.can_hold(amount) {
                Ok(())
            } else {
                Err(EscrowError::Arithmetic)
            },
        }
    }

    /// These accounts after a deposit of `amount`.
    pub open spec fn credited(self, amount: u64) -> StoreFunds {
        StoreFunds { fund_account: self.fund_account.credited(amount), ..self }
    }
}

impl AllocateFunds {
    /// The recipient of the disbursement: the owner of the receiving account.
    pub open spec fn recipient(self) -> Identity {
        self.to_token_account.owner
    }

    /// Whether the recipient has a whitelist entry that is active.
    pub open spec fn recipient_active(self) -> bool {
        match self.whitelist_entry {
            Some(entry) => entry.is_active,
            None => false,
        }
    }

    /// Whether the recipient has an active whitelist entry for its address.
    pub open spec fn recipient_whitelisted(self) -> bool {
        match self.whitelist_entry {
            Some(entry) => entry.authorises(self.recipient()),
            None => false,
        }
    }

    /// The first rule that a disbursement of `amount` breaks, if it breaks
    /// one. The caller is checked first, then the amount, then the entry.
    pub open spec fn rejection(self, amount: u64) -> Option<FundError> {
        if self.admin != self.fund_account.admin {
            Some(FundError::UnauthorizedAdmin)
        } else if amount > self.fund_account.total_funds {
            Some(FundError::InsufficientFunds)
        } else if !self.recipient_active() {
            Some(FundError::RecipientNotWhitelisted)
        } else if !self.recipient_whitelisted() {
            Some(FundError::WhitelistAddressMismatch)
        } else {
            None
        }
    }

    /// The transfer that a disbursement of `amount` needs: from the escrow's
    /// custody account to the recipient's, authorised by the escrow.
    pub open spec fn transfer(self, amount: u64) -> Transfer {
        Transfer {
            from: self.fund_token_account.key,
            to: self.to_token_account.key,
            authority: Authority::Escrow(self.fund_account.bump),
            amount,
        }
    }

    /// How a disbursement of `amount` ends when the custody, if it was
    /// asked, answered `outcome`.
    pub open spec fn result(self, amount: u64, outcome: Result<(), TransferError>) -> Result<(), EscrowError> {
        match self.rejection(amount) {
            Some(e) => Err(EscrowError::Fund(e)),
            None => match outcome {
                Err(e) => Err(EscrowError::Transfer(e)),
                Ok(_) => Ok(()),
            },
        }
    }

    /// These accounts after a disbursement of `amount`.
    pub open spec fn debited(self, amount: u64) -> AllocateFunds {
        AllocateFunds { fund_account: self.fund_account.debited(amount), ..self }
    }
}

impl SetAdmin {
    /// These accounts after the admin was replaced by `new_admin`.
    pub open spec fn rotated(self, new_admin: Identity) -> SetAdmin {
        SetAdmin { fund_account: self.fund_account.administered_by(new_admin), ..self }
    }
}

/// Creates the fund account for `admin`, with nothing in custody and no
/// whitelist entry counted. A second creation in the same place is refused.
pub fn initialize(ctx: &mut Initialize, admin: Identity) -> (r: Result<(), EscrowError>)
    ensures
        old(ctx).fund_account is Some ==> r == Err::<(), EscrowError>(EscrowError::AlreadyInitialized),
        old(ctx).fund_account is None ==> r is Ok,
        r is Ok ==> *final(ctx) == old(ctx).created(admin),
        r is Err ==> *final(ctx) == *old(ctx),
{
    if ctx.fund_account.is_some() {
        return Err(EscrowError::AlreadyInitialized);
    }
    ctx.fund_account = Some(
        FundAccount { admin, total_funds: 0, bump: ctx.bump, whitelist_count: 0 },
    );
    Ok(())
}

/// The transfer to ask of the custody for a deposit of `amount`. Anyone may
/// deposit: no rule stands before the transfer.
pub fn store_funds_transfer(ctx: &StoreFunds, amount: u64) -> (t: Transfer)
    ensures
        t == ctx.transfer(amount),
{
    Transfer {
        from: ctx.from_token_account.key,
        to: ctx.fund_token_account.key,
        authority: Authority::Owner(ctx.authority),
        amount,
    }
}

/// Finishes a deposit of `amount`, given the custody's answer to the
/// transfer of `store_funds_transfer`. The counter grows by `amount` when
/// the transfer was made and the sum fits; else nothing changes.
pub fn store_funds(ctx: &mut StoreFunds, amount: u64, outcome: Result<(), TransferError>) -> (r: Result<(), EscrowError>)
    ensures
        r == old(ctx).result(amount, outcome),
        r is Ok ==> *final(ctx) == old(ctx).credited(amount),
        r is Ok ==> final(ctx).fund_account.total_funds == old(ctx).fund_account.total_funds + amount,
        r is Err ==> *final(ctx) == *old(ctx),
{
    match outcome {
        Err(e) => Err(EscrowError::Transfer(e)),
        Ok(_) => match ctx.fund_account.total_funds.checked_add(amount) {
            None => Err(EscrowError::Arithmetic),
            Some(total) => {
                ctx.fund_account.total_funds = total;
                Ok(())
            },
        },
    }
}

/// Checks a disbursement of `amount` and gives the transfer to ask of the
/// custody for it. The caller must be the admin, the amount must be in
/// custody, and the recipient must have an active whitelist entry for its
/// own address.
pub fn allocate_funds_transfer(ctx: &AllocateFunds, amount: u64) -> (r: Result<Transfer, EscrowError>)
    ensures
        r == match ctx.rejection(amount) {
            Some(e) => Err::<Transfer, EscrowError>(EscrowError::Fund(e)),
            None => Ok(ctx.transfer(amount)),
        },
{
    if ctx.admin != ctx.fund_account.admin {
        return Err(EscrowError::Fund(FundError::UnauthorizedAdmin));
    }
    if amount > ctx.fund_account.total_funds {
        return Err(EscrowError::Fund(FundError::InsufficientFunds));
    }
    match &ctx.whitelist_entry {
        None => {
            return Err(EscrowError::Fund(FundError::RecipientNotWhitelisted));
        },
        Some(entry) => {
            if !entry.is_active {
                return Err(EscrowError::Fund(FundError::RecipientNotWhitelisted));
            }
            if entry.address != ctx.to_token_account.owner {
                return Err(EscrowError::Fund(FundError::WhitelistAddressMismatch));
            }
        },
    }
    Ok(
        Transfer {
            from: ctx.fund_token_account.key,
            to: ctx.to_token_account.key,
            authority: Authority::Escrow(ctx.fund_account.bump),
            amount,
        },
    )
}

/// Disburses `amount` to the recipient, given the custody's answer to the
/// transfer of `allocate_funds_transfer`. The rules are checked before the
/// answer is looked at. The counter shrinks by `amount` when no rule is
/// broken and the transfer was made; else nothing changes.
pub fn allocate_funds(ctx: &mut AllocateFunds, amount: u64, outcome: Result<(), TransferError>) -> (r: Result<(), EscrowError>)
    ensures
        r == old(ctx).result(amount, outcome),
        r is Ok ==> *final(ctx) == old(ctx).debited(amount),
        r is Ok ==> final(ctx).fund_account.total_funds == old(ctx).fund_account.total_funds - amount,
        r is Err ==> *final(ctx) == *old(ctx),
        // Only the admin disburses.
        old(ctx).admin != old(ctx).fund_account.admin ==> r == Err::<(), EscrowError>(
            EscrowError::Fund(FundError::UnauthorizedAdmin),
        ),
        // Never more than is in custody.
        old(ctx).admin == old(ctx).fund_account.admin && amount > old(ctx).fund_account.total_funds
            ==> r == Err::<(), EscrowError>(EscrowError::Fund(FundError::InsufficientFunds)),
        // Never to a recipient without an active entry.
        old(ctx).admin == old(ctx).fund_account.admin && amount <= old(ctx).fund_account.total_funds
            && !old(ctx).recipient_active() ==> r == Err::<(), EscrowError>(
            EscrowError::Fund(FundError::RecipientNotWhitelisted),
        ),
        !old(ctx).recipient_whitelisted() ==> r is Err,
        r is Ok <==> old(ctx).admin == old(ctx).fund_account.admin && amount <= old(
            ctx,
        ).fund_account.total_funds && old(ctx).recipient_whitelisted() && outcome is Ok,
{
    match allocate_funds_transfer(ctx, amount) {
        Err(e) => Err(e),
        Ok(_) => match outcome {
            Err(e) => Err(EscrowError::Transfer(e)),
            Ok(_) => {
                ctx.fund_account.total_funds = ctx.fund_account.total_funds - amount;
                Ok(())
            },
        },
    }
}

/// Replaces the admin by `new_admin`. Only the admin may do so; the new
/// admin is not examined.
pub fn set_admin(ctx: &mut SetAdmin, new_admin: Identity) -> (r: Result<(), EscrowError>)
    ensures
        old(ctx).current_admin != old(ctx).fund_account.admin ==> r == Err::<(), EscrowError>(
            EscrowError::Fund(FundError::UnauthorizedAdmin),
        ),
        old(ctx).current_admin == old(ctx).fund_account.admin ==> r is Ok,
        r is Ok ==> *final(ctx) == old(ctx).rotated(new_admin),
        r is Err ==> *final(ctx) == *old(ctx),
{
    if ctx.current_admin != ctx.fund_account.admin {
        return Err(EscrowError::Fund(FundError::UnauthorizedAdmin));
    }
    ctx.fund_account.admin = new_admin;
    Ok(())
}

} // verus!
