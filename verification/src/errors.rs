//! The failures that an operation can report.

use vstd::prelude::*;

verus! {

/// A rule of the fund manager that a request broke.
#[derive(Clone, Copy, Debug, PartialEq, Eq, Structural)]
pub enum FundError {
    /// The caller is not the admin of the fund account.
    UnauthorizedAdmin,
    /// The amount asked for is more than the fund account holds.
    InsufficientFunds,
    /// The recipient has no active whitelist entry.
    RecipientNotWhitelisted,
    /// The whitelist entry names another address than the recipient.
    WhitelistAddressMismatch,
    /// The whitelist entry to remove is already inactive.
    WhitelistEntryNotActive,
    /// The label of a whitelist entry is longer than the limit.
    LabelTooLong,
}

impl FundError {
    /// The text shown to a caller for this error.
    pub fn message(&self) -> (text: &'static str)
        ensures
            text@ == match *self {
                FundError::UnauthorizedAdmin => "Unauthorized admin access"@,
                FundError::InsufficientFunds => "Insufficient funds for allocation"@,
                FundError::RecipientNotWhitelisted => "Recipient address is not whitelisted"@,
                FundError::WhitelistAddressMismatch => "Whitelist address does not match token account owner"@,
                FundError::WhitelistEntryNotActive => "Whitelist entry is not active"@,
                FundError::LabelTooLong => "Label exceeds maximum length of 64 characters"@,
            },
    {
        match self {
            FundError::UnauthorizedAdmin => "Unauthorized admin access",
            FundError::InsufficientFunds => "Insufficient funds for allocation",
            FundError::RecipientNotWhitelisted => "Recipient address is not whitelisted",
            FundError::WhitelistAddressMismatch => "Whitelist address does not match token account owner",
            FundError::WhitelistEntryNotActive => "Whitelist entry is not active",
            FundError::LabelTooLong => "Label exceeds maximum length of 64 characters",
        }
    }
}

/// Why the custody of the asset refused a transfer.
#[derive(Clone, Copy, Debug, PartialEq, Eq, Structural)]
pub enum TransferError {
    /// The source account holds less than the amount.
    InsufficientBalance,
    /// One of the accounts is not a custody account of the asset.
    MalformedAccount,
    /// Any other refusal, with the code that the custody gave.
    Other(u64),
}

/// Why an operation on the escrow was aborted. An aborted operation leaves
/// every account as it was.
#[derive(Clone, Copy, Debug, PartialEq, Eq, Structural)]
pub enum EscrowError {
    /// A rule of the fund manager was broken.
    Fund(FundError),
    /// The fund account exists already.
    AlreadyInitialized,
    /// A whitelist entry for the address exists already.
    EntryAlreadyExists,
    /// A counter would leave the range of its type.
    Arithmetic,
    /// The custody refused the transfer.
    Transfer(TransferError),
}

} // verus!
