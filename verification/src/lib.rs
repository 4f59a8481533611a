//! A custodial fund escrow: a ledger of custodied value, an admin principal,
//! and a whitelist of recipients that disbursements may go to.

pub mod accounts;
pub mod authority;
pub mod conservation;
pub mod errors;
pub mod identity;
pub mod instance_registry;
pub mod ledger;
pub mod whitelist;
