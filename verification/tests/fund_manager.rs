use anchor_lang::prelude::Pubkey;
use fund_escrow::accounts::{
    AddWhitelist, AllocateFunds, FundAccount, Initialize, RemoveWhitelist, SetAdmin, StoreFunds,
    ToggleWhitelist, TokenAccount, WhitelistEntry, MAX_LABEL_LEN,
};
use fund_escrow::authority::{
    escrow_authority, signer_seeds, whitelist_entry_address, whitelist_seeds, Authority, Transfer,
};
use fund_escrow::errors::{EscrowError, FundError, TransferError};
use fund_escrow::identity::Identity;
use fund_escrow::ledger::{
    allocate_funds, allocate_funds_transfer, initialize, set_admin, store_funds,
    store_funds_transfer,
};
use fund_escrow::whitelist::{add_whitelist, remove_whitelist, toggle_whitelist};

fn id(n: u8) -> Identity {
    Identity::new([n; 32])
}

fn account(key: u8, owner: u8) -> TokenAccount {
    TokenAccount { key: id(key), owner: id(owner) }
}

fn fresh_ledger(admin: Identity) -> FundAccount {
    let mut ctx = Initialize { fund_account: None, bump: 254 };
    assert_eq!(initialize(&mut ctx, admin), Ok(()));
    ctx.fund_account.unwrap()
}

fn deposit(fund: FundAccount, amount: u64) -> (Result<(), EscrowError>, FundAccount) {
    let mut ctx = StoreFunds {
        fund_account: fund,
        from_token_account: account(50, 51),
        fund_token_account: account(60, 61),
        authority: id(51),
    };
    let r = store_funds(&mut ctx, amount, Ok(()));
    (r, ctx.fund_account)
}

fn disburse(
    fund: FundAccount,
    entry: Option<WhitelistEntry>,
    caller: Identity,
    recipient: Identity,
    amount: u64,
) -> (Result<(), EscrowError>, FundAccount) {
    let mut ctx = AllocateFunds {
        fund_account: fund,
        fund_token_account: account(60, 61),
        to_token_account: TokenAccount { key: id(70), owner: recipient },
        whitelist_entry: entry,
        admin: caller,
    };
    let r = allocate_funds(&mut ctx, amount, Ok(()));
    (r, ctx.fund_account)
}

fn whitelisted(fund: FundAccount, admin: Identity, address: Identity, label: &str) -> (FundAccount, WhitelistEntry) {
    let mut ctx = AddWhitelist { fund_account: fund, whitelist_entry: None, admin };
    assert_eq!(add_whitelist(&mut ctx, address, label.to_string(), 1_700_000_000), Ok(()));
    (ctx.fund_account, ctx.whitelist_entry.unwrap())
}

#[test]
fn identities_compare_by_bytes() {
    let mut bytes = [9u8; 32];
    assert_eq!(Identity::new(bytes), id(9));
    bytes[31] = 8;
    assert_ne!(Identity::new(bytes), id(9));
    bytes[31] = 9;
    bytes[0] = 10;
    assert_ne!(Identity::new(bytes), id(9));
    assert_eq!(id(3).to_bytes(), vec![3u8; 32]);
}

#[test]
fn initialize_creates_an_empty_ledger() {
    let mut ctx = Initialize { fund_account: None, bump: 253 };
    assert_eq!(initialize(&mut ctx, id(1)), Ok(()));
    assert_eq!(
        ctx.fund_account,
        Some(FundAccount { admin: id(1), total_funds: 0, bump: 253, whitelist_count: 0 })
    );
    assert_eq!(ctx.bump, 253);
}

#[test]
fn initialize_twice_is_refused() {
    let mut ctx = Initialize { fund_account: None, bump: 253 };
    assert_eq!(initialize(&mut ctx, id(1)), Ok(()));
    let before = ctx;
    assert_eq!(initialize(&mut ctx, id(2)), Err(EscrowError::AlreadyInitialized));
    assert_eq!(ctx, before);
}

#[test]
fn store_funds_asks_for_the_depositors_transfer() {
    let ctx = StoreFunds {
        fund_account: fresh_ledger(id(1)),
        from_token_account: account(50, 51),
        fund_token_account: account(60, 61),
        authority: id(51),
    };
    assert_eq!(
        store_funds_transfer(&ctx, 1000),
        Transfer { from: id(50), to: id(60), authority: Authority::Owner(id(51)), amount: 1000 }
    );
}

#[test]
fn store_funds_needs_no_admin() {
    let fund = fresh_ledger(id(1));
    let (r, fund) = deposit(fund, 1000);
    assert_eq!(r, Ok(()));
    assert_eq!(fund.total_funds, 1000);
    assert_eq!(fund.admin, id(1));
    let (r, fund) = deposit(fund, 0);
    assert_eq!(r, Ok(()));
    assert_eq!(fund.total_funds, 1000);
}

#[test]
fn store_funds_keeps_the_counter_when_the_transfer_fails() {
    let mut ctx = StoreFunds {
        fund_account: FundAccount { admin: id(1), total_funds: 10, bump: 1, whitelist_count: 0 },
        from_token_account: account(50, 51),
        fund_token_account: account(60, 61),
        authority: id(51),
    };
    let before = ctx;
    assert_eq!(
        store_funds(&mut ctx, 5, Err(TransferError::InsufficientBalance)),
        Err(EscrowError::Transfer(TransferError::InsufficientBalance))
    );
    assert_eq!(ctx, before);
    assert_eq!(
        store_funds(&mut ctx, 5, Err(TransferError::MalformedAccount)),
        Err(EscrowError::Transfer(TransferError::MalformedAccount))
    );
    assert_eq!(
        store_funds(&mut ctx, 5, Err(TransferError::Other(17))),
        Err(EscrowError::Transfer(TransferError::Other(17)))
    );
    assert_eq!(ctx, before);
}

#[test]
fn store_funds_does_not_wrap() {
    let fund = FundAccount { admin: id(1), total_funds: u64::MAX - 5, bump: 1, whitelist_count: 0 };
    let (r, after) = deposit(fund, 6);
    assert_eq!(r, Err(EscrowError::Arithmetic));
    assert_eq!(after, fund);
    let (r, after) = deposit(fund, 5);
    assert_eq!(r, Ok(()));
    assert_eq!(after.total_funds, u64::MAX);
}

#[test]
fn deposit_and_disbursement_scenario() {
    let a = id(1);
    let r = id(2);
    let fund = fresh_ledger(a);
    let (res, fund) = deposit(fund, 1000);
    assert_eq!(res, Ok(()));
    assert_eq!(fund.total_funds, 1000);

    let (fund, entry) = whitelisted(fund, a, r, "partner");
    assert!(entry.is_active);
    assert_eq!(entry.address, r);
    assert_eq!(entry.label, "partner");
    assert_eq!(entry.added_by, a);
    assert_eq!(entry.added_at, 1_700_000_000);
    assert_eq!(fund.whitelist_count, 1);

    let (res, fund) = disburse(fund, Some(entry.clone()), a, r, 400);
    assert_eq!(res, Ok(()));
    assert_eq!(fund.total_funds, 600);

    let (res, fund) = disburse(fund, Some(entry.clone()), a, r, 700);
    assert_eq!(res, Err(EscrowError::Fund(FundError::InsufficientFunds)));
    assert_eq!(fund.total_funds, 600);

    let mut removal = RemoveWhitelist { fund_account: fund, whitelist_entry: entry, admin: a };
    assert_eq!(remove_whitelist(&mut removal), Ok(()));
    assert!(!removal.whitelist_entry.is_active);

    let (res, fund) = disburse(fund, Some(removal.whitelist_entry), a, r, 100);
    assert_eq!(res, Err(EscrowError::Fund(FundError::RecipientNotWhitelisted)));
    assert_eq!(fund.total_funds, 600);
}

#[test]
fn admin_rotation_scenario() {
    let a = id(1);
    let b = id(2);
    let r = id(3);
    let fund = fresh_ledger(a);
    let (_, fund) = deposit(fund, 50);
    let (fund, entry) = whitelisted(fund, a, r, "partner");

    let mut rotation = SetAdmin { fund_account: fund, current_admin: a };
    assert_eq!(set_admin(&mut rotation, b), Ok(()));
    let fund = rotation.fund_account;
    assert_eq!(fund.admin, b);
    assert_eq!(fund.total_funds, 50);
    assert_eq!(fund.whitelist_count, 1);

    let (res, fund) = disburse(fund, Some(entry.clone()), a, r, 10);
    assert_eq!(res, Err(EscrowError::Fund(FundError::UnauthorizedAdmin)));
    assert_eq!(fund.total_funds, 50);

    let (res, fund) = disburse(fund, Some(entry), b, r, 10);
    assert_eq!(res, Ok(()));
    assert_eq!(fund.total_funds, 40);
}

#[test]
fn set_admin_is_for_the_admin_only() {
    let fund = fresh_ledger(id(1));
    let mut ctx = SetAdmin { fund_account: fund, current_admin: id(9) };
    let before = ctx;
    assert_eq!(set_admin(&mut ctx, id(9)), Err(EscrowError::Fund(FundError::UnauthorizedAdmin)));
    assert_eq!(ctx, before);
}

#[test]
fn set_admin_does_not_examine_the_new_admin() {
    let fund = fresh_ledger(id(1));
    let mut ctx = SetAdmin { fund_account: fund, current_admin: id(1) };
    assert_eq!(set_admin(&mut ctx, id(1)), Ok(()));
    assert_eq!(ctx.fund_account.admin, id(1));
    assert_eq!(set_admin(&mut ctx, Identity::new([0; 32])), Ok(()));
    assert_eq!(ctx.fund_account.admin, Identity::new([0; 32]));
}

#[test]
fn allocate_funds_asks_for_the_escrows_transfer() {
    let a = id(1);
    let r = id(2);
    let (_, fund) = deposit(fresh_ledger(a), 1000);
    let (fund, entry) = whitelisted(fund, a, r, "partner");
    let ctx = AllocateFunds {
        fund_account: fund,
        fund_token_account: account(60, 61),
        to_token_account: TokenAccount { key: id(70), owner: r },
        whitelist_entry: Some(entry),
        admin: a,
    };
    assert_eq!(
        allocate_funds_transfer(&ctx, 400),
        Ok(Transfer { from: id(60), to: id(70), authority: Authority::Escrow(254), amount: 400 })
    );
    assert_eq!(
        allocate_funds_transfer(&ctx, 1001),
        Err(EscrowError::Fund(FundError::InsufficientFunds))
    );
}

#[test]
fn allocate_funds_checks_in_order() {
    let a = id(1);
    let r = id(2);
    let (_, fund) = deposit(fresh_ledger(a), 100);
    // not the admin, too much, and no entry: the caller is looked at first
    let (res, after) = disburse(fund, None, id(9), r, 101);
    assert_eq!(res, Err(EscrowError::Fund(FundError::UnauthorizedAdmin)));
    assert_eq!(after, fund);
    // the admin, too much, and no entry: the amount is looked at next
    let (res, after) = disburse(fund, None, a, r, 101);
    assert_eq!(res, Err(EscrowError::Fund(FundError::InsufficientFunds)));
    assert_eq!(after, fund);
    // the admin, enough, and no entry
    let (res, after) = disburse(fund, None, a, r, 100);
    assert_eq!(res, Err(EscrowError::Fund(FundError::RecipientNotWhitelisted)));
    assert_eq!(after, fund);
}

#[test]
fn allocate_funds_needs_an_entry_for_the_recipient() {
    let a = id(1);
    let r = id(2);
    let (_, fund) = deposit(fresh_ledger(a), 100);
    let (fund, entry) = whitelisted(fund, a, r, "partner");
    let (res, after) = disburse(fund, Some(entry.clone()), a, id(3), 10);
    assert_eq!(res, Err(EscrowError::Fund(FundError::WhitelistAddressMismatch)));
    assert_eq!(after, fund);
    // an inactive entry for another address: whether it is active is looked at first
    let mut closed = entry;
    closed.is_active = false;
    let (res, after) = disburse(fund, Some(closed), a, id(3), 10);
    assert_eq!(res, Err(EscrowError::Fund(FundError::RecipientNotWhitelisted)));
    assert_eq!(after, fund);
}

#[test]
fn allocate_funds_can_empty_the_ledger() {
    let a = id(1);
    let r = id(2);
    let (_, fund) = deposit(fresh_ledger(a), 100);
    let (fund, entry) = whitelisted(fund, a, r, "partner");
    let (res, fund) = disburse(fund, Some(entry.clone()), a, r, 100);
    assert_eq!(res, Ok(()));
    assert_eq!(fund.total_funds, 0);
    let (res, fund) = disburse(fund, Some(entry.clone()), a, r, 0);
    assert_eq!(res, Ok(()));
    assert_eq!(fund.total_funds, 0);
    let (res, _) = disburse(fund, Some(entry), a, r, 1);
    assert_eq!(res, Err(EscrowError::Fund(FundError::InsufficientFunds)));
}

#[test]
fn allocate_funds_keeps_the_counter_when_the_transfer_fails() {
    let a = id(1);
    let r = id(2);
    let (_, fund) = deposit(fresh_ledger(a), 100);
    let (fund, entry) = whitelisted(fund, a, r, "partner");
    let mut ctx = AllocateFunds {
        fund_account: fund,
        fund_token_account: account(60, 61),
        to_token_account: TokenAccount { key: id(70), owner: r },
        whitelist_entry: Some(entry),
        admin: a,
    };
    let before = ctx.clone();
    assert_eq!(
        allocate_funds(&mut ctx, 40, Err(TransferError::MalformedAccount)),
        Err(EscrowError::Transfer(TransferError::MalformedAccount))
    );
    assert_eq!(ctx, before);
    // a broken rule is reported before the answer of the custody
    ctx.admin = id(9);
    assert_eq!(
        allocate_funds(&mut ctx, 40, Err(TransferError::MalformedAccount)),
        Err(EscrowError::Fund(FundError::UnauthorizedAdmin))
    );
}

#[test]
fn counter_is_deposits_less_disbursements() {
    let a = id(1);
    let r = id(2);
    let (fund, entry) = whitelisted(fresh_ledger(a), a, r, "partner");
    let (_, fund) = deposit(fund, 700);
    let (_, fund) = disburse(fund, Some(entry.clone()), a, r, 250);
    let (_, fund) = deposit(fund, 45);
    let (_, fund) = disburse(fund, Some(entry.clone()), a, r, 95);
    let (_, fund) = disburse(fund, Some(entry), a, r, 400);
    assert_eq!(fund.total_funds, 700 + 45 - 250 - 95 - 400);
    assert_eq!(fund.total_funds, 0);
}

#[test]
fn add_whitelist_is_for_the_admin_only() {
    let fund = fresh_ledger(id(1));
    let mut ctx = AddWhitelist { fund_account: fund, whitelist_entry: None, admin: id(9) };
    let before = ctx.clone();
    assert_eq!(
        add_whitelist(&mut ctx, id(2), "partner".to_string(), 5),
        Err(EscrowError::Fund(FundError::UnauthorizedAdmin))
    );
    assert_eq!(ctx, before);
    // also where the label is too long and the entry exists
    let (_, entry) = whitelisted(fund, id(1), id(2), "partner");
    let mut ctx = AddWhitelist { fund_account: fund, whitelist_entry: Some(entry), admin: id(9) };
    assert_eq!(
        add_whitelist(&mut ctx, id(2), "x".repeat(65), 5),
        Err(EscrowError::Fund(FundError::UnauthorizedAdmin))
    );
}

#[test]
fn add_whitelist_limits_the_label() {
    assert_eq!(MAX_LABEL_LEN, 64);
    let fund = fresh_ledger(id(1));
    let mut ctx = AddWhitelist { fund_account: fund, whitelist_entry: None, admin: id(1) };
    let before = ctx.clone();
    assert_eq!(
        add_whitelist(&mut ctx, id(2), "x".repeat(65), 5),
        Err(EscrowError::Fund(FundError::LabelTooLong))
    );
    assert_eq!(ctx, before);
    // 22 characters of three bytes each are 66 bytes
    assert_eq!(
        add_whitelist(&mut ctx, id(2), "\u{20ac}".repeat(22), 5),
        Err(EscrowError::Fund(FundError::LabelTooLong))
    );
    assert_eq!(ctx, before);
    assert_eq!(add_whitelist(&mut ctx, id(2), "x".repeat(64), 5), Ok(()));
    assert_eq!(ctx.whitelist_entry.unwrap().label.len(), 64);

    let mut ctx = AddWhitelist { fund_account: fund, whitelist_entry: None, admin: id(1) };
    assert_eq!(add_whitelist(&mut ctx, id(3), String::new(), 5), Ok(()));
    let mut ctx = AddWhitelist { fund_account: fund, whitelist_entry: None, admin: id(1) };
    assert_eq!(add_whitelist(&mut ctx, id(4), "\u{20ac}".repeat(21), 5), Ok(()));
}

#[test]
fn add_whitelist_does_not_replace_an_entry() {
    let a = id(1);
    let (fund, entry) = whitelisted(fresh_ledger(a), a, id(2), "partner");
    let mut ctx = AddWhitelist { fund_account: fund, whitelist_entry: Some(entry), admin: a };
    let before = ctx.clone();
    assert_eq!(
        add_whitelist(&mut ctx, id(2), "other".to_string(), 6),
        Err(EscrowError::EntryAlreadyExists)
    );
    assert_eq!(ctx, before);
    // a label that is too long is reported first
    assert_eq!(
        add_whitelist(&mut ctx, id(2), "x".repeat(65), 6),
        Err(EscrowError::Fund(FundError::LabelTooLong))
    );
}

#[test]
fn whitelist_count_only_grows() {
    let a = id(1);
    let (fund, first) = whitelisted(fresh_ledger(a), a, id(2), "one");
    let (fund, _) = whitelisted(fund, a, id(3), "two");
    assert_eq!(fund.whitelist_count, 2);
    let mut removal = RemoveWhitelist { fund_account: fund, whitelist_entry: first, admin: a };
    assert_eq!(remove_whitelist(&mut removal), Ok(()));
    assert_eq!(removal.fund_account.whitelist_count, 2);
    let mut toggle = ToggleWhitelist {
        fund_account: removal.fund_account,
        whitelist_entry: removal.whitelist_entry,
        admin: a,
    };
    assert_eq!(toggle_whitelist(&mut toggle, true), Ok(()));
    assert_eq!(toggle.fund_account.whitelist_count, 2);
}

#[test]
fn whitelist_count_does_not_wrap() {
    let a = id(1);
    let fund = FundAccount { admin: a, total_funds: 0, bump: 1, whitelist_count: u16::MAX };
    let mut ctx = AddWhitelist { fund_account: fund, whitelist_entry: None, admin: a };
    let before = ctx.clone();
    assert_eq!(add_whitelist(&mut ctx, id(2), "last".to_string(), 5), Err(EscrowError::Arithmetic));
    assert_eq!(ctx, before);
    let fund = FundAccount { admin: a, total_funds: 0, bump: 1, whitelist_count: u16::MAX - 1 };
    let mut ctx = AddWhitelist { fund_account: fund, whitelist_entry: None, admin: a };
    assert_eq!(add_whitelist(&mut ctx, id(2), "last".to_string(), 5), Ok(()));
    assert_eq!(ctx.fund_account.whitelist_count, u16::MAX);
}

#[test]
fn remove_whitelist_twice_fails_the_second_time() {
    let a = id(1);
    let (fund, entry) = whitelisted(fresh_ledger(a), a, id(2), "partner");
    let mut ctx = RemoveWhitelist { fund_account: fund, whitelist_entry: entry.clone(), admin: a };
    assert_eq!(remove_whitelist(&mut ctx), Ok(()));
    assert!(!ctx.whitelist_entry.is_active);
    assert_eq!(ctx.whitelist_entry.address, entry.address);
    assert_eq!(ctx.whitelist_entry.label, entry.label);
    assert_eq!(ctx.whitelist_entry.added_by, entry.added_by);
    assert_eq!(ctx.whitelist_entry.added_at, entry.added_at);
    let before = ctx.clone();
    assert_eq!(
        remove_whitelist(&mut ctx),
        Err(EscrowError::Fund(FundError::WhitelistEntryNotActive))
    );
    assert_eq!(ctx, before);
}

#[test]
fn remove_whitelist_is_for_the_admin_only() {
    let a = id(1);
    let (fund, entry) = whitelisted(fresh_ledger(a), a, id(2), "partner");
    let mut ctx = RemoveWhitelist { fund_account: fund, whitelist_entry: entry, admin: id(9) };
    let before = ctx.clone();
    assert_eq!(remove_whitelist(&mut ctx), Err(EscrowError::Fund(FundError::UnauthorizedAdmin)));
    assert_eq!(ctx, before);
    // also for an entry that is inactive already
    ctx.whitelist_entry.is_active = false;
    assert_eq!(remove_whitelist(&mut ctx), Err(EscrowError::Fund(FundError::UnauthorizedAdmin)));
}

#[test]
fn toggle_whitelist_may_be_repeated() {
    let a = id(1);
    let (fund, entry) = whitelisted(fresh_ledger(a), a, id(2), "partner");
    let mut ctx = ToggleWhitelist { fund_account: fund, whitelist_entry: entry.clone(), admin: a };
    assert_eq!(toggle_whitelist(&mut ctx, true), Ok(()));
    assert_eq!(ctx.whitelist_entry, entry);
    assert_eq!(toggle_whitelist(&mut ctx, false), Ok(()));
    assert!(!ctx.whitelist_entry.is_active);
    let once = ctx.clone();
    assert_eq!(toggle_whitelist(&mut ctx, false), Ok(()));
    assert_eq!(ctx, once);
    assert_eq!(toggle_whitelist(&mut ctx, true), Ok(()));
    assert_eq!(ctx.whitelist_entry, entry);
}

#[test]
fn toggle_whitelist_is_for_the_admin_only() {
    let a = id(1);
    let (fund, entry) = whitelisted(fresh_ledger(a), a, id(2), "partner");
    let mut ctx = ToggleWhitelist { fund_account: fund, whitelist_entry: entry, admin: id(9) };
    let before = ctx.clone();
    assert_eq!(
        toggle_whitelist(&mut ctx, false),
        Err(EscrowError::Fund(FundError::UnauthorizedAdmin))
    );
    assert_eq!(ctx, before);
}

#[test]
fn toggled_entry_decides_disbursement() {
    let a = id(1);
    let r = id(2);
    let (_, fund) = deposit(fresh_ledger(a), 100);
    let (fund, entry) = whitelisted(fund, a, r, "partner");
    let mut ctx = ToggleWhitelist { fund_account: fund, whitelist_entry: entry, admin: a };
    assert_eq!(toggle_whitelist(&mut ctx, false), Ok(()));
    let (res, _) = disburse(fund, Some(ctx.whitelist_entry.clone()), a, r, 10);
    assert_eq!(res, Err(EscrowError::Fund(FundError::RecipientNotWhitelisted)));
    assert_eq!(toggle_whitelist(&mut ctx, true), Ok(()));
    let (res, fund) = disburse(fund, Some(ctx.whitelist_entry.clone()), a, r, 10);
    assert_eq!(res, Ok(()));
    assert_eq!(fund.total_funds, 90);
}

#[test]
fn fund_error_messages() {
    assert_eq!(FundError::UnauthorizedAdmin.message(), "Unauthorized admin access");
    assert_eq!(FundError::InsufficientFunds.message(), "Insufficient funds for allocation");
    assert_eq!(
        FundError::RecipientNotWhitelisted.message(),
        "Recipient address is not whitelisted"
    );
    assert_eq!(
        FundError::WhitelistAddressMismatch.message(),
        "Whitelist address does not match token account owner"
    );
    assert_eq!(FundError::WhitelistEntryNotActive.message(), "Whitelist entry is not active");
    assert_eq!(
        FundError::LabelTooLong.message(),
        "Label exceeds maximum length of 64 characters"
    );
}

#[test]
fn signer_seeds_are_label_and_nonce() {
    assert_eq!(signer_seeds(254), vec![b"fund_account".to_vec(), vec![254u8]]);
    assert_eq!(signer_seeds(0), vec![b"fund_account".to_vec(), vec![0u8]]);
}

#[test]
fn whitelist_seeds_are_label_and_address() {
    assert_eq!(whitelist_seeds(&id(7)), vec![b"whitelist".to_vec(), vec![7u8; 32]]);
}

#[test]
fn escrow_authority_is_the_derived_address() {
    let program = Pubkey::new_from_array([11u8; 32]);
    let (address, bump) = Pubkey::find_program_address(&[b"fund_account"], &program);
    assert_eq!(escrow_authority(&id(11), bump), Some(Identity::new(address.to_bytes())));
    assert_ne!(escrow_authority(&id(11), bump), Some(id(11)));
    assert_ne!(escrow_authority(&id(12), bump), escrow_authority(&id(11), bump));
    for nonce in 0..=255u8 {
        let expected = Pubkey::create_program_address(&[b"fund_account", &[nonce]], &program)
            .ok()
            .map(|key| Identity::new(key.to_bytes()));
        assert_eq!(escrow_authority(&id(11), nonce), expected);
    }
}

#[test]
fn whitelist_entry_address_is_the_derived_address() {
    let program = Pubkey::new_from_array([11u8; 32]);
    let recipient = id(2);
    let (address, bump) =
        Pubkey::find_program_address(&[b"whitelist", &recipient.bytes], &program);
    assert_eq!(
        whitelist_entry_address(&id(11), &recipient, bump),
        Some(Identity::new(address.to_bytes()))
    );
    assert_ne!(
        whitelist_entry_address(&id(11), &id(3), bump),
        Some(Identity::new(address.to_bytes()))
    );
}
