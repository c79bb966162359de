use token_ledger::error::TokenError;
use token_ledger::instructions::{
    approve, burn, close_account, freeze_account, get_account_data_size, initialize_account,
    initialize_immutable_owner, initialize_mint, initialize_mint2, initialize_multisig, mint_to,
    revoke, set_authority, sync_native, thaw_account, transfer, transfer_checked, AuthorityType,
    Record,
};
use token_ledger::state::{AccountState, Authority, Mint, Multisig, Pubkey, TokenAccount};

fn key(n: u64) -> Pubkey {
    Pubkey { w0: n, w1: 0, w2: 0, w3: 0 }
}

fn fresh_mint() -> Mint {
    Mint {
        mint_authority: Authority::Disabled,
        supply: 0,
        decimals: 0,
        is_initialized: false,
        freeze_authority: Authority::Disabled,
    }
}

fn live_account(mint_key: Pubkey, owner: Pubkey, amount: u64) -> TokenAccount {
    TokenAccount {
        mint: mint_key,
        owner,
        amount,
        delegate: Authority::Disabled,
        state: AccountState::Initialized,
        is_native: false,
        delegated_amount: 0,
        close_authority: Authority::Disabled,
    }
}

#[test]
fn mint_then_transfer_scenario() {
    let a = key(1);
    let b = key(2);
    let c = key(3);
    let mint_key = key(10);
    let mut mint = fresh_mint();
    initialize_mint(&mut mint, 6, a, Authority::Disabled).unwrap();
    assert_eq!(mint.decimals, 6);
    assert_eq!(mint.supply, 0);
    let mut x = TokenAccount::blank();
    initialize_account(&mut x, &mint, mint_key, b, false).unwrap();
    let mut y = TokenAccount::blank();
    initialize_account(&mut y, &mint, mint_key, c, false).unwrap();
    mint_to(&mut mint, &mut x, mint_key, 1_000_000, &a, None, &vec![a]).unwrap();
    assert_eq!(x.amount, 1_000_000);
    assert_eq!(mint.supply, 1_000_000);
    transfer_checked(&mut x, &mut y, &mint, mint_key, 400_000, 6, &b, None, &vec![b]).unwrap();
    assert_eq!(x.amount, 600_000);
    assert_eq!(y.amount, 400_000);
    assert_eq!(mint.supply, 1_000_000);
    let r = transfer_checked(&mut x, &mut y, &mint, mint_key, 700_000, 6, &b, None, &vec![b]);
    assert_eq!(r, Err(TokenError::InsufficientFunds));
    assert_eq!(x.amount, 600_000);
    assert_eq!(y.amount, 400_000);
}

#[test]
fn transfer_checked_rejects_wrong_decimals() {
    let b = key(2);
    let mint_key = key(10);
    let mut mint = fresh_mint();
    initialize_mint(&mut mint, 6, key(1), Authority::Disabled).unwrap();
    let mut x = live_account(mint_key, b, 100);
    let mut y = live_account(mint_key, key(3), 0);
    let r = transfer_checked(&mut x, &mut y, &mint, mint_key, 10, 5, &b, None, &vec![b]);
    assert_eq!(r, Err(TokenError::DecimalMismatch));
}

#[test]
fn transfer_rejects_mint_mismatch() {
    let b = key(2);
    let mut x = live_account(key(10), b, 100);
    let mut y = live_account(key(11), key(3), 0);
    let r = transfer(&mut x, &mut y, 10, &b, None, &vec![b]);
    assert_eq!(r, Err(TokenError::MintMismatch));
}

#[test]
fn transfer_rejects_wrong_owner_and_missing_signature() {
    let b = key(2);
    let mint_key = key(10);
    let mut x = live_account(mint_key, b, 100);
    let mut y = live_account(mint_key, key(3), 0);
    let stranger = key(9);
    let r = transfer(&mut x, &mut y, 10, &stranger, None, &vec![stranger]);
    assert_eq!(r, Err(TokenError::OwnerMismatch));
    let r = transfer(&mut x, &mut y, 10, &b, None, &vec![stranger]);
    assert_eq!(r, Err(TokenError::MissingSigner));
}

#[test]
fn transfer_rejects_uninitialized() {
    let b = key(2);
    let mut x = TokenAccount::blank();
    let mut y = live_account(key(10), key(3), 0);
    let r = transfer(&mut x, &mut y, 1, &b, None, &vec![b]);
    assert_eq!(r, Err(TokenError::UninitializedAccount));
}

#[test]
fn delegate_allowance_is_consumed_exactly() {
    let b = key(2);
    let d = key(4);
    let mint_key = key(10);
    let mut x = live_account(mint_key, b, 1_000);
    let mut y = live_account(mint_key, key(3), 0);
    approve(&mut x, d, 500, &b, None, &vec![b]).unwrap();
    assert_eq!(x.delegate, Authority::Enabled(d));
    assert_eq!(x.delegated_amount, 500);
    transfer(&mut x, &mut y, 200, &d, None, &vec![d]).unwrap();
    assert_eq!(x.delegated_amount, 300);
    assert_eq!(x.amount, 800);
    assert_eq!(y.amount, 200);
    let r = transfer(&mut x, &mut y, 400, &d, None, &vec![d]);
    assert_eq!(r, Err(TokenError::InsufficientAllowance));
    assert_eq!(x.delegated_amount, 300);
    transfer(&mut x, &mut y, 300, &d, None, &vec![d]).unwrap();
    assert_eq!(x.delegated_amount, 0);
    assert_eq!(x.delegate, Authority::Disabled);
}

#[test]
fn revoke_clears_delegation() {
    let b = key(2);
    let mut x = live_account(key(10), b, 100);
    approve(&mut x, key(4), 50, &b, None, &vec![b]).unwrap();
    revoke(&mut x, &b, None, &vec![b]).unwrap();
    assert_eq!(x.delegate, Authority::Disabled);
    assert_eq!(x.delegated_amount, 0);
}

#[test]
fn frozen_account_rejects_mutations_but_thaws() {
    let a = key(1);
    let b = key(2);
    let f = key(5);
    let mint_key = key(10);
    let mut mint = fresh_mint();
    initialize_mint(&mut mint, 2, a, Authority::Enabled(f)).unwrap();
    let mut x = live_account(mint_key, b, 100);
    let mut y = live_account(mint_key, key(3), 0);
    freeze_account(&mut x, &mint, mint_key, &f, None, &vec![f]).unwrap();
    assert_eq!(x.state, AccountState::Frozen);
    let r = transfer(&mut x, &mut y, 10, &b, None, &vec![b]);
    assert_eq!(r, Err(TokenError::AccountFrozen));
    let r = mint_to(&mut mint, &mut x, mint_key, 10, &a, None, &vec![a]);
    assert_eq!(r, Err(TokenError::AccountFrozen));
    let r = burn(&mut x, &mut mint, mint_key, 10, &b, None, &vec![b]);
    assert_eq!(r, Err(TokenError::AccountFrozen));
    let r = approve(&mut x, key(4), 10, &b, None, &vec![b]);
    assert_eq!(r, Err(TokenError::AccountFrozen));
    thaw_account(&mut x, &mint, mint_key, &f, None, &vec![f]).unwrap();
    assert_eq!(x.state, AccountState::Initialized);
    transfer(&mut x, &mut y, 10, &b, None, &vec![b]).unwrap();
    assert_eq!(x.amount, 90);
}

#[test]
fn double_initialize_mint_rejected() {
    let mut mint = fresh_mint();
    initialize_mint(&mut mint, 6, key(1), Authority::Disabled).unwrap();
    let r = initialize_mint(&mut mint, 3, key(2), Authority::Disabled);
    assert_eq!(r, Err(TokenError::AlreadyInitialized));
    let r = initialize_mint2(&mut mint, 3, key(2), Authority::Disabled);
    assert_eq!(r, Err(TokenError::AlreadyInitialized));
    assert_eq!(mint.decimals, 6);
}

#[test]
fn multisig_freeze_needs_threshold() {
    let s1 = key(21);
    let s2 = key(22);
    let s3 = key(23);
    let f = key(20);
    let mint_key = key(10);
    let mut mint = fresh_mint();
    initialize_mint(&mut mint, 0, key(1), Authority::Enabled(f)).unwrap();
    let mut ms = Multisig { m: 0, n: 0, is_initialized: false, signers: Vec::new() };
    initialize_multisig(&mut ms, 2, &vec![s1, s2, s3]).unwrap();
    let mut x = live_account(mint_key, key(2), 0);
    let r = freeze_account(&mut x, &mint, mint_key, &f, Some(&ms), &vec![s1]);
    assert_eq!(r, Err(TokenError::MissingSigner));
    assert_eq!(x.state, AccountState::Initialized);
    freeze_account(&mut x, &mint, mint_key, &f, Some(&ms), &vec![s1, s3]).unwrap();
    assert_eq!(x.state, AccountState::Frozen);
    let mut x2 = live_account(mint_key, key(2), 0);
    freeze_account(&mut x2, &mint, mint_key, &f, Some(&ms), &vec![s2, s3]).unwrap();
    assert_eq!(x2.state, AccountState::Frozen);
}

#[test]
fn multisig_duplicate_signers_not_double_counted() {
    let s1 = key(21);
    let s2 = key(22);
    let f = key(20);
    let mint_key = key(10);
    let mut mint = fresh_mint();
    initialize_mint(&mut mint, 0, key(1), Authority::Enabled(f)).unwrap();
    let mut ms = Multisig { m: 0, n: 0, is_initialized: false, signers: Vec::new() };
    initialize_multisig(&mut ms, 2, &vec![s1, s2]).unwrap();
    let mut x = live_account(mint_key, key(2), 0);
    let r = freeze_account(&mut x, &mint, mint_key, &f, Some(&ms), &vec![s1, s1, s1]);
    assert_eq!(r, Err(TokenError::MissingSigner));
}

#[test]
fn initialize_multisig_validates_threshold() {
    let mut ms = Multisig { m: 0, n: 0, is_initialized: false, signers: Vec::new() };
    let r = initialize_multisig(&mut ms, 0, &vec![key(1)]);
    assert_eq!(r, Err(TokenError::InvalidAccountData));
    let r = initialize_multisig(&mut ms, 3, &vec![key(1), key(2)]);
    assert_eq!(r, Err(TokenError::InvalidAccountData));
    initialize_multisig(&mut ms, 2, &vec![key(1), key(2)]).unwrap();
    let r = initialize_multisig(&mut ms, 1, &vec![key(3)]);
    assert_eq!(r, Err(TokenError::AlreadyInitialized));
}

#[test]
fn close_account_scenario() {
    let a = key(1);
    let b = key(2);
    let mint_key = key(10);
    let mut mint = fresh_mint();
    initialize_mint(&mut mint, 6, a, Authority::Disabled).unwrap();
    let mut x = live_account(mint_key, b, 600_000);
    mint.supply = 600_000;
    let r = close_account(&mut x, &b, None, &vec![b]);
    assert_eq!(r, Err(TokenError::NonZeroBalance));
    burn(&mut x, &mut mint, mint_key, 600_000, &b, None, &vec![b]).unwrap();
    assert_eq!(x.amount, 0);
    assert_eq!(mint.supply, 0);
    close_account(&mut x, &b, None, &vec![b]).unwrap();
    assert_eq!(x.state, AccountState::Uninitialized);
    assert_eq!(x.amount, 0);
    assert_eq!(x, TokenAccount::blank());
}

#[test]
fn close_authority_overrides_owner() {
    let b = key(2);
    let ca = key(7);
    let mut x = live_account(key(10), b, 0);
    x.close_authority = Authority::Enabled(ca);
    let r = close_account(&mut x, &b, None, &vec![b]);
    assert_eq!(r, Err(TokenError::OwnerMismatch));
    close_account(&mut x, &ca, None, &vec![ca]).unwrap();
    assert_eq!(x.state, AccountState::Uninitialized);
}

#[test]
fn mint_to_overflow_rejected() {
    let a = key(1);
    let mint_key = key(10);
    let mut mint = fresh_mint();
    initialize_mint(&mut mint, 0, a, Authority::Disabled).unwrap();
    let mut x = live_account(mint_key, key(2), 0);
    mint_to(&mut mint, &mut x, mint_key, u64::MAX, &a, None, &vec![a]).unwrap();
    let r = mint_to(&mut mint, &mut x, mint_key, 1, &a, None, &vec![a]);
    assert_eq!(r, Err(TokenError::Overflow));
    assert_eq!(mint.supply, u64::MAX);
    assert_eq!(x.amount, u64::MAX);
}

#[test]
fn set_authority_disables_minting_permanently() {
    let a = key(1);
    let mint_key = key(10);
    let mut mint = fresh_mint();
    initialize_mint(&mut mint, 0, a, Authority::Disabled).unwrap();
    let mut rec = Record::MintRecord(mint);
    set_authority(
        &mut rec,
        AuthorityType::MintTokens,
        Authority::Disabled,
        &a,
        None,
        &vec![a],
    )
    .unwrap();
    let mint2 = match rec {
        Record::MintRecord(m) => m,
        Record::AccountRecord(_) => panic!("wrong record kind"),
    };
    assert_eq!(mint2.mint_authority, Authority::Disabled);
    let mut mint2 = mint2;
    let mut x = live_account(mint_key, key(2), 0);
    let r = mint_to(&mut mint2, &mut x, mint_key, 1, &a, None, &vec![a]);
    assert_eq!(r, Err(TokenError::OwnerMismatch));
    let mut rec2 = Record::MintRecord(mint2);
    let r = set_authority(
        &mut rec2,
        AuthorityType::MintTokens,
        Authority::Enabled(a),
        &a,
        None,
        &vec![a],
    );
    assert_eq!(r, Err(TokenError::OwnerMismatch));
}

#[test]
fn set_account_owner_clears_delegation() {
    let b = key(2);
    let new_owner = key(8);
    let mut x = live_account(key(10), b, 100);
    approve(&mut x, key(4), 50, &b, None, &vec![b]).unwrap();
    let mut rec = Record::AccountRecord(x);
    set_authority(
        &mut rec,
        AuthorityType::AccountOwner,
        Authority::Enabled(new_owner),
        &b,
        None,
        &vec![b],
    )
    .unwrap();
    let x2 = match rec {
        Record::AccountRecord(acc) => acc,
        Record::MintRecord(_) => panic!("wrong record kind"),
    };
    assert_eq!(x2.owner, new_owner);
    assert_eq!(x2.delegate, Authority::Disabled);
    assert_eq!(x2.delegated_amount, 0);
}

#[test]
fn sync_native_reconciles_upward_only() {
    let b = key(2);
    let mut x = live_account(key(10), b, 500);
    x.is_native = true;
    sync_native(&mut x, 900).unwrap();
    assert_eq!(x.amount, 900);
    let r = sync_native(&mut x, 800);
    assert_eq!(r, Err(TokenError::InvalidAccountData));
    let mut plain = live_account(key(10), b, 0);
    let r = sync_native(&mut plain, 100);
    assert_eq!(r, Err(TokenError::InvalidAccountData));
}

#[test]
fn native_account_close_allows_balance() {
    let b = key(2);
    let mut x = live_account(key(10), b, 777);
    x.is_native = true;
    close_account(&mut x, &b, None, &vec![b]).unwrap();
    assert_eq!(x.state, AccountState::Uninitialized);
}

#[test]
fn data_size_and_immutable_owner() {
    let mut mint = fresh_mint();
    assert_eq!(
        get_account_data_size(&mint),
        Err(TokenError::UninitializedAccount)
    );
    initialize_mint(&mut mint, 0, key(1), Authority::Disabled).unwrap();
    assert_eq!(get_account_data_size(&mint), Ok(148));
    let blank = TokenAccount::blank();
    assert_eq!(initialize_immutable_owner(&blank), Ok(()));
    let live = live_account(key(10), key(2), 0);
    assert_eq!(
        initialize_immutable_owner(&live),
        Err(TokenError::AlreadyInitialized)
    );
}

#[test]
fn initialize_account_requires_initialized_mint() {
    let mint = fresh_mint();
    let mut x = TokenAccount::blank();
    let r = initialize_account(&mut x, &mint, key(10), key(2), false);
    assert_eq!(r, Err(TokenError::UninitializedAccount));
}

#[test]
fn zero_allowance_delegate_has_no_authority() {
    let b = key(2);
    let d = key(4);
    let mint_key = key(10);
    let mut x = live_account(mint_key, b, 1_000);
    let mut y = live_account(mint_key, key(3), 0);
    approve(&mut x, d, 0, &b, None, &vec![b]).unwrap();
    assert_eq!(x.delegate, Authority::Enabled(d));
    assert_eq!(x.delegated_amount, 0);
    // Even a zero-amount claim by the zero-allowance delegate is an
    // authority error, and the delegation field stays as it was.
    let r = transfer(&mut x, &mut y, 0, &d, None, &vec![d]);
    assert_eq!(r, Err(TokenError::OwnerMismatch));
    assert_eq!(x.delegate, Authority::Enabled(d));
    assert_eq!(x.amount, 1_000);
    let r = transfer(&mut x, &mut y, 5, &d, None, &vec![d]);
    assert_eq!(r, Err(TokenError::OwnerMismatch));
    let mut mint = fresh_mint();
    initialize_mint(&mut mint, 0, key(1), Authority::Disabled).unwrap();
    mint.supply = 1_000;
    let r = burn(&mut x, &mut mint, mint_key, 0, &d, None, &vec![d]);
    assert_eq!(r, Err(TokenError::OwnerMismatch));
    assert_eq!(mint.supply, 1_000);
    // The owner's own authority is untouched.
    transfer(&mut x, &mut y, 10, &b, None, &vec![b]).unwrap();
    assert_eq!(x.amount, 990);
}
