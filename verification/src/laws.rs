//! Ledger-wide laws, proved from the instruction transition specs:
//! conservation of supply under transfers, absence of unsigned underflow,
//! exact allowance consumption, the behavior of frozen accounts, and
//! rejection of double initialization.

use vstd::prelude::*;

use crate::error::TokenError;
use crate::instructions::{
    spec_burn, spec_initialize_mint, spec_mint_to, spec_sync_native, spec_thaw_account,
    spec_transfer, spec_approve,
};
use crate::state::{AccountState, Authority, Mint, Multisig, Pubkey, TokenAccount};
use crate::authority::{spec_authority_check, spec_stored_authority_check};

verus! {

/// The sum of the balances of a sequence of accounts.
pub open spec fn spec_accounts_sum(accts: Seq<TokenAccount>) -> int
    decreases accts.len(),
{
    if accts.len() == 0 {
        0
    } else {
        spec_accounts_sum(accts.drop_last()) + accts.last().amount
    }
}

/// Replacing one account changes the sum by the difference of the two
/// balances.
pub proof fn lemma_sum_update(accts: Seq<TokenAccount>, i: int, v: TokenAccount)
    requires
        0 <= i < accts.len(),
    ensures
        spec_accounts_sum(accts.update(i, v)) == spec_accounts_sum(accts) - accts[i].amount
            + v.amount,
    decreases accts.len(),
{
    let upd = accts.update(i, v);
    if i == accts.len() - 1 {
        assert(upd.drop_last() =~= accts.drop_last());
        assert(upd.last() == v);
    } else {
        assert(upd.drop_last() =~= accts.drop_last().update(i, v));
        assert(upd.last() == accts.last());
        lemma_sum_update(accts.drop_last(), i, v);
        assert(accts.drop_last()[i] == accts[i]);
    }
}

/// One transfer of a sequence of transfers: the operand payload, the two
/// account positions, and the authority evidence presented with it.
pub struct TransferOp {
    pub from: int,
    pub to: int,
    pub amount: u64,
    pub claimed: Pubkey,
    pub ms: Option<Multisig>,
    pub signers: Seq<Pubkey>,
}

/// The accounts after attempting one transfer: changed only when the
/// positions are distinct, in range, and the transfer commits.
pub open spec fn spec_step_transfer(accts: Seq<TokenAccount>, op: TransferOp) -> Seq<
    TokenAccount,
> {
    if 0 <= op.from < accts.len() && 0 <= op.to < accts.len() && op.from != op.to {
        match spec_transfer(
            accts[op.from],
            accts[op.to],
            op.amount,
            op.claimed,
            op.ms,
            op.signers,
        ) {
            Ok(pair) => accts.update(op.from, pair.0).update(op.to, pair.1),
            Err(_) => accts,
        }
    } else {
        accts
    }
}

/// The accounts after attempting a whole sequence of transfers in order.
pub open spec fn spec_run_transfers(accts: Seq<TokenAccount>, ops: Seq<TransferOp>) -> Seq<
    TokenAccount,
>
    decreases ops.len(),
{
    if ops.len() == 0 {
        accts
    } else {
        spec_run_transfers(spec_step_transfer(accts, ops.first()), ops.drop_first())
    }
}

/// One transfer, committed or rejected, never changes the sum of balances
/// (and never touches any mint record at all).
pub proof fn lemma_step_transfer_conserves(accts: Seq<TokenAccount>, op: TransferOp)
    ensures
        spec_accounts_sum(spec_step_transfer(accts, op)) == spec_accounts_sum(accts),
        spec_step_transfer(accts, op).len() == accts.len(),
{
    if 0 <= op.from < accts.len() && 0 <= op.to < accts.len() && op.from != op.to {
        match spec_transfer(
            accts[op.from],
            accts[op.to],
            op.amount,
            op.claimed,
            op.ms,
            op.signers,
        ) {
            Ok(pair) => {
                let mid = accts.update(op.from, pair.0);
                lemma_sum_update(accts, op.from, pair.0);
                lemma_sum_update(mid, op.to, pair.1);
                assert(mid[op.to] == accts[op.to]);
            },
            Err(_) => {},
        }
    }
}

/// Conservation law: a sequence of transfers within one mint leaves the
/// total of all account balances unchanged; since a transfer never touches
/// a mint record, the mint's recorded supply is unchanged too, so the
/// backing invariant `sum of balances == supply` survives every sequence
/// of transfers.
pub proof fn lemma_transfers_conserve(accts: Seq<TokenAccount>, ops: Seq<TransferOp>)
    ensures
        spec_accounts_sum(spec_run_transfers(accts, ops)) == spec_accounts_sum(accts),
    decreases ops.len(),
{
    if ops.len() > 0 {
        lemma_step_transfer_conserves(accts, ops.first());
        lemma_transfers_conserve(spec_step_transfer(accts, ops.first()), ops.drop_first());
    }
}

/// Backing law for minting: when the sum of balances equals the supply, a
/// committed `mint_to` into one of the accounts restores that equality for
/// the new supply.
pub proof fn lemma_mint_to_preserves_backing(
    mint: Mint,
    accts: Seq<TokenAccount>,
    i: int,
    mint_key: Pubkey,
    amount: u64,
    claimed: Pubkey,
    ms: Option<Multisig>,
    signers: Seq<Pubkey>,
)
    requires
        0 <= i < accts.len(),
        spec_accounts_sum(accts) == mint.supply,
    ensures
        match spec_mint_to(mint, accts[i], mint_key, amount, claimed, ms, signers) {
            Ok(pair) => spec_accounts_sum(accts.update(i, pair.1)) == pair.0.supply,
            Err(_) => true,
        },
{
    match spec_mint_to(mint, accts[i], mint_key, amount, claimed, ms, signers) {
        Ok(pair) => {
            lemma_sum_update(accts, i, pair.1);
        },
        Err(_) => {},
    }
}

/// Backing law for burning: when the sum of balances equals the supply, a
/// committed `burn` from one of the accounts restores that equality for
/// the new supply.
pub proof fn lemma_burn_preserves_backing(
    mint: Mint,
    accts: Seq<TokenAccount>,
    i: int,
    mint_key: Pubkey,
    amount: u64,
    claimed: Pubkey,
    ms: Option<Multisig>,
    signers: Seq<Pubkey>,
)
    requires
        0 <= i < accts.len(),
        spec_accounts_sum(accts) == mint.supply,
    ensures
        match spec_burn(accts[i], mint, mint_key, amount, claimed, ms, signers) {
            Ok(pair) => spec_accounts_sum(accts.update(i, pair.0)) == pair.1.supply,
            Err(_) => true,
        },
{
    match spec_burn(accts[i], mint, mint_key, amount, claimed, ms, signers) {
        Ok(pair) => {
            lemma_sum_update(accts, i, pair.0);
        },
        Err(_) => {},
    }
}

/// No-negative-balance law: a committed transfer debits at most the
/// source's balance — an amount exceeding it is rejected as
/// `InsufficientFunds`, never wrapped — and moves exactly `amount`.
/// Moreover, for an owner-signed transfer between live, unfrozen accounts
/// of one mint with no delegate in play, a debit beyond the balance is
/// rejected as exactly `InsufficientFunds` (and the handlers leave both
/// records unchanged on every error).
pub proof fn lemma_transfer_no_underflow(
    src: TokenAccount,
    dst: TokenAccount,
    amount: u64,
    claimed: Pubkey,
    ms: Option<Multisig>,
    signers: Seq<Pubkey>,
)
    ensures
        match spec_transfer(src, dst, amount, claimed, ms, signers) {
            Ok(pair) => amount <= src.amount && pair.0.amount == src.amount - amount
                && pair.1.amount == dst.amount + amount,
            Err(_) => true,
        },
        src.state is Initialized && dst.state is Initialized && src.mint == dst.mint && !(
        src.delegate == Authority::Enabled(claimed) && src.delegated_amount > 0)
            && spec_authority_check(src.owner, claimed, ms, signers) is Ok && amount > src.amount
            ==> spec_transfer(src, dst, amount, claimed, ms, signers) == Err::<
            (TokenAccount, TokenAccount),
            TokenError,
        >(TokenError::InsufficientFunds),
{
}

/// No-negative-balance law for burning: a committed burn debits at most
/// the source's balance and exactly `amount` from balance and supply.
/// Moreover, for an owner-signed burn from a live, unfrozen, non-native
/// account of the supplied mint with no delegate in play, a debit beyond
/// the balance is rejected as exactly `InsufficientFunds`.
pub proof fn lemma_burn_no_underflow(
    src: TokenAccount,
    mint: Mint,
    mint_key: Pubkey,
    amount: u64,
    claimed: Pubkey,
    ms: Option<Multisig>,
    signers: Seq<Pubkey>,
)
    ensures
        match spec_burn(src, mint, mint_key, amount, claimed, ms, signers) {
            Ok(pair) => amount <= src.amount && amount <= mint.supply && pair.0.amount
                == src.amount - amount && pair.1.supply == mint.supply - amount,
            Err(_) => true,
        },
        src.state is Initialized && !src.is_native && src.mint == mint_key && !(src.delegate
            == Authority::Enabled(claimed) && src.delegated_amount > 0) && spec_authority_check(
            src.owner,
            claimed,
            ms,
            signers,
        ) is Ok && amount > src.amount ==> spec_burn(src, mint, mint_key, amount, claimed, ms, signers)
            == Err::<(TokenAccount, Mint), TokenError>(TokenError::InsufficientFunds),
{
}

/// Allowance law: delegate authority is valid only while the remaining
/// allowance is positive. A delegate-authorized transfer that commits
/// consumes exactly the transferred amount from the allowance, and can
/// never drive it below zero; a signed delegate claim for more than the
/// allowance is rejected as exactly `InsufficientAllowance`, whatever the
/// owner's balance.
pub proof fn lemma_transfer_allowance_consumption(
    src: TokenAccount,
    dst: TokenAccount,
    amount: u64,
    claimed: Pubkey,
    ms: Option<Multisig>,
    signers: Seq<Pubkey>,
)
    requires
        src.delegate == Authority::Enabled(claimed),
        src.delegated_amount > 0,
    ensures
        match spec_transfer(src, dst, amount, claimed, ms, signers) {
            Ok(pair) => amount <= src.delegated_amount && pair.0.delegated_amount
                == src.delegated_amount - amount,
            Err(_) => true,
        },
        src.state is Initialized && dst.state is Initialized && src.mint == dst.mint
            && spec_authority_check(claimed, claimed, ms, signers) is Ok && amount
            > src.delegated_amount ==> spec_transfer(src, dst, amount, claimed, ms, signers)
            == Err::<(TokenAccount, TokenAccount), TokenError>(TokenError::InsufficientAllowance),
{
}

/// Allowance law for burning: as for transfers.
pub proof fn lemma_burn_allowance_consumption(
    src: TokenAccount,
    mint: Mint,
    mint_key: Pubkey,
    amount: u64,
    claimed: Pubkey,
    ms: Option<Multisig>,
    signers: Seq<Pubkey>,
)
    requires
        src.delegate == Authority::Enabled(claimed),
        src.delegated_amount > 0,
    ensures
        match spec_burn(src, mint, mint_key, amount, claimed, ms, signers) {
            Ok(pair) => amount <= src.delegated_amount && pair.0.delegated_amount
                == src.delegated_amount - amount,
            Err(_) => true,
        },
        src.state is Initialized && !src.is_native && src.mint == mint_key
            && spec_authority_check(claimed, claimed, ms, signers) is Ok && amount
            > src.delegated_amount ==> spec_burn(src, mint, mint_key, amount, claimed, ms, signers)
            == Err::<(TokenAccount, Mint), TokenError>(TokenError::InsufficientAllowance),
{
}

/// Zero-allowance law: a recorded delegate whose remaining allowance is
/// zero holds no authority. Its claim on a transfer is judged against the
/// owner, so when the delegate is not the owner the transfer is rejected
/// as `OwnerMismatch` — whatever the amount — and nothing changes.
pub proof fn lemma_transfer_zero_allowance_rejected(
    src: TokenAccount,
    dst: TokenAccount,
    amount: u64,
    claimed: Pubkey,
    ms: Option<Multisig>,
    signers: Seq<Pubkey>,
)
    requires
        src.delegate == Authority::Enabled(claimed),
        src.delegated_amount == 0,
        claimed != src.owner,
        src.state is Initialized,
        dst.state is Initialized,
        src.mint == dst.mint,
    ensures
        spec_transfer(src, dst, amount, claimed, ms, signers) == Err::<
            (TokenAccount, TokenAccount),
            TokenError,
        >(TokenError::OwnerMismatch),
{
}

/// Zero-allowance law for burning: as for transfers.
pub proof fn lemma_burn_zero_allowance_rejected(
    src: TokenAccount,
    mint: Mint,
    mint_key: Pubkey,
    amount: u64,
    claimed: Pubkey,
    ms: Option<Multisig>,
    signers: Seq<Pubkey>,
)
    requires
        src.delegate == Authority::Enabled(claimed),
        src.delegated_amount == 0,
        claimed != src.owner,
        src.state is Initialized,
        !src.is_native,
        src.mint == mint_key,
    ensures
        spec_burn(src, mint, mint_key, amount, claimed, ms, signers) == Err::<
            (TokenAccount, Mint),
            TokenError,
        >(TokenError::OwnerMismatch),
{
}

/// Frozen-account law: a frozen account rejects every balance mutation —
/// as transfer source or destination, as mint or burn target, for a new
/// approval and for native reconciliation — with `AccountFrozen`, but
/// accepts `thaw_account` from the mint's freeze authority.
pub proof fn lemma_frozen_rejects_mutations(
    acct: TokenAccount,
    other: TokenAccount,
    mint: Mint,
    mint_key: Pubkey,
    amount: u64,
    observed: u64,
    delegate: Pubkey,
    claimed: Pubkey,
    ms: Option<Multisig>,
    signers: Seq<Pubkey>,
)
    requires
        acct.state is Frozen,
    ensures
        !(other.state is Uninitialized) ==> spec_transfer(acct, other, amount, claimed, ms, signers)
            == Err::<(TokenAccount, TokenAccount), TokenError>(TokenError::AccountFrozen),
        !(other.state is Uninitialized) ==> spec_transfer(other, acct, amount, claimed, ms, signers)
            == Err::<(TokenAccount, TokenAccount), TokenError>(TokenError::AccountFrozen),
        spec_mint_to(mint, acct, mint_key, amount, claimed, ms, signers) == Err::<
            (Mint, TokenAccount),
            TokenError,
        >(TokenError::AccountFrozen),
        spec_burn(acct, mint, mint_key, amount, claimed, ms, signers) == Err::<
            (TokenAccount, Mint),
            TokenError,
        >(TokenError::AccountFrozen),
        spec_approve(acct, delegate, amount, claimed, ms, signers) == Err::<
            TokenAccount,
            TokenError,
        >(TokenError::AccountFrozen),
        spec_sync_native(acct, observed) == Err::<TokenAccount, TokenError>(
            TokenError::AccountFrozen,
        ),
        acct.mint == mint_key && spec_stored_authority_check(
            mint.freeze_authority,
            claimed,
            ms,
            signers,
        ) is Ok ==> spec_thaw_account(acct, mint, mint_key, claimed, ms, signers) == Ok::<
            TokenAccount,
            TokenError,
        >(TokenAccount { state: AccountState::Initialized, ..acct }),
{
}

/// Double-initialization law: a record that an `initialize_mint` has just
/// initialized rejects a second `initialize_mint` with
/// `AlreadyInitialized`, whatever its operands.
pub proof fn lemma_double_initialize_rejected(
    mint: Mint,
    d1: u8,
    a1: Pubkey,
    f1: Authority,
    d2: u8,
    a2: Pubkey,
    f2: Authority,
)
    ensures
        match spec_initialize_mint(mint, d1, a1, f1) {
            Ok(m1) => spec_initialize_mint(m1, d2, a2, f2) == Err::<Mint, TokenError>(
                TokenError::AlreadyInitialized,
            ),
            Err(_) => true,
        },
{
}

} // verus!
