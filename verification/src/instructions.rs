//! The instruction handlers: each one decides, from the referenced records,
//! the operand payload, the claimed authority and the signer set, whether
//! the instruction commits, and what every record holds afterwards. Each
//! handler's outcome is fixed by a spec transition function; on any error
//! the records are left unchanged.
//!
//! Error priority, shared by the handlers: lifecycle errors first
//! (`UninitializedAccount`, `AccountFrozen`, `AlreadyInitialized`), then
//! record/operand consistency (`InvalidAccountData`, `MintMismatch`,
//! `DecimalMismatch`, `NonZeroBalance`), then authority (`OwnerMismatch`,
//! `MissingSigner`), then arithmetic (`InsufficientAllowance`,
//! `InsufficientFunds`, `Overflow`).

use vstd::prelude::*;

use crate::authority::{
    spec_authority_check, spec_opt_multisig, spec_stored_authority_check, validate_authority,
    validate_stored_authority,
};
use crate::error::TokenError;
use crate::state::{AccountState, Authority, Mint, Multisig, Pubkey, TokenAccount, MAX_SIGNERS};

verus! {

/// Which authority field a `set_authority` instruction replaces.
#[derive(Clone, Copy, Debug, PartialEq, Eq, Structural)]
pub enum AuthorityType {
    /// Authority to mint new tokens.
    MintTokens,
    /// Authority to freeze any account associated with the mint.
    FreezeAccount,
    /// Owner of a given token account.
    AccountOwner,
    /// Authority to close a token account.
    CloseAccount,
}

/// A record a `set_authority` instruction may target: either a mint or a
/// token account.
#[derive(Clone, Copy, Debug, PartialEq, Eq, Structural)]
pub enum Record {
    MintRecord(Mint),
    AccountRecord(TokenAccount),
}

// ---------------------------------------------------------------------------
// Initialization
// ---------------------------------------------------------------------------

/// Outcome of `initialize_mint`: an uninitialized mint record becomes a live
/// mint with zero supply; a second initialization is rejected.
pub open spec fn spec_initialize_mint(
    mint: Mint,
    decimals: u8,
    mint_authority: Pubkey,
    freeze_authority: Authority,
) -> Result<Mint, TokenError> {
    if mint.is_initialized {
        Err(TokenError::AlreadyInitialized)
    } else {
        Ok(
            Mint {
                mint_authority: Authority::Enabled(mint_authority),
                supply: 0,
                decimals,
                is_initialized: true,
                freeze_authority,
            },
        )
    }
}

/// Initializes a mint record.
pub fn initialize_mint(
    mint: &mut Mint,
    decimals: u8,
    mint_authority: Pubkey,
    freeze_authority: Authority,
) -> (r: Result<(), TokenError>)
    ensures
        ({
            let outcome = spec_initialize_mint(*old(mint), decimals, mint_authority, freeze_authority);
            match r {
                Ok(()) => outcome == Ok::<Mint, TokenError>(*final(mint)),
                Err(e) => outcome == Err::<Mint, TokenError>(e) && *final(mint) == *old(mint),
            }
        }),
{
    if mint.is_initialized {
        return Err(TokenError::AlreadyInitialized);
    }
    *mint = Mint {
        mint_authority: Authority::Enabled(mint_authority),
        supply: 0,
        decimals,
        is_initialized: true,
        freeze_authority,
    };
    Ok(())
}

/// Variant of `initialize_mint` with the same behavior.
pub fn initialize_mint2(
    mint: &mut Mint,
    decimals: u8,
    mint_authority: Pubkey,
    freeze_authority: Authority,
) -> (r: Result<(), TokenError>)
    ensures
        ({
            let outcome = spec_initialize_mint(*old(mint), decimals, mint_authority, freeze_authority);
            match r {
                Ok(()) => outcome == Ok::<Mint, TokenError>(*final(mint)),
                Err(e) => outcome == Err::<Mint, TokenError>(e) && *final(mint) == *old(mint),
            }
        }),
{
    initialize_mint(mint, decimals, mint_authority, freeze_authority)
}

/// Outcome of `initialize_account`: an uninitialized record becomes a live
/// account of `mint_key` with zero balance owned by `owner`. The referenced
/// mint must itself be initialized.
pub open spec fn spec_initialize_account(
    acct: TokenAccount,
    mint: Mint,
    mint_key: Pubkey,
    owner: Pubkey,
    is_native: bool,
) -> Result<TokenAccount, TokenError> {
    if !(acct.state is Uninitialized) {
        Err(TokenError::AlreadyInitialized)
    } else if !mint.is_initialized {
        Err(TokenError::UninitializedAccount)
    } else {
        Ok(
            TokenAccount {
                mint: mint_key,
                owner,
                amount: 0,
                delegate: Authority::Disabled,
                state: AccountState::Initialized,
                is_native,
                delegated_amount: 0,
                close_authority: Authority::Disabled,
            },
        )
    }
}

/// Initializes a token account record.
pub fn initialize_account(
    acct: &mut TokenAccount,
    mint: &Mint,
    mint_key: Pubkey,
    owner: Pubkey,
    is_native: bool,
) -> (r: Result<(), TokenError>)
    ensures
        ({
            let outcome = spec_initialize_account(*old(acct), *mint, mint_key, owner, is_native);
            match r {
                Ok(()) => outcome == Ok::<TokenAccount, TokenError>(*final(acct)),
                Err(e) => outcome == Err::<TokenAccount, TokenError>(e) && *final(acct) == *old(acct),
            }
        }),
{
    match acct.state {
        AccountState::Uninitialized => {},
        _ => { return Err(TokenError::AlreadyInitialized); },
    }
    if !mint.is_initialized {
        return Err(TokenError::UninitializedAccount);
    }
    *acct = TokenAccount {
        mint: mint_key,
        owner,
        amount: 0,
        delegate: Authority::Disabled,
        state: AccountState::Initialized,
        is_native,
        delegated_amount: 0,
        close_authority: Authority::Disabled,
    };
    Ok(())
}

/// Variant of `initialize_account` that takes the owner as an operand.
pub fn initialize_account2(
    acct: &mut TokenAccount,
    mint: &Mint,
    mint_key: Pubkey,
    owner: Pubkey,
    is_native: bool,
) -> (r: Result<(), TokenError>)
    ensures
        ({
            let outcome = spec_initialize_account(*old(acct), *mint, mint_key, owner, is_native);
            match r {
                Ok(()) => outcome == Ok::<TokenAccount, TokenError>(*final(acct)),
                Err(e) => outcome == Err::<TokenAccount, TokenError>(e) && *final(acct) == *old(acct),
            }
        }),
{
    initialize_account(acct, mint, mint_key, owner, is_native)
}

/// Variant of `initialize_account2` with the same behavior.
pub fn initialize_account3(
    acct: &mut TokenAccount,
    mint: &Mint,
    mint_key: Pubkey,
    owner: Pubkey,
    is_native: bool,
) -> (r: Result<(), TokenError>)
    ensures
        ({
            let outcome = spec_initialize_account(*old(acct), *mint, mint_key, owner, is_native);
            match r {
                Ok(()) => outcome == Ok::<TokenAccount, TokenError>(*final(acct)),
                Err(e) => outcome == Err::<TokenAccount, TokenError>(e) && *final(acct) == *old(acct),
            }
        }),
{
    initialize_account(acct, mint, mint_key, owner, is_native)
}

/// Initializes a multisig record over the given signer principals with
/// threshold `m`. The record must be fresh, and `1 <= m <= n <= MAX_SIGNERS`
/// must hold of the threshold and the number of signers.
pub fn initialize_multisig(ms: &mut Multisig, m: u8, keys: &Vec<Pubkey>) -> (r: Result<
    (),
    TokenError,
>)
    ensures
        r is Ok <==> !old(ms).is_initialized && 1 <= m as int <= keys@.len() <= MAX_SIGNERS as int,
        r is Ok ==> final(ms).m == m && final(ms).n as int == keys@.len()
            && final(ms).is_initialized && final(ms).signers@ == keys@ && final(ms).wf(),
        r is Err ==> *final(ms) == *old(ms),
        old(ms).is_initialized ==> r == Err::<(), TokenError>(TokenError::AlreadyInitialized),
        !old(ms).is_initialized && !(1 <= m as int <= keys@.len() <= MAX_SIGNERS as int) ==> r
            == Err::<(), TokenError>(TokenError::InvalidAccountData),
{
    if ms.is_initialized {
        return Err(TokenError::AlreadyInitialized);
    }
    if m < 1 || (m as usize) > keys.len() || keys.len() > MAX_SIGNERS {
        return Err(TokenError::InvalidAccountData);
    }
    *ms = Multisig { m, n: keys.len() as u8, is_initialized: true, signers: keys.clone() };
    Ok(())
}

/// Variant of `initialize_multisig` with the same behavior.
pub fn initialize_multisig2(ms: &mut Multisig, m: u8, keys: &Vec<Pubkey>) -> (r: Result<
    (),
    TokenError,
>)
    ensures
        r is Ok <==> !old(ms).is_initialized && 1 <= m as int <= keys@.len() <= MAX_SIGNERS as int,
        r is Ok ==> final(ms).m == m && final(ms).n as int == keys@.len()
            && final(ms).is_initialized && final(ms).signers@ == keys@ && final(ms).wf(),
        r is Err ==> *final(ms) == *old(ms),
        old(ms).is_initialized ==> r == Err::<(), TokenError>(TokenError::AlreadyInitialized),
        !old(ms).is_initialized && !(1 <= m as int <= keys@.len() <= MAX_SIGNERS as int) ==> r
            == Err::<(), TokenError>(TokenError::InvalidAccountData),
{
    initialize_multisig(ms, m, keys)
}

// ---------------------------------------------------------------------------
// Transfer / approve / revoke
// ---------------------------------------------------------------------------

/// Outcome of `transfer`. The claimed authority is the account's delegate
/// or its owner. Delegate authority is valid only while the remaining
/// allowance is positive: a recorded delegate whose allowance is zero is
/// no authority at all, and its claim is judged against the owner. A
/// delegate-authorized transfer consumes allowance and clears the
/// delegation when the allowance reaches zero. The mint's supply is never
/// touched: a transfer only moves balance between two accounts of one
/// mint.
pub open spec fn spec_transfer(
    src: TokenAccount,
    dst: TokenAccount,
    amount: u64,
    claimed: Pubkey,
    ms: Option<Multisig>,
    signers: Seq<Pubkey>,
) -> Result<(TokenAccount, TokenAccount), TokenError> {
    if src.state is Uninitialized || dst.state is Uninitialized {
        Err(TokenError::UninitializedAccount)
    } else if src.state is Frozen || dst.state is Frozen {
        Err(TokenError::AccountFrozen)
    } else if src.mint != dst.mint {
        Err(TokenError::MintMismatch)
    } else if src.delegate == Authority::Enabled(claimed) && src.delegated_amount > 0 {
        match spec_authority_check(claimed, claimed, ms, signers) {
            Err(e) => Err(e),
            Ok(()) => if amount > src.delegated_amount {
                Err(TokenError::InsufficientAllowance)
            } else if amount > src.amount {
                Err(TokenError::InsufficientFunds)
            } else if dst.amount + amount > u64::MAX {
                Err(TokenError::Overflow)
            } else {
                let remaining = (src.delegated_amount - amount) as u64;
                Ok(
                    (
                        TokenAccount {
                            amount: (src.amount - amount) as u64,
                            delegated_amount: remaining,
                            delegate: if remaining == 0 {
                                Authority::Disabled
                            } else {
                                src.delegate
                            },
                            ..src
                        },
                        TokenAccount { amount: (dst.amount + amount) as u64, ..dst },
                    ),
                )
            },
        }
    } else {
        match spec_authority_check(src.owner, claimed, ms, signers) {
            Err(e) => Err(e),
            Ok(()) => if amount > src.amount {
                Err(TokenError::InsufficientFunds)
            } else if dst.amount + amount > u64::MAX {
                Err(TokenError::Overflow)
            } else {
                Ok(
                    (
                        TokenAccount { amount: (src.amount - amount) as u64, ..src },
                        TokenAccount { amount: (dst.amount + amount) as u64, ..dst },
                    ),
                )
            },
        }
    }
}

/// Moves `amount` from `src` to `dst` under the claimed authority.
pub fn transfer(
    src: &mut TokenAccount,
    dst: &mut TokenAccount,
    amount: u64,
    claimed: &Pubkey,
    ms: Option<&Multisig>,
    signers: &Vec<Pubkey>,
) -> (r: Result<(), TokenError>)
    ensures
        ({
            let outcome = spec_transfer(
                *old(src),
                *old(dst),
                amount,
                *claimed,
                spec_opt_multisig(ms),
                signers@,
            );
            match r {
                Ok(()) => outcome == Ok::<(TokenAccount, TokenAccount), TokenError>(
                    (*final(src), *final(dst)),
                ),
                Err(e) => outcome == Err::<(TokenAccount, TokenAccount), TokenError>(e) && *final(src) == *old(src) && *final(dst) == *old(dst),
            }
        }),
        r is Ok ==> amount <= old(src).amount && final(src).amount == old(src).amount - amount
            && final(dst).amount == old(dst).amount + amount,
        r is Ok ==> final(src).amount + final(dst).amount == old(src).amount + old(dst).amount,
{
    match src.state {
        AccountState::Uninitialized => { return Err(TokenError::UninitializedAccount); },
        _ => {},
    }
    match dst.state {
        AccountState::Uninitialized => { return Err(TokenError::UninitializedAccount); },
        _ => {},
    }
    match src.state {
        AccountState::Frozen => { return Err(TokenError::AccountFrozen); },
        _ => {},
    }
    match dst.state {
        AccountState::Frozen => { return Err(TokenError::AccountFrozen); },
        _ => {},
    }
    if !(src.mint == dst.mint) {
        return Err(TokenError::MintMismatch);
    }
    let delegate_path = src.delegate == Authority::Enabled(*claimed) && src.delegated_amount > 0;
    if delegate_path {
        if let Err(e) = validate_authority(claimed, claimed, ms, signers) {
            return Err(e);
        }
        if amount > src.delegated_amount {
            return Err(TokenError::InsufficientAllowance);
        }
    } else {
        if let Err(e) = validate_authority(&src.owner, claimed, ms, signers) {
            return Err(e);
        }
    }
    if amount > src.amount {
        return Err(TokenError::InsufficientFunds);
    }
    if amount > u64::MAX - dst.amount {
        return Err(TokenError::Overflow);
    }
    src.amount = src.amount - amount;
    dst.amount = dst.amount + amount;
    if delegate_path {
        src.delegated_amount = src.delegated_amount - amount;
        if src.delegated_amount == 0 {
            src.delegate = Authority::Disabled;
        }
    }
    Ok(())
}

/// Outcome of `approve`: the owner grants `delegate` an allowance of
/// `amount`, replacing any previous delegation. An allowance of zero may
/// be recorded, but grants no authority: the delegate can act only while
/// the remaining allowance is positive.
pub open spec fn spec_approve(
    src: TokenAccount,
    delegate: Pubkey,
    amount: u64,
    claimed: Pubkey,
    ms: Option<Multisig>,
    signers: Seq<Pubkey>,
) -> Result<TokenAccount, TokenError> {
    if src.state is Uninitialized {
        Err(TokenError::UninitializedAccount)
    } else if src.state is Frozen {
        Err(TokenError::AccountFrozen)
    } else {
        match spec_authority_check(src.owner, claimed, ms, signers) {
            Err(e) => Err(e),
            Ok(()) => Ok(
                TokenAccount {
                    delegate: Authority::Enabled(delegate),
                    delegated_amount: amount,
                    ..src
                },
            ),
        }
    }
}

/// Grants a spending allowance over `src` to `delegate`.
pub fn approve(
    src: &mut TokenAccount,
    delegate: Pubkey,
    amount: u64,
    claimed: &Pubkey,
    ms: Option<&Multisig>,
    signers: &Vec<Pubkey>,
) -> (r: Result<(), TokenError>)
    ensures
        ({
            let outcome = spec_approve(
                *old(src),
                delegate,
                amount,
                *claimed,
                spec_opt_multisig(ms),
                signers@,
            );
            match r {
                Ok(()) => outcome == Ok::<TokenAccount, TokenError>(*final(src)),
                Err(e) => outcome == Err::<TokenAccount, TokenError>(e) && *final(src) == *old(src),
            }
        }),
{
    match src.state {
        AccountState::Uninitialized => { return Err(TokenError::UninitializedAccount); },
        AccountState::Frozen => { return Err(TokenError::AccountFrozen); },
        AccountState::Initialized => {},
    }
    if let Err(e) = validate_authority(&src.owner, claimed, ms, signers) {
        return Err(e);
    }
    src.delegate = Authority::Enabled(delegate);
    src.delegated_amount = amount;
    Ok(())
}

/// Outcome of `revoke`: the owner withdraws any delegation.
pub open spec fn spec_revoke(
    src: TokenAccount,
    claimed: Pubkey,
    ms: Option<Multisig>,
    signers: Seq<Pubkey>,
) -> Result<TokenAccount, TokenError> {
    if src.state is Uninitialized {
        Err(TokenError::UninitializedAccount)
    } else if src.state is Frozen {
        Err(TokenError::AccountFrozen)
    } else {
        match spec_authority_check(src.owner, claimed, ms, signers) {
            Err(e) => Err(e),
            Ok(()) => Ok(
                TokenAccount { delegate: Authority::Disabled, delegated_amount: 0, ..src },
            ),
        }
    }
}

/// Withdraws any delegation over `src`.
pub fn revoke(
    src: &mut TokenAccount,
    claimed: &Pubkey,
    ms: Option<&Multisig>,
    signers: &Vec<Pubkey>,
) -> (r: Result<(), TokenError>)
    ensures
        ({
            let outcome = spec_revoke(*old(src), *claimed, spec_opt_multisig(ms), signers@);
            match r {
                Ok(()) => outcome == Ok::<TokenAccount, TokenError>(*final(src)),
                Err(e) => outcome == Err::<TokenAccount, TokenError>(e) && *final(src) == *old(src),
            }
        }),
{
    match src.state {
        AccountState::Uninitialized => { return Err(TokenError::UninitializedAccount); },
        AccountState::Frozen => { return Err(TokenError::AccountFrozen); },
        AccountState::Initialized => {},
    }
    if let Err(e) = validate_authority(&src.owner, claimed, ms, signers) {
        return Err(e);
    }
    src.delegate = Authority::Disabled;
    src.delegated_amount = 0;
    Ok(())
}

// ---------------------------------------------------------------------------
// Mint / burn
// ---------------------------------------------------------------------------

/// Outcome of `mint_to`: new supply is created into `dst`; the account's
/// balance and the mint's supply increase by `amount` as one transition.
/// Native accounts are backed by deposited native currency and cannot be
/// minted into.
pub open spec fn spec_mint_to(
    mint: Mint,
    dst: TokenAccount,
    mint_key: Pubkey,
    amount: u64,
    claimed: Pubkey,
    ms: Option<Multisig>,
    signers: Seq<Pubkey>,
) -> Result<(Mint, TokenAccount), TokenError> {
    if dst.state is Uninitialized {
        Err(TokenError::UninitializedAccount)
    } else if dst.state is Frozen {
        Err(TokenError::AccountFrozen)
    } else if dst.is_native {
        Err(TokenError::InvalidAccountData)
    } else if dst.mint != mint_key {
        Err(TokenError::MintMismatch)
    } else {
        match spec_stored_authority_check(mint.mint_authority, claimed, ms, signers) {
            Err(e) => Err(e),
            Ok(()) => if dst.amount + amount > u64::MAX || mint.supply + amount > u64::MAX {
                Err(TokenError::Overflow)
            } else {
                Ok(
                    (
                        Mint { supply: (mint.supply + amount) as u64, ..mint },
                        TokenAccount { amount: (dst.amount + amount) as u64, ..dst },
                    ),
                )
            },
        }
    }
}

/// Creates `amount` new units of the mint into `dst`.
pub fn mint_to(
    mint: &mut Mint,
    dst: &mut TokenAccount,
    mint_key: Pubkey,
    amount: u64,
    claimed: &Pubkey,
    ms: Option<&Multisig>,
    signers: &Vec<Pubkey>,
) -> (r: Result<(), TokenError>)
    ensures
        ({
            let outcome = spec_mint_to(
                *old(mint),
                *old(dst),
                mint_key,
                amount,
                *claimed,
                spec_opt_multisig(ms),
                signers@,
            );
            match r {
                Ok(()) => outcome == Ok::<(Mint, TokenAccount), TokenError>(
                    (*final(mint), *final(dst)),
                ),
                Err(e) => outcome == Err::<(Mint, TokenAccount), TokenError>(e) && *final(mint)
                    == *old(mint) && *final(dst) == *old(dst),
            }
        }),
        r is Ok ==> final(mint).supply - old(mint).supply == final(dst).amount - old(dst).amount,
{
    match dst.state {
        AccountState::Uninitialized => { return Err(TokenError::UninitializedAccount); },
        AccountState::Frozen => { return Err(TokenError::AccountFrozen); },
        AccountState::Initialized => {},
    }
    if dst.is_native {
        return Err(TokenError::InvalidAccountData);
    }
    if !(dst.mint == mint_key) {
        return Err(TokenError::MintMismatch);
    }
    if let Err(e) = validate_stored_authority(&mint.mint_authority, claimed, ms, signers) {
        return Err(e);
    }
    if amount > u64::MAX - dst.amount || amount > u64::MAX - mint.supply {
        return Err(TokenError::Overflow);
    }
    mint.supply = mint.supply + amount;
    dst.amount = dst.amount + amount;
    Ok(())
}

/// Outcome of `burn`: `amount` units are destroyed from `src`; the balance
/// and the mint's supply decrease together. The claimed authority is the
/// delegate (valid only while the allowance is positive, and consuming
/// allowance) or the owner, as in `spec_transfer`.
pub open spec fn spec_burn(
    src: TokenAccount,
    mint: Mint,
    mint_key: Pubkey,
    amount: u64,
    claimed: Pubkey,
    ms: Option<Multisig>,
    signers: Seq<Pubkey>,
) -> Result<(TokenAccount, Mint), TokenError> {
    if src.state is Uninitialized {
        Err(TokenError::UninitializedAccount)
    } else if src.state is Frozen {
        Err(TokenError::AccountFrozen)
    } else if src.is_native {
        Err(TokenError::InvalidAccountData)
    } else if src.mint != mint_key {
        Err(TokenError::MintMismatch)
    } else if src.delegate == Authority::Enabled(claimed) && src.delegated_amount > 0 {
        match spec_authority_check(claimed, claimed, ms, signers) {
            Err(e) => Err(e),
            Ok(()) => if amount > src.delegated_amount {
                Err(TokenError::InsufficientAllowance)
            } else if amount > src.amount {
                Err(TokenError::InsufficientFunds)
            } else if amount > mint.supply {
                Err(TokenError::Overflow)
            } else {
                let remaining = (src.delegated_amount - amount) as u64;
                Ok(
                    (
                        TokenAccount {
                            amount: (src.amount - amount) as u64,
                            delegated_amount: remaining,
                            delegate: if remaining == 0 {
                                Authority::Disabled
                            } else {
                                src.delegate
                            },
                            ..src
                        },
                        Mint { supply: (mint.supply - amount) as u64, ..mint },
                    ),
                )
            },
        }
    } else {
        match spec_authority_check(src.owner, claimed, ms, signers) {
            Err(e) => Err(e),
            Ok(()) => if amount > src.amount {
                Err(TokenError::InsufficientFunds)
            } else if amount > mint.supply {
                Err(TokenError::Overflow)
            } else {
                Ok(
                    (
                        TokenAccount { amount: (src.amount - amount) as u64, ..src },
                        Mint { supply: (mint.supply - amount) as u64, ..mint },
                    ),
                )
            },
        }
    }
}

/// Destroys `amount` units held by `src`.
pub fn burn(
    src: &mut TokenAccount,
    mint: &mut Mint,
    mint_key: Pubkey,
    amount: u64,
    claimed: &Pubkey,
    ms: Option<&Multisig>,
    signers: &Vec<Pubkey>,
) -> (r: Result<(), TokenError>)
    ensures
        ({
            let outcome = spec_burn(
                *old(src),
                *old(mint),
                mint_key,
                amount,
                *claimed,
                spec_opt_multisig(ms),
                signers@,
            );
            match r {
                Ok(()) => outcome == Ok::<(TokenAccount, Mint), TokenError>(
                    (*final(src), *final(mint)),
                ),
                Err(e) => outcome == Err::<(TokenAccount, Mint), TokenError>(e) && *final(src)
                    == *old(src) && *final(mint) == *old(mint),
            }
        }),
        r is Ok ==> amount <= old(src).amount && final(src).amount == old(src).amount - amount,
        r is Ok ==> old(mint).supply - final(mint).supply == old(src).amount - final(src).amount,
{
    match src.state {
        AccountState::Uninitialized => { return Err(TokenError::UninitializedAccount); },
        AccountState::Frozen => { return Err(TokenError::AccountFrozen); },
        AccountState::Initialized => {},
    }
    if src.is_native {
        return Err(TokenError::InvalidAccountData);
    }
    if !(src.mint == mint_key) {
        return Err(TokenError::MintMismatch);
    }
    let delegate_path = src.delegate == Authority::Enabled(*claimed) && src.delegated_amount > 0;
    if delegate_path {
        if let Err(e) = validate_authority(claimed, claimed, ms, signers) {
            return Err(e);
        }
        if amount > src.delegated_amount {
            return Err(TokenError::InsufficientAllowance);
        }
    } else {
        if let Err(e) = validate_authority(&src.owner, claimed, ms, signers) {
            return Err(e);
        }
    }
    if amount > src.amount {
        return Err(TokenError::InsufficientFunds);
    }
    if amount > mint.supply {
        return Err(TokenError::Overflow);
    }
    src.amount = src.amount - amount;
    mint.supply = mint.supply - amount;
    if delegate_path {
        src.delegated_amount = src.delegated_amount - amount;
        if src.delegated_amount == 0 {
            src.delegate = Authority::Disabled;
        }
    }
    Ok(())
}

// ---------------------------------------------------------------------------
// Freeze / thaw / close / sync
// ---------------------------------------------------------------------------

/// Outcome of `freeze_account`: the mint's freeze authority puts an
/// initialized, non-native account into the `Frozen` state.
pub open spec fn spec_freeze_account(
    acct: TokenAccount,
    mint: Mint,
    mint_key: Pubkey,
    claimed: Pubkey,
    ms: Option<Multisig>,
    signers: Seq<Pubkey>,
) -> Result<TokenAccount, TokenError> {
    if acct.state is Uninitialized {
        Err(TokenError::UninitializedAccount)
    } else if acct.state is Frozen {
        Err(TokenError::AccountFrozen)
    } else if acct.is_native {
        Err(TokenError::InvalidAccountData)
    } else if acct.mint != mint_key {
        Err(TokenError::MintMismatch)
    } else {
        match spec_stored_authority_check(mint.freeze_authority, claimed, ms, signers) {
            Err(e) => Err(e),
            Ok(()) => Ok(TokenAccount { state: AccountState::Frozen, ..acct }),
        }
    }
}

/// Freezes `acct` under the mint's freeze authority.
pub fn freeze_account(
    acct: &mut TokenAccount,
    mint: &Mint,
    mint_key: Pubkey,
    claimed: &Pubkey,
    ms: Option<&Multisig>,
    signers: &Vec<Pubkey>,
) -> (r: Result<(), TokenError>)
    ensures
        ({
            let outcome = spec_freeze_account(
                *old(acct),
                *mint,
                mint_key,
                *claimed,
                spec_opt_multisig(ms),
                signers@,
            );
            match r {
                Ok(()) => outcome == Ok::<TokenAccount, TokenError>(*final(acct)),
                Err(e) => outcome == Err::<TokenAccount, TokenError>(e) && *final(acct) == *old(acct),
            }
        }),
{
    match acct.state {
        AccountState::Uninitialized => { return Err(TokenError::UninitializedAccount); },
        AccountState::Frozen => { return Err(TokenError::AccountFrozen); },
        AccountState::Initialized => {},
    }
    if acct.is_native {
        return Err(TokenError::InvalidAccountData);
    }
    if !(acct.mint == mint_key) {
        return Err(TokenError::MintMismatch);
    }
    if let Err(e) = validate_stored_authority(&mint.freeze_authority, claimed, ms, signers) {
        return Err(e);
    }
    acct.state = AccountState::Frozen;
    Ok(())
}

/// Outcome of `thaw_account`: the mint's freeze authority returns a frozen
/// account to the `Initialized` state. A frozen account accepts this
/// transition and no balance mutation.
pub open spec fn spec_thaw_account(
    acct: TokenAccount,
    mint: Mint,
    mint_key: Pubkey,
    claimed: Pubkey,
    ms: Option<Multisig>,
    signers: Seq<Pubkey>,
) -> Result<TokenAccount, TokenError> {
    if acct.state is Uninitialized {
        Err(TokenError::UninitializedAccount)
    } else if !(acct.state is Frozen) {
        Err(TokenError::InvalidAccountData)
    } else if acct.mint != mint_key {
        Err(TokenError::MintMismatch)
    } else {
        match spec_stored_authority_check(mint.freeze_authority, claimed, ms, signers) {
            Err(e) => Err(e),
            Ok(()) => Ok(TokenAccount { state: AccountState::Initialized, ..acct }),
        }
    }
}

/// Thaws a frozen account under the mint's freeze authority.
pub fn thaw_account(
    acct: &mut TokenAccount,
    mint: &Mint,
    mint_key: Pubkey,
    claimed: &Pubkey,
    ms: Option<&Multisig>,
    signers: &Vec<Pubkey>,
) -> (r: Result<(), TokenError>)
    ensures
        ({
            let outcome = spec_thaw_account(
                *old(acct),
                *mint,
                mint_key,
                *claimed,
                spec_opt_multisig(ms),
                signers@,
            );
            match r {
                Ok(()) => outcome == Ok::<TokenAccount, TokenError>(*final(acct)),
                Err(e) => outcome == Err::<TokenAccount, TokenError>(e) && *final(acct) == *old(acct),
            }
        }),
{
    match acct.state {
        AccountState::Uninitialized => { return Err(TokenError::UninitializedAccount); },
        AccountState::Initialized => { return Err(TokenError::InvalidAccountData); },
        AccountState::Frozen => {},
    }
    if !(acct.mint == mint_key) {
        return Err(TokenError::MintMismatch);
    }
    if let Err(e) = validate_stored_authority(&mint.freeze_authority, claimed, ms, signers) {
        return Err(e);
    }
    acct.state = AccountState::Initialized;
    Ok(())
}

/// Outcome of `close_account`: the close authority (or the owner, when none
/// is set) destroys the account, blanking every field. A non-native account
/// must hold a zero balance; a native account's balance is whatever native
/// currency backs it, which the runtime returns to the destination.
pub open spec fn spec_close_account(
    acct: TokenAccount,
    claimed: Pubkey,
    ms: Option<Multisig>,
    signers: Seq<Pubkey>,
) -> Result<TokenAccount, TokenError> {
    if acct.state is Uninitialized {
        Err(TokenError::UninitializedAccount)
    } else if acct.state is Frozen {
        Err(TokenError::AccountFrozen)
    } else if !acct.is_native && acct.amount != 0 {
        Err(TokenError::NonZeroBalance)
    } else {
        let expected = match acct.close_authority {
            Authority::Enabled(k) => k,
            Authority::Disabled => acct.owner,
        };
        match spec_authority_check(expected, claimed, ms, signers) {
            Err(e) => Err(e),
            Ok(()) => Ok(TokenAccount::spec_blank()),
        }
    }
}

/// Closes `acct`, returning its record to the blank uninitialized state.
pub fn close_account(
    acct: &mut TokenAccount,
    claimed: &Pubkey,
    ms: Option<&Multisig>,
    signers: &Vec<Pubkey>,
) -> (r: Result<(), TokenError>)
    ensures
        ({
            let outcome = spec_close_account(*old(acct), *claimed, spec_opt_multisig(ms), signers@);
            match r {
                Ok(()) => outcome == Ok::<TokenAccount, TokenError>(*final(acct)),
                Err(e) => outcome == Err::<TokenAccount, TokenError>(e) && *final(acct) == *old(acct),
            }
        }),
        r is Ok ==> final(acct).state is Uninitialized && final(acct).amount == 0,
{
    match acct.state {
        AccountState::Uninitialized => { return Err(TokenError::UninitializedAccount); },
        AccountState::Frozen => { return Err(TokenError::AccountFrozen); },
        AccountState::Initialized => {},
    }
    if !acct.is_native && acct.amount != 0 {
        return Err(TokenError::NonZeroBalance);
    }
    let expected = match acct.close_authority {
        Authority::Enabled(k) => k,
        Authority::Disabled => acct.owner,
    };
    if let Err(e) = validate_authority(&expected, claimed, ms, signers) {
        return Err(e);
    }
    *acct = TokenAccount::blank();
    Ok(())
}

/// Outcome of `sync_native`: a native account's balance is reconciled to
/// the externally observed deposit, which can only grow between closes.
pub open spec fn spec_sync_native(acct: TokenAccount, observed: u64) -> Result<
    TokenAccount,
    TokenError,
> {
    if acct.state is Uninitialized {
        Err(TokenError::UninitializedAccount)
    } else if acct.state is Frozen {
        Err(TokenError::AccountFrozen)
    } else if !acct.is_native {
        Err(TokenError::InvalidAccountData)
    } else if observed < acct.amount {
        Err(TokenError::InvalidAccountData)
    } else {
        Ok(TokenAccount { amount: observed, ..acct })
    }
}

/// Reconciles a native account's balance with the observed deposit.
pub fn sync_native(acct: &mut TokenAccount, observed: u64) -> (r: Result<(), TokenError>)
    ensures
        ({
            let outcome = spec_sync_native(*old(acct), observed);
            match r {
                Ok(()) => outcome == Ok::<TokenAccount, TokenError>(*final(acct)),
                Err(e) => outcome == Err::<TokenAccount, TokenError>(e) && *final(acct) == *old(acct),
            }
        }),
        r is Ok ==> final(acct).amount >= old(acct).amount,
{
    match acct.state {
        AccountState::Uninitialized => { return Err(TokenError::UninitializedAccount); },
        AccountState::Frozen => { return Err(TokenError::AccountFrozen); },
        AccountState::Initialized => {},
    }
    if !acct.is_native {
        return Err(TokenError::InvalidAccountData);
    }
    if observed < acct.amount {
        return Err(TokenError::InvalidAccountData);
    }
    acct.amount = observed;
    Ok(())
}

// ---------------------------------------------------------------------------
// Authority replacement
// ---------------------------------------------------------------------------

/// Outcome of `set_authority` on a mint record. Replacing an authority with
/// `Disabled` is irreversible: once the stored authority is `Disabled`, no
/// claim can ever satisfy it again.
pub open spec fn spec_set_mint_authority(
    mint: Mint,
    which: AuthorityType,
    new_authority: Authority,
    claimed: Pubkey,
    ms: Option<Multisig>,
    signers: Seq<Pubkey>,
) -> Result<Mint, TokenError> {
    if !mint.is_initialized {
        Err(TokenError::UninitializedAccount)
    } else {
        match which {
            AuthorityType::MintTokens => match spec_stored_authority_check(
                mint.mint_authority,
                claimed,
                ms,
                signers,
            ) {
                Err(e) => Err(e),
                Ok(()) => Ok(Mint { mint_authority: new_authority, ..mint }),
            },
            AuthorityType::FreezeAccount => match spec_stored_authority_check(
                mint.freeze_authority,
                claimed,
                ms,
                signers,
            ) {
                Err(e) => Err(e),
                Ok(()) => Ok(Mint { freeze_authority: new_authority, ..mint }),
            },
            _ => Err(TokenError::InvalidAccountData),
        }
    }
}

/// Outcome of `set_authority` on a token account. An account always has an
/// owner, so `AccountOwner` demands an enabled new authority; changing the
/// owner also clears any delegation. `CloseAccount` may be set or cleared
/// by the current close authority (or the owner, when none is set).
pub open spec fn spec_set_account_authority(
    acct: TokenAccount,
    which: AuthorityType,
    new_authority: Authority,
    claimed: Pubkey,
    ms: Option<Multisig>,
    signers: Seq<Pubkey>,
) -> Result<TokenAccount, TokenError> {
    if acct.state is Uninitialized {
        Err(TokenError::UninitializedAccount)
    } else if acct.state is Frozen {
        Err(TokenError::AccountFrozen)
    } else {
        match which {
            AuthorityType::AccountOwner => match new_authority {
                Authority::Disabled => Err(TokenError::InvalidAccountData),
                Authority::Enabled(k) => match spec_authority_check(
                    acct.owner,
                    claimed,
                    ms,
                    signers,
                ) {
                    Err(e) => Err(e),
                    Ok(()) => Ok(
                        TokenAccount {
                            owner: k,
                            delegate: Authority::Disabled,
                            delegated_amount: 0,
                            ..acct
                        },
                    ),
                },
            },
            AuthorityType::CloseAccount => {
                let expected = match acct.close_authority {
                    Authority::Enabled(k) => k,
                    Authority::Disabled => acct.owner,
                };
                match spec_authority_check(expected, claimed, ms, signers) {
                    Err(e) => Err(e),
                    Ok(()) => Ok(TokenAccount { close_authority: new_authority, ..acct }),
                }
            },
            _ => Err(TokenError::InvalidAccountData),
        }
    }
}

/// Outcome of `set_authority` on either record kind.
pub open spec fn spec_set_authority(
    rec: Record,
    which: AuthorityType,
    new_authority: Authority,
    claimed: Pubkey,
    ms: Option<Multisig>,
    signers: Seq<Pubkey>,
) -> Result<Record, TokenError> {
    match rec {
        Record::MintRecord(m) => match spec_set_mint_authority(
            m,
            which,
            new_authority,
            claimed,
            ms,
            signers,
        ) {
            Err(e) => Err(e),
            Ok(m2) => Ok(Record::MintRecord(m2)),
        },
        Record::AccountRecord(a) => match spec_set_account_authority(
            a,
            which,
            new_authority,
            claimed,
            ms,
            signers,
        ) {
            Err(e) => Err(e),
            Ok(a2) => Ok(Record::AccountRecord(a2)),
        },
    }
}

/// Replaces one authority of a mint or token account record.
pub fn set_authority(
    rec: &mut Record,
    which: AuthorityType,
    new_authority: Authority,
    claimed: &Pubkey,
    ms: Option<&Multisig>,
    signers: &Vec<Pubkey>,
) -> (r: Result<(), TokenError>)
    ensures
        ({
            let outcome = spec_set_authority(
                *old(rec),
                which,
                new_authority,
                *claimed,
                spec_opt_multisig(ms),
                signers@,
            );
            match r {
                Ok(()) => outcome == Ok::<Record, TokenError>(*final(rec)),
                Err(e) => outcome == Err::<Record, TokenError>(e) && *final(rec) == *old(rec),
            }
        }),
{
    match *rec {
        Record::MintRecord(mint) => {
            if !mint.is_initialized {
                return Err(TokenError::UninitializedAccount);
            }
            match which {
                AuthorityType::MintTokens => {
                    if let Err(e) = validate_stored_authority(
                        &mint.mint_authority,
                        claimed,
                        ms,
                        signers,
                    ) {
                        return Err(e);
                    }
                    *rec = Record::MintRecord(Mint { mint_authority: new_authority, ..mint });
                    Ok(())
                },
                AuthorityType::FreezeAccount => {
                    if let Err(e) = validate_stored_authority(
                        &mint.freeze_authority,
                        claimed,
                        ms,
                        signers,
                    ) {
                        return Err(e);
                    }
                    *rec = Record::MintRecord(Mint { freeze_authority: new_authority, ..mint });
                    Ok(())
                },
                _ => Err(TokenError::InvalidAccountData),
            }
        },
        Record::AccountRecord(acct) => {
            match acct.state {
                AccountState::Uninitialized => {
                    return Err(TokenError::UninitializedAccount);
                },
                AccountState::Frozen => { return Err(TokenError::AccountFrozen); },
                AccountState::Initialized => {},
            }
            match which {
                AuthorityType::AccountOwner => {
                    match new_authority {
                        Authority::Disabled => Err(TokenError::InvalidAccountData),
                        Authority::Enabled(k) => {
                            if let Err(e) = validate_authority(&acct.owner, claimed, ms, signers) {
                                return Err(e);
                            }
                            *rec = Record::AccountRecord(
                                TokenAccount {
                                    owner: k,
                                    delegate: Authority::Disabled,
                                    delegated_amount: 0,
                                    ..acct
                                },
                            );
                            Ok(())
                        },
                    }
                },
                AuthorityType::CloseAccount => {
                    let expected = match acct.close_authority {
                        Authority::Enabled(k) => k,
                        Authority::Disabled => acct.owner,
                    };
                    if let Err(e) = validate_authority(&expected, claimed, ms, signers) {
                        return Err(e);
                    }
                    *rec = Record::AccountRecord(
                        TokenAccount { close_authority: new_authority, ..acct },
                    );
                    Ok(())
                },
                _ => Err(TokenError::InvalidAccountData),
            }
        },
    }
}

// ---------------------------------------------------------------------------
// Checked variants
// ---------------------------------------------------------------------------

/// Outcome of `transfer_checked`: as `spec_transfer`, after checking both
/// accounts against the presented mint record and the caller-restated
/// decimals against the mint's.
pub open spec fn spec_transfer_checked(
    src: TokenAccount,
    dst: TokenAccount,
    mint: Mint,
    mint_key: Pubkey,
    amount: u64,
    decimals: u8,
    claimed: Pubkey,
    ms: Option<Multisig>,
    signers: Seq<Pubkey>,
) -> Result<(TokenAccount, TokenAccount), TokenError> {
    if src.state is Uninitialized || dst.state is Uninitialized {
        Err(TokenError::UninitializedAccount)
    } else if src.state is Frozen || dst.state is Frozen {
        Err(TokenError::AccountFrozen)
    } else if src.mint != mint_key || dst.mint != mint_key {
        Err(TokenError::MintMismatch)
    } else if decimals != mint.decimals {
        Err(TokenError::DecimalMismatch)
    } else {
        spec_transfer(src, dst, amount, claimed, ms, signers)
    }
}

/// Moves `amount` from `src` to `dst`, also guarding against a caller-side
/// decimal-scaling mistake.
pub fn transfer_checked(
    src: &mut TokenAccount,
    dst: &mut TokenAccount,
    mint: &Mint,
    mint_key: Pubkey,
    amount: u64,
    decimals: u8,
    claimed: &Pubkey,
    ms: Option<&Multisig>,
    signers: &Vec<Pubkey>,
) -> (r: Result<(), TokenError>)
    ensures
        ({
            let outcome = spec_transfer_checked(
                *old(src),
                *old(dst),
                *mint,
                mint_key,
                amount,
                decimals,
                *claimed,
                spec_opt_multisig(ms),
                signers@,
            );
            match r {
                Ok(()) => outcome == Ok::<(TokenAccount, TokenAccount), TokenError>(
                    (*final(src), *final(dst)),
                ),
                Err(e) => outcome == Err::<(TokenAccount, TokenAccount), TokenError>(e) && *final(src) == *old(src) && *final(dst) == *old(dst),
            }
        }),
{
    match src.state {
        AccountState::Uninitialized => { return Err(TokenError::UninitializedAccount); },
        _ => {},
    }
    match dst.state {
        AccountState::Uninitialized => { return Err(TokenError::UninitializedAccount); },
        _ => {},
    }
    match src.state {
        AccountState::Frozen => { return Err(TokenError::AccountFrozen); },
        _ => {},
    }
    match dst.state {
        AccountState::Frozen => { return Err(TokenError::AccountFrozen); },
        _ => {},
    }
    if !(src.mint == mint_key) || !(dst.mint == mint_key) {
        return Err(TokenError::MintMismatch);
    }
    if decimals != mint.decimals {
        return Err(TokenError::DecimalMismatch);
    }
    transfer(src, dst, amount, claimed, ms, signers)
}

/// Outcome of `approve_checked`: as `spec_approve`, after the mint and
/// decimals guards.
pub open spec fn spec_approve_checked(
    src: TokenAccount,
    mint: Mint,
    mint_key: Pubkey,
    delegate: Pubkey,
    amount: u64,
    decimals: u8,
    claimed: Pubkey,
    ms: Option<Multisig>,
    signers: Seq<Pubkey>,
) -> Result<TokenAccount, TokenError> {
    if src.state is Uninitialized {
        Err(TokenError::UninitializedAccount)
    } else if src.state is Frozen {
        Err(TokenError::AccountFrozen)
    } else if src.mint != mint_key {
        Err(TokenError::MintMismatch)
    } else if decimals != mint.decimals {
        Err(TokenError::DecimalMismatch)
    } else {
        spec_approve(src, delegate, amount, claimed, ms, signers)
    }
}

/// Grants an allowance, also guarding the restated decimals.
pub fn approve_checked(
    src: &mut TokenAccount,
    mint: &Mint,
    mint_key: Pubkey,
    delegate: Pubkey,
    amount: u64,
    decimals: u8,
    claimed: &Pubkey,
    ms: Option<&Multisig>,
    signers: &Vec<Pubkey>,
) -> (r: Result<(), TokenError>)
    ensures
        ({
            let outcome = spec_approve_checked(
                *old(src),
                *mint,
                mint_key,
                delegate,
                amount,
                decimals,
                *claimed,
                spec_opt_multisig(ms),
                signers@,
            );
            match r {
                Ok(()) => outcome == Ok::<TokenAccount, TokenError>(*final(src)),
                Err(e) => outcome == Err::<TokenAccount, TokenError>(e) && *final(src) == *old(src),
            }
        }),
{
    match src.state {
        AccountState::Uninitialized => { return Err(TokenError::UninitializedAccount); },
        AccountState::Frozen => { return Err(TokenError::AccountFrozen); },
        AccountState::Initialized => {},
    }
    if !(src.mint == mint_key) {
        return Err(TokenError::MintMismatch);
    }
    if decimals != mint.decimals {
        return Err(TokenError::DecimalMismatch);
    }
    approve(src, delegate, amount, claimed, ms, signers)
}

/// Outcome of `mint_to_checked`: as `spec_mint_to`, after the decimals
/// guard.
pub open spec fn spec_mint_to_checked(
    mint: Mint,
    dst: TokenAccount,
    mint_key: Pubkey,
    amount: u64,
    decimals: u8,
    claimed: Pubkey,
    ms: Option<Multisig>,
    signers: Seq<Pubkey>,
) -> Result<(Mint, TokenAccount), TokenError> {
    if dst.state is Uninitialized {
        Err(TokenError::UninitializedAccount)
    } else if dst.state is Frozen {
        Err(TokenError::AccountFrozen)
    } else if dst.is_native {
        Err(TokenError::InvalidAccountData)
    } else if dst.mint != mint_key {
        Err(TokenError::MintMismatch)
    } else if decimals != mint.decimals {
        Err(TokenError::DecimalMismatch)
    } else {
        spec_mint_to(mint, dst, mint_key, amount, claimed, ms, signers)
    }
}

/// Creates new supply, also guarding the restated decimals.
pub fn mint_to_checked(
    mint: &mut Mint,
    dst: &mut TokenAccount,
    mint_key: Pubkey,
    amount: u64,
    decimals: u8,
    claimed: &Pubkey,
    ms: Option<&Multisig>,
    signers: &Vec<Pubkey>,
) -> (r: Result<(), TokenError>)
    ensures
        ({
            let outcome = spec_mint_to_checked(
                *old(mint),
                *old(dst),
                mint_key,
                amount,
                decimals,
                *claimed,
                spec_opt_multisig(ms),
                signers@,
            );
            match r {
                Ok(()) => outcome == Ok::<(Mint, TokenAccount), TokenError>(
                    (*final(mint), *final(dst)),
                ),
                Err(e) => outcome == Err::<(Mint, TokenAccount), TokenError>(e) && *final(mint)
                    == *old(mint) && *final(dst) == *old(dst),
            }
        }),
{
    match dst.state {
        AccountState::Uninitialized => { return Err(TokenError::UninitializedAccount); },
        AccountState::Frozen => { return Err(TokenError::AccountFrozen); },
        AccountState::Initialized => {},
    }
    if dst.is_native {
        return Err(TokenError::InvalidAccountData);
    }
    if !(dst.mint == mint_key) {
        return Err(TokenError::MintMismatch);
    }
    if decimals != mint.decimals {
        return Err(TokenError::DecimalMismatch);
    }
    mint_to(mint, dst, mint_key, amount, claimed, ms, signers)
}

/// Outcome of `burn_checked`: as `spec_burn`, after the decimals guard.
pub open spec fn spec_burn_checked(
    src: TokenAccount,
    mint: Mint,
    mint_key: Pubkey,
    amount: u64,
    decimals: u8,
    claimed: Pubkey,
    ms: Option<Multisig>,
    signers: Seq<Pubkey>,
) -> Result<(TokenAccount, Mint), TokenError> {
    if src.state is Uninitialized {
        Err(TokenError::UninitializedAccount)
    } else if src.state is Frozen {
        Err(TokenError::AccountFrozen)
    } else if src.is_native {
        Err(TokenError::InvalidAccountData)
    } else if src.mint != mint_key {
        Err(TokenError::MintMismatch)
    } else if decimals != mint.decimals {
        Err(TokenError::DecimalMismatch)
    } else {
        spec_burn(src, mint, mint_key, amount, claimed, ms, signers)
    }
}

/// Destroys units, also guarding the restated decimals.
pub fn burn_checked(
    src: &mut TokenAccount,
    mint: &mut Mint,
    mint_key: Pubkey,
    amount: u64,
    decimals: u8,
    claimed: &Pubkey,
    ms: Option<&Multisig>,
    signers: &Vec<Pubkey>,
) -> (r: Result<(), TokenError>)
    ensures
        ({
            let outcome = spec_burn_checked(
                *old(src),
                *old(mint),
                mint_key,
                amount,
                decimals,
                *claimed,
                spec_opt_multisig(ms),
                signers@,
            );
            match r {
                Ok(()) => outcome == Ok::<(TokenAccount, Mint), TokenError>(
                    (*final(src), *final(mint)),
                ),
                Err(e) => outcome == Err::<(TokenAccount, Mint), TokenError>(e) && *final(src)
                    == *old(src) && *final(mint) == *old(mint),
            }
        }),
{
    match src.state {
        AccountState::Uninitialized => { return Err(TokenError::UninitializedAccount); },
        AccountState::Frozen => { return Err(TokenError::AccountFrozen); },
        AccountState::Initialized => {},
    }
    if src.is_native {
        return Err(TokenError::InvalidAccountData);
    }
    if !(src.mint == mint_key) {
        return Err(TokenError::MintMismatch);
    }
    if decimals != mint.decimals {
        return Err(TokenError::DecimalMismatch);
    }
    burn(src, mint, mint_key, amount, claimed, ms, signers)
}

// ---------------------------------------------------------------------------
// Read-only queries
// ---------------------------------------------------------------------------

/// Returns the byte size a token account record of this mint needs. The
/// mint must be initialized.
pub fn get_account_data_size(mint: &Mint) -> (r: Result<usize, TokenError>)
    ensures
        mint.is_initialized ==> r == Ok::<usize, TokenError>(crate::codec::ACCOUNT_LEN),
        !mint.is_initialized ==> r == Err::<usize, TokenError>(TokenError::UninitializedAccount),
{
    if !mint.is_initialized {
        return Err(TokenError::UninitializedAccount);
    }
    Ok(crate::codec::ACCOUNT_LEN)
}

/// Marks a fresh account's owner as immutable. The marker must be placed
/// before the account is initialized; the record itself carries no state
/// for it, so on a fresh record this succeeds without a transition.
pub fn initialize_immutable_owner(acct: &TokenAccount) -> (r: Result<(), TokenError>)
    ensures
        acct.state is Uninitialized <==> r is Ok,
        !(acct.state is Uninitialized) ==> r == Err::<(), TokenError>(
            TokenError::AlreadyInitialized,
        ),
{
    match acct.state {
        AccountState::Uninitialized => Ok(()),
        _ => Err(TokenError::AlreadyInitialized),
    }
}

} // verus!
