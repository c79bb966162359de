//! The errors an instruction can fail with. Every failure is terminal for
//! the instruction that raised it and leaves all records unchanged.

use vstd::prelude::*;

verus! {

/// The failure kinds surfaced to the caller. Each instruction's contract
/// states exactly which inputs produce which variant.
#[derive(Clone, Copy, Debug, PartialEq, Eq, Structural)]
pub enum TokenError {
    /// The record was already initialized and may not be initialized again.
    AlreadyInitialized,
    /// The record has not been initialized yet.
    UninitializedAccount,
    /// A byte buffer has the wrong length, an invalid tag, or an invalid
    /// field combination for the record kind expected there.
    InvalidAccountData,
    /// The claimed authority does not match the recorded authority.
    OwnerMismatch,
    /// The required authority did not sign the request.
    MissingSigner,
    /// A debit exceeds the account's balance.
    InsufficientFunds,
    /// A delegated debit exceeds the remaining allowance.
    InsufficientAllowance,
    /// A credit would overflow a 64-bit amount.
    Overflow,
    /// The caller-restated decimals differ from the mint's decimals.
    DecimalMismatch,
    /// The account is frozen and rejects balance mutations.
    AccountFrozen,
    /// A non-native account with a nonzero balance may not be closed.
    NonZeroBalance,
    /// The instruction would mutate an account slot not marked writable.
    AccountNotMutable,
    /// The account references a different mint than the operation targets.
    MintMismatch,
}

} // verus!
