//! The persistent record kinds of the ledger: mints, token accounts and
//! multisig authorities, together with their well-formedness conditions.

use vstd::prelude::*;

verus! {

/// The most signers a multisig record can hold.
pub const MAX_SIGNERS: usize = 11;

/// A principal: a 32-byte identity, held as four 64-bit words
/// (least-significant word first in the encoded form).
#[derive(Clone, Copy, Debug, PartialEq, Eq, Structural)]
pub struct Pubkey {
    pub w0: u64,
    pub w1: u64,
    pub w2: u64,
    pub w3: u64,
}

impl Pubkey {
    /// The all-zero principal, used to blank fields of a cleared record.
    pub open spec fn spec_zero() -> Pubkey {
        Pubkey { w0: 0, w1: 0, w2: 0, w3: 0 }
    }

    /// Builds the all-zero principal.
    pub fn zero() -> (r: Pubkey)
        ensures
            r == Pubkey::spec_zero(),
    {
        Pubkey { w0: 0, w1: 0, w2: 0, w3: 0 }
    }

    /// The designated principal of the wrapped-native mint: an account of
    /// this mint is a native account.
    pub open spec fn spec_native_mint() -> Pubkey {
        Pubkey { w0: 1, w1: 1, w2: 1, w3: 1 }
    }

    /// Builds the wrapped-native mint's principal.
    pub fn native_mint() -> (r: Pubkey)
        ensures
            r == Pubkey::spec_native_mint(),
    {
        Pubkey { w0: 1, w1: 1, w2: 1, w3: 1 }
    }
}

/// An optional authority. `Disabled` is an explicit, observable state: a
/// mint whose mint authority is `Disabled` can never create supply again.
#[derive(Clone, Copy, Debug, PartialEq, Eq, Structural)]
pub enum Authority {
    /// No principal holds this authority.
    Disabled,
    /// The given principal holds this authority.
    Enabled(Pubkey),
}

/// The lifecycle state of a token account. A closed account is returned to
/// the `Uninitialized` state with every field blanked.
#[derive(Clone, Copy, Debug, PartialEq, Eq, Structural)]
pub enum AccountState {
    Uninitialized,
    Initialized,
    Frozen,
}

/// A token type: its outstanding supply, decimal precision, and the
/// authorities allowed to mint and to freeze.
#[derive(Clone, Copy, Debug, PartialEq, Eq, Structural)]
pub struct Mint {
    /// Principal permitted to create new supply; `Disabled` means minting
    /// is permanently disabled.
    pub mint_authority: Authority,
    /// Total outstanding amount across all accounts of this mint.
    pub supply: u64,
    /// Decimal precision, fixed at creation.
    pub decimals: u8,
    /// Guards against double initialization.
    pub is_initialized: bool,
    /// Principal permitted to freeze and thaw accounts of this mint.
    pub freeze_authority: Authority,
}

/// A balance holder: one account holds an amount of one mint for one owner.
#[derive(Clone, Copy, Debug, PartialEq, Eq, Structural)]
pub struct TokenAccount {
    /// The mint this balance belongs to; immutable after initialization.
    pub mint: Pubkey,
    /// Principal controlling transfers, burns and authority changes.
    pub owner: Pubkey,
    /// Current balance.
    pub amount: u64,
    /// The single approved spender, if any.
    pub delegate: Authority,
    /// Lifecycle state.
    pub state: AccountState,
    /// Marks a wrapped-native-currency account, reconciled via `sync_native`.
    pub is_native: bool,
    /// Remaining allowance of the delegate.
    pub delegated_amount: u64,
    /// Optional override for who may close the account; the owner closes
    /// when this is `Disabled`.
    pub close_authority: Authority,
}

impl TokenAccount {
    /// The blank record a closed account is reset to.
    pub open spec fn spec_blank() -> TokenAccount {
        TokenAccount {
            mint: Pubkey::spec_zero(),
            owner: Pubkey::spec_zero(),
            amount: 0,
            delegate: Authority::Disabled,
            state: AccountState::Uninitialized,
            is_native: false,
            delegated_amount: 0,
            close_authority: Authority::Disabled,
        }
    }

    /// Builds the blank record.
    pub fn blank() -> (r: TokenAccount)
        ensures
            r == TokenAccount::spec_blank(),
    {
        TokenAccount {
            mint: Pubkey::zero(),
            owner: Pubkey::zero(),
            amount: 0,
            delegate: Authority::Disabled,
            state: AccountState::Uninitialized,
            is_native: false,
            delegated_amount: 0,
            close_authority: Authority::Disabled,
        }
    }
}

/// An M-of-N group authority: `m` of the `n` recorded signers must sign.
#[derive(Clone, Debug, PartialEq)]
pub struct Multisig {
    /// The threshold: how many recorded signers must sign.
    pub m: u8,
    /// How many signer slots are in use.
    pub n: u8,
    /// Guards against double initialization.
    pub is_initialized: bool,
    /// The recorded signer principals; exactly `n` of them.
    pub signers: Vec<Pubkey>,
}

impl Multisig {
    /// A multisig record is well formed while `1 <= m <= n <= MAX_SIGNERS`
    /// and it records exactly `n` signers.
    pub open spec fn wf(self) -> bool {
        &&& 1 <= self.m as int <= self.n as int <= MAX_SIGNERS as int
        &&& self.signers@.len() == self.n as int
    }
}

} // verus!
