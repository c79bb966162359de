//! A token-ledger engine: fixed-layout account records (mints, token
//! accounts, multisig authorities), authority validation, checked balance
//! arithmetic, and an instruction dispatcher that interprets opcodes against
//! a caller-supplied ordered list of account slots.

pub mod authority;
pub mod codec;
pub mod dispatch;
pub mod error;
pub mod instructions;
pub mod laws;
pub mod state;
pub mod ui;
