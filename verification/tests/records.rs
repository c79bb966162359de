use token_ledger::codec::{
    decode_account, decode_mint, decode_multisig, encode_account, encode_mint, encode_multisig,
    ACCOUNT_LEN, MINT_LEN, MULTISIG_LEN,
};
use token_ledger::error::TokenError;
use token_ledger::state::{AccountState, Authority, Mint, Multisig, Pubkey, TokenAccount};

fn key(n: u64) -> Pubkey {
    Pubkey { w0: n, w1: n + 1, w2: n + 2, w3: n + 3 }
}

#[test]
fn mint_round_trip() {
    let m = Mint {
        mint_authority: Authority::Enabled(key(40)),
        supply: 123_456_789_012,
        decimals: 9,
        is_initialized: true,
        freeze_authority: Authority::Disabled,
    };
    let bytes = encode_mint(&m);
    assert_eq!(bytes.len(), MINT_LEN);
    assert_eq!(decode_mint(&bytes), Ok(m));
}

#[test]
fn account_round_trip() {
    let a = TokenAccount {
        mint: key(1),
        owner: key(5),
        amount: u64::MAX,
        delegate: Authority::Enabled(key(9)),
        state: AccountState::Frozen,
        is_native: true,
        delegated_amount: 77,
        close_authority: Authority::Enabled(key(13)),
    };
    let bytes = encode_account(&a);
    assert_eq!(bytes.len(), ACCOUNT_LEN);
    assert_eq!(decode_account(&bytes), Ok(a));
}

#[test]
fn blank_account_round_trip() {
    let a = TokenAccount::blank();
    let bytes = encode_account(&a);
    assert_eq!(decode_account(&bytes), Ok(a));
}

#[test]
fn multisig_round_trip() {
    let ms = Multisig {
        m: 2,
        n: 3,
        is_initialized: true,
        signers: vec![key(1), key(2), key(3)],
    };
    let bytes = encode_multisig(&ms);
    assert_eq!(bytes.len(), MULTISIG_LEN);
    let back = decode_multisig(&bytes).unwrap();
    assert_eq!(back.m, 2);
    assert_eq!(back.n, 3);
    assert!(back.is_initialized);
    assert_eq!(back.signers, ms.signers);
}

#[test]
fn decode_rejects_wrong_length() {
    assert_eq!(
        decode_mint(&vec![0u8; MINT_LEN - 1]),
        Err(TokenError::InvalidAccountData)
    );
    assert_eq!(
        decode_account(&vec![0u8; ACCOUNT_LEN + 1]),
        Err(TokenError::InvalidAccountData)
    );
    assert_eq!(
        decode_multisig(&vec![0u8; 3]),
        Err(TokenError::InvalidAccountData)
    );
}

#[test]
fn decode_rejects_bad_tags() {
    let mut bytes = vec![0u8; MINT_LEN];
    bytes[0] = 7;
    assert_eq!(decode_mint(&bytes), Err(TokenError::InvalidAccountData));
    let mut bytes = vec![0u8; MINT_LEN];
    bytes[42] = 9;
    assert_eq!(decode_mint(&bytes), Err(TokenError::InvalidAccountData));
    let mut bytes = vec![0u8; ACCOUNT_LEN];
    bytes[105] = 3;
    assert_eq!(decode_account(&bytes), Err(TokenError::InvalidAccountData));
    let mut bytes = vec![0u8; ACCOUNT_LEN];
    bytes[106] = 2;
    assert_eq!(decode_account(&bytes), Err(TokenError::InvalidAccountData));
}

#[test]
fn decode_multisig_rejects_bad_threshold() {
    let mut bytes = vec![0u8; MULTISIG_LEN];
    bytes[0] = 0;
    bytes[1] = 2;
    assert_eq!(decode_multisig(&bytes), Err(TokenError::InvalidAccountData));
    let mut bytes = vec![0u8; MULTISIG_LEN];
    bytes[0] = 3;
    bytes[1] = 2;
    assert_eq!(decode_multisig(&bytes), Err(TokenError::InvalidAccountData));
    let mut bytes = vec![0u8; MULTISIG_LEN];
    bytes[0] = 1;
    bytes[1] = 12;
    assert_eq!(decode_multisig(&bytes), Err(TokenError::InvalidAccountData));
}

#[test]
fn zeroed_buffers_decode_as_uninitialized_records() {
    let m = decode_mint(&vec![0u8; MINT_LEN]).unwrap();
    assert!(!m.is_initialized);
    assert_eq!(m.mint_authority, Authority::Disabled);
    assert_eq!(m.supply, 0);
    let a = decode_account(&vec![0u8; ACCOUNT_LEN]).unwrap();
    assert_eq!(a.state, AccountState::Uninitialized);
    assert_eq!(a, TokenAccount::blank());
}

#[test]
fn mint_layout_offsets() {
    let m = Mint {
        mint_authority: Authority::Enabled(Pubkey { w0: 0x0102030405060708, w1: 0, w2: 0, w3: 0 }),
        supply: 0x1122334455667788,
        decimals: 6,
        is_initialized: true,
        freeze_authority: Authority::Disabled,
    };
    let bytes = encode_mint(&m);
    assert_eq!(bytes[0], 1);
    assert_eq!(bytes[1], 0x08);
    assert_eq!(bytes[8], 0x01);
    assert_eq!(bytes[33], 0x88);
    assert_eq!(bytes[40], 0x11);
    assert_eq!(bytes[41], 6);
    assert_eq!(bytes[42], 1);
    assert_eq!(bytes[43], 0);
}
