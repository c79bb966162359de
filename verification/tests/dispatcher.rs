use token_ledger::codec::{decode_account, decode_mint, ACCOUNT_LEN, MINT_LEN, MULTISIG_LEN};
use token_ledger::dispatch::{
    dispatch, parse_instruction, AccountSlot, QueryOutput, TokenInstruction,
};
use token_ledger::error::TokenError;
use token_ledger::state::{AccountState, Authority, Pubkey};

fn key(n: u64) -> Pubkey {
    Pubkey { w0: n, w1: 0, w2: 0, w3: 0 }
}

fn key_bytes(k: &Pubkey) -> Vec<u8> {
    let mut out = Vec::new();
    out.extend_from_slice(&k.w0.to_le_bytes());
    out.extend_from_slice(&k.w1.to_le_bytes());
    out.extend_from_slice(&k.w2.to_le_bytes());
    out.extend_from_slice(&k.w3.to_le_bytes());
    out
}

fn slot(k: Pubkey, signer: bool, writable: bool, data: Vec<u8>) -> AccountSlot {
    AccountSlot { key: k, is_signer: signer, is_writable: writable, data }
}

fn initialize_mint_bytes(decimals: u8, mint_authority: &Pubkey) -> Vec<u8> {
    let mut ins = vec![0u8, decimals];
    ins.extend_from_slice(&key_bytes(mint_authority));
    ins.push(0);
    ins.extend_from_slice(&[0u8; 32]);
    ins
}

fn amount_ins(op: u8, amount: u64) -> Vec<u8> {
    let mut ins = vec![op];
    ins.extend_from_slice(&amount.to_le_bytes());
    ins
}

#[test]
fn parse_rejects_unknown_opcode_and_bad_length() {
    assert_eq!(
        parse_instruction(&vec![99u8]),
        Err(TokenError::InvalidAccountData)
    );
    assert_eq!(parse_instruction(&vec![]), Err(TokenError::InvalidAccountData));
    assert_eq!(
        parse_instruction(&vec![3u8, 1, 2]),
        Err(TokenError::InvalidAccountData)
    );
}

#[test]
fn parse_reads_amount_operand() {
    let ins = parse_instruction(&amount_ins(3, 400_000)).unwrap();
    match ins {
        TokenInstruction::Transfer { amount } => assert_eq!(amount, 400_000),
        _ => panic!("wrong instruction"),
    }
    let ins = parse_instruction(&amount_ins(7, u64::MAX)).unwrap();
    match ins {
        TokenInstruction::MintTo { amount } => assert_eq!(amount, u64::MAX),
        _ => panic!("wrong instruction"),
    }
}

#[test]
fn parse_reads_initialize_mint_operands() {
    let a = key(77);
    let ins = parse_instruction(&initialize_mint_bytes(6, &a)).unwrap();
    match ins {
        TokenInstruction::InitializeMint { decimals, mint_authority, freeze_authority } => {
            assert_eq!(decimals, 6);
            assert_eq!(mint_authority, a);
            assert_eq!(freeze_authority, Authority::Disabled);
        },
        _ => panic!("wrong instruction"),
    }
}

#[test]
fn parse_rejects_bad_authority_tag() {
    let mut bytes = initialize_mint_bytes(6, &key(77));
    bytes[34] = 9;
    assert_eq!(parse_instruction(&bytes), Err(TokenError::InvalidAccountData));
}

#[test]
fn dispatch_full_scenario_over_bytes() {
    let a = key(1);
    let b = key(2);
    let c = key(3);
    let mint_key = key(10);
    let x_key = key(11);
    let y_key = key(12);

    // Create the mint.
    let ins = parse_instruction(&initialize_mint_bytes(6, &a)).unwrap();
    let mut slots = vec![slot(mint_key, false, true, vec![0u8; MINT_LEN])];
    let r = dispatch(&ins, &mut slots);
    assert!(matches!(r, Ok(QueryOutput::Nothing)));
    let mint_data = slots[0].data.clone();
    let m = decode_mint(&mint_data).unwrap();
    assert!(m.is_initialized);
    assert_eq!(m.decimals, 6);

    // Create two accounts, owners taken from the third slot.
    let ins = parse_instruction(&vec![1u8]).unwrap();
    let mut slots = vec![
        slot(x_key, false, true, vec![0u8; ACCOUNT_LEN]),
        slot(mint_key, false, false, mint_data.clone()),
        slot(b, false, false, vec![]),
    ];
    assert!(matches!(dispatch(&ins, &mut slots), Ok(QueryOutput::Nothing)));
    let x_data = slots[0].data.clone();
    let mut slots = vec![
        slot(y_key, false, true, vec![0u8; ACCOUNT_LEN]),
        slot(mint_key, false, false, mint_data.clone()),
        slot(c, false, false, vec![]),
    ];
    assert!(matches!(dispatch(&ins, &mut slots), Ok(QueryOutput::Nothing)));
    let y_data = slots[0].data.clone();

    // Mint a supply into X, signed by the mint authority.
    let ins = parse_instruction(&amount_ins(7, 1_000_000)).unwrap();
    let mut slots = vec![
        slot(mint_key, false, true, mint_data.clone()),
        slot(x_key, false, true, x_data.clone()),
        slot(a, true, false, vec![]),
    ];
    assert!(matches!(dispatch(&ins, &mut slots), Ok(QueryOutput::Nothing)));
    let mint_data = slots[0].data.clone();
    let x_data = slots[1].data.clone();
    assert_eq!(decode_mint(&mint_data).unwrap().supply, 1_000_000);
    assert_eq!(decode_account(&x_data).unwrap().amount, 1_000_000);

    // Transfer from X to Y, signed by X's owner.
    let ins = parse_instruction(&amount_ins(3, 400_000)).unwrap();
    let mut slots = vec![
        slot(x_key, false, true, x_data.clone()),
        slot(y_key, false, true, y_data.clone()),
        slot(b, true, false, vec![]),
    ];
    assert!(matches!(dispatch(&ins, &mut slots), Ok(QueryOutput::Nothing)));
    assert_eq!(decode_account(&slots[0].data).unwrap().amount, 600_000);
    assert_eq!(decode_account(&slots[1].data).unwrap().amount, 400_000);
    assert_eq!(decode_mint(&mint_data).unwrap().supply, 1_000_000);
}

#[test]
fn dispatch_rejects_non_writable_slot() {
    let ins = parse_instruction(&initialize_mint_bytes(6, &key(1))).unwrap();
    let mut slots = vec![slot(key(10), false, false, vec![0u8; MINT_LEN])];
    assert_eq!(dispatch(&ins, &mut slots), Err(TokenError::AccountNotMutable));
    assert_eq!(slots[0].data, vec![0u8; MINT_LEN]);
}

#[test]
fn dispatch_rejects_missing_accounts() {
    let ins = parse_instruction(&amount_ins(3, 5)).unwrap();
    let mut slots = vec![slot(key(10), false, true, vec![0u8; ACCOUNT_LEN])];
    assert_eq!(dispatch(&ins, &mut slots), Err(TokenError::InvalidAccountData));
}

#[test]
fn dispatch_transfer_requires_signature_flag() {
    let b = key(2);
    let mint_key = key(10);
    let mut x = vec![0u8; ACCOUNT_LEN];
    // Build X by initializing over bytes: mint field, owner field, state.
    x[..32].copy_from_slice(&key_bytes(&mint_key));
    x[32..64].copy_from_slice(&key_bytes(&b));
    x[64..72].copy_from_slice(&100u64.to_le_bytes());
    x[105] = 1;
    let mut y = vec![0u8; ACCOUNT_LEN];
    y[..32].copy_from_slice(&key_bytes(&mint_key));
    y[32..64].copy_from_slice(&key_bytes(&key(3)));
    y[105] = 1;
    let ins = parse_instruction(&amount_ins(3, 10)).unwrap();
    // The owner slot is present but not marked as a signer.
    let mut slots = vec![
        slot(key(11), false, true, x.clone()),
        slot(key(12), false, true, y.clone()),
        slot(b, false, false, vec![]),
    ];
    assert_eq!(dispatch(&ins, &mut slots), Err(TokenError::MissingSigner));
    // Marked as a signer, the same transfer commits.
    let mut slots = vec![
        slot(key(11), false, true, x),
        slot(key(12), false, true, y),
        slot(b, true, false, vec![]),
    ];
    assert!(matches!(dispatch(&ins, &mut slots), Ok(QueryOutput::Nothing)));
    assert_eq!(decode_account(&slots[0].data).unwrap().amount, 90);
}

#[test]
fn dispatch_initialize_multisig_over_bytes() {
    let s1 = key(21);
    let s2 = key(22);
    let s3 = key(23);
    let ins = parse_instruction(&vec![2u8, 2u8]).unwrap();
    let mut slots = vec![
        slot(key(20), false, true, vec![0u8; MULTISIG_LEN]),
        slot(s1, false, false, vec![]),
        slot(s2, false, false, vec![]),
        slot(s3, false, false, vec![]),
    ];
    assert!(matches!(dispatch(&ins, &mut slots), Ok(QueryOutput::Nothing)));
    let ms = token_ledger::codec::decode_multisig(&slots[0].data).unwrap();
    assert_eq!(ms.m, 2);
    assert_eq!(ms.n, 3);
    assert_eq!(ms.signers, vec![s1, s2, s3]);
    // A second initialization of the same bytes is rejected.
    let r = dispatch(&ins, &mut slots);
    assert_eq!(r, Err(TokenError::AlreadyInitialized));
}

#[test]
fn dispatch_queries_over_bytes() {
    let a = key(1);
    let mint_key = key(10);
    let ins = parse_instruction(&initialize_mint_bytes(2, &a)).unwrap();
    let mut slots = vec![slot(mint_key, false, true, vec![0u8; MINT_LEN])];
    dispatch(&ins, &mut slots).unwrap();
    let mint_data = slots[0].data.clone();

    let ins = parse_instruction(&vec![21u8]).unwrap();
    let mut slots = vec![slot(mint_key, false, false, mint_data.clone())];
    match dispatch(&ins, &mut slots).unwrap() {
        QueryOutput::DataSize(n) => assert_eq!(n, ACCOUNT_LEN),
        _ => panic!("wrong output"),
    }

    let ins = parse_instruction(&amount_ins(23, 123)).unwrap();
    let mut slots = vec![slot(mint_key, false, false, mint_data.clone())];
    match dispatch(&ins, &mut slots).unwrap() {
        QueryOutput::UiAmount(u) => assert_eq!(u, b"1.23".to_vec()),
        _ => panic!("wrong output"),
    }

    let mut ins_bytes = vec![24u8];
    ins_bytes.extend_from_slice(b"4.56");
    let ins = parse_instruction(&ins_bytes).unwrap();
    let mut slots = vec![slot(mint_key, false, false, mint_data)];
    match dispatch(&ins, &mut slots).unwrap() {
        QueryOutput::RawAmount(v) => assert_eq!(v, 456),
        _ => panic!("wrong output"),
    }
}

#[test]
fn dispatch_set_authority_over_bytes() {
    let a = key(1);
    let new_auth = key(9);
    let mint_key = key(10);
    let ins = parse_instruction(&initialize_mint_bytes(2, &a)).unwrap();
    let mut slots = vec![slot(mint_key, false, true, vec![0u8; MINT_LEN])];
    dispatch(&ins, &mut slots).unwrap();
    let mint_data = slots[0].data.clone();

    // Hand the mint authority over: kind byte 0, enabled tag, new key.
    let mut ins_bytes = vec![6u8, 0u8, 1u8];
    ins_bytes.extend_from_slice(&key_bytes(&new_auth));
    let ins = parse_instruction(&ins_bytes).unwrap();
    let mut slots = vec![
        slot(mint_key, false, true, mint_data),
        slot(a, true, false, vec![]),
    ];
    assert!(matches!(dispatch(&ins, &mut slots), Ok(QueryOutput::Nothing)));
    let m = decode_mint(&slots[0].data).unwrap();
    assert_eq!(m.mint_authority, Authority::Enabled(new_auth));
}

#[test]
fn dispatch_close_account_over_bytes() {
    let b = key(2);
    let mut x = vec![0u8; ACCOUNT_LEN];
    x[..32].copy_from_slice(&key_bytes(&key(10)));
    x[32..64].copy_from_slice(&key_bytes(&b));
    x[105] = 1;
    let ins = parse_instruction(&vec![9u8]).unwrap();
    let mut slots = vec![
        slot(key(11), false, true, x),
        slot(b, false, true, vec![]),
        slot(b, true, false, vec![]),
    ];
    assert!(matches!(dispatch(&ins, &mut slots), Ok(QueryOutput::Nothing)));
    let closed = decode_account(&slots[0].data).unwrap();
    assert_eq!(closed.state, AccountState::Uninitialized);
    assert_eq!(closed.amount, 0);
}

#[test]
fn dispatch_freeze_with_multisig_authority() {
    let s1 = key(21);
    let s2 = key(22);
    let s3 = key(23);
    let fkey = key(20);
    let mint_key = key(10);

    // A mint whose freeze authority is the multisig's principal.
    let mut ins_bytes = vec![0u8, 0u8];
    ins_bytes.extend_from_slice(&key_bytes(&key(1)));
    ins_bytes.push(1);
    ins_bytes.extend_from_slice(&key_bytes(&fkey));
    let ins = parse_instruction(&ins_bytes).unwrap();
    let mut slots = vec![slot(mint_key, false, true, vec![0u8; MINT_LEN])];
    dispatch(&ins, &mut slots).unwrap();
    let mint_data = slots[0].data.clone();

    // The multisig record stored at the freeze authority's principal.
    let ins = parse_instruction(&vec![2u8, 2u8]).unwrap();
    let mut slots = vec![
        slot(fkey, false, true, vec![0u8; MULTISIG_LEN]),
        slot(s1, false, false, vec![]),
        slot(s2, false, false, vec![]),
        slot(s3, false, false, vec![]),
    ];
    dispatch(&ins, &mut slots).unwrap();
    let ms_data = slots[0].data.clone();

    // A live account of the mint.
    let mut x = vec![0u8; ACCOUNT_LEN];
    x[..32].copy_from_slice(&key_bytes(&mint_key));
    x[32..64].copy_from_slice(&key_bytes(&key(2)));
    x[105] = 1;

    // One of three signers is not enough.
    let ins = parse_instruction(&vec![10u8]).unwrap();
    let mut slots = vec![
        slot(key(11), false, true, x.clone()),
        slot(mint_key, false, false, mint_data.clone()),
        slot(fkey, false, false, ms_data.clone()),
        slot(s1, true, false, vec![]),
    ];
    assert_eq!(dispatch(&ins, &mut slots), Err(TokenError::MissingSigner));

    // Two of three commit the freeze.
    let mut slots = vec![
        slot(key(11), false, true, x),
        slot(mint_key, false, false, mint_data),
        slot(fkey, false, false, ms_data),
        slot(s1, true, false, vec![]),
        slot(s3, true, false, vec![]),
    ];
    assert!(matches!(dispatch(&ins, &mut slots), Ok(QueryOutput::Nothing)));
    assert_eq!(
        decode_account(&slots[0].data).unwrap().state,
        AccountState::Frozen
    );
}
