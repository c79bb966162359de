//! The account codec: fixed-layout little-endian binary encoding of the
//! three record kinds, with decoding that fails with `InvalidAccountData`
//! on a wrong length or an invalid tag, and proofs that decoding inverts
//! encoding on every valid record.
//!
//! Byte offsets. Mint: optional mint authority at 0 (33 bytes: a tag byte,
//! 0 disabled / 1 enabled, then a 32-byte principal), supply at 33 (8),
//! decimals at 41 (1), initialized flag at 42 (1), optional freeze
//! authority at 43 (33); 76 bytes in all. Token account: mint at 0 (32),
//! owner at 32 (32), amount at 64 (8), optional delegate at 72 (33), state
//! at 105 (1), native flag at 106 (1), delegated amount at 107 (8),
//! optional close authority at 115 (33); 148 bytes. Multisig: threshold at
//! 0, signer count at 1, initialized flag at 2, then 11 fixed 32-byte
//! principal slots of which the first `n` are in use and the rest are
//! zero; 355 bytes.

use vstd::bytes::{
    lemma_auto_spec_u64_to_from_le_bytes, spec_u64_from_le_bytes, spec_u64_to_le_bytes,
    u64_from_le_bytes, u64_to_le_bytes,
};
use vstd::prelude::*;
use vstd::slice::slice_subrange;

use crate::error::TokenError;
use crate::state::{AccountState, Authority, Mint, Multisig, Pubkey, TokenAccount, MAX_SIGNERS};

verus! {

/// Bytes of an encoded principal: four 64-bit words.
pub const KEY_LEN: usize = 32;

/// Bytes of an encoded optional authority: a one-byte tag, then a principal
/// (all zero when the tag is 0, disabled).
pub const AUTHORITY_LEN: usize = 33;

/// Bytes of an encoded mint record.
pub const MINT_LEN: usize = 76;

/// Bytes of an encoded token account record.
pub const ACCOUNT_LEN: usize = 148;

/// Bytes of an encoded multisig record: threshold, count and initialized
/// bytes, then `MAX_SIGNERS` fixed principal slots.
pub const MULTISIG_LEN: usize = 355;

// ---------------------------------------------------------------------------
// Principals
// ---------------------------------------------------------------------------

/// The 32-byte encoding of a principal: its words, least-significant first.
pub open spec fn spec_encode_key(k: Pubkey) -> Seq<u8> {
    spec_u64_to_le_bytes(k.w0) + spec_u64_to_le_bytes(k.w1) + spec_u64_to_le_bytes(k.w2)
        + spec_u64_to_le_bytes(k.w3)
}

/// The principal a 32-byte buffer decodes to.
pub open spec fn spec_decode_key(s: Seq<u8>) -> Pubkey
    recommends
        s.len() == KEY_LEN,
{
    Pubkey {
        w0: spec_u64_from_le_bytes(s.subrange(0, 8)),
        w1: spec_u64_from_le_bytes(s.subrange(8, 16)),
        w2: spec_u64_from_le_bytes(s.subrange(16, 24)),
        w3: spec_u64_from_le_bytes(s.subrange(24, 32)),
    }
}

/// An encoded principal is 32 bytes.
pub proof fn lemma_encode_key_len(k: Pubkey)
    ensures
        spec_encode_key(k).len() == KEY_LEN,
{
    lemma_auto_spec_u64_to_from_le_bytes();
}

/// Decoding inverts encoding on every principal.
pub proof fn lemma_key_round_trip(k: Pubkey)
    ensures
        spec_decode_key(spec_encode_key(k)) == k,
{
    lemma_auto_spec_u64_to_from_le_bytes();
    let s = spec_encode_key(k);
    assert(s.subrange(0, 8) =~= spec_u64_to_le_bytes(k.w0));
    assert(s.subrange(8, 16) =~= spec_u64_to_le_bytes(k.w1));
    assert(s.subrange(16, 24) =~= spec_u64_to_le_bytes(k.w2));
    assert(s.subrange(24, 32) =~= spec_u64_to_le_bytes(k.w3));
}

/// Appends the encoding of a principal.
pub fn encode_key_into(out: &mut Vec<u8>, k: &Pubkey)
    ensures
        final(out)@ == old(out)@ + spec_encode_key(*k),
{
    let mut w = u64_to_le_bytes(k.w0);
    out.append(&mut w);
    let mut w = u64_to_le_bytes(k.w1);
    out.append(&mut w);
    let mut w = u64_to_le_bytes(k.w2);
    out.append(&mut w);
    let mut w = u64_to_le_bytes(k.w3);
    out.append(&mut w);
    assert(out@ =~= old(out)@ + spec_encode_key(*k));
}

/// Reads the principal encoded at `off`.
pub fn decode_key_at(data: &Vec<u8>, off: usize) -> (r: Pubkey)
    requires
        off + KEY_LEN <= data@.len(),
    ensures
        r == spec_decode_key(data@.subrange(off as int, off as int + KEY_LEN as int)),
{
    let n = data.len();
    let ghost s = data@.subrange(off as int, off as int + KEY_LEN as int);
    let w0 = u64_from_le_bytes(slice_subrange(data.as_slice(), off, off + 8));
    let w1 = u64_from_le_bytes(slice_subrange(data.as_slice(), off + 8, off + 16));
    let w2 = u64_from_le_bytes(slice_subrange(data.as_slice(), off + 16, off + 24));
    let w3 = u64_from_le_bytes(slice_subrange(data.as_slice(), off + 24, off + 32));
    proof {
        assert(data@.subrange(off as int, off as int + 8) =~= s.subrange(0, 8));
        assert(data@.subrange(off as int + 8, off as int + 16) =~= s.subrange(8, 16));
        assert(data@.subrange(off as int + 16, off as int + 24) =~= s.subrange(16, 24));
        assert(data@.subrange(off as int + 24, off as int + 32) =~= s.subrange(24, 32));
    }
    Pubkey { w0, w1, w2, w3 }
}

// ---------------------------------------------------------------------------
// Optional authorities
// ---------------------------------------------------------------------------

/// The 33-byte encoding of an optional authority: tag 0 with a zero
/// principal when disabled, tag 1 with the principal when enabled.
pub open spec fn spec_encode_authority(a: Authority) -> Seq<u8> {
    match a {
        Authority::Disabled => seq![0u8] + spec_encode_key(Pubkey::spec_zero()),
        Authority::Enabled(k) => seq![1u8] + spec_encode_key(k),
    }
}

/// The optional authority a 33-byte buffer decodes to; `None` on an invalid
/// tag. The principal bytes are ignored when the tag says disabled.
pub open spec fn spec_decode_authority(s: Seq<u8>) -> Option<Authority>
    recommends
        s.len() == AUTHORITY_LEN,
{
    if s[0] == 0 {
        Some(Authority::Disabled)
    } else if s[0] == 1 {
        Some(Authority::Enabled(spec_decode_key(s.subrange(1, 33))))
    } else {
        None
    }
}

/// An encoded optional authority is 33 bytes.
pub proof fn lemma_encode_authority_len(a: Authority)
    ensures
        spec_encode_authority(a).len() == AUTHORITY_LEN,
{
    match a {
        Authority::Disabled => lemma_encode_key_len(Pubkey::spec_zero()),
        Authority::Enabled(k) => lemma_encode_key_len(k),
    }
}

/// Decoding inverts encoding on every optional authority.
pub proof fn lemma_authority_round_trip(a: Authority)
    ensures
        spec_decode_authority(spec_encode_authority(a)) == Some(a),
{
    lemma_encode_authority_len(a);
    match a {
        Authority::Disabled => {},
        Authority::Enabled(k) => {
            lemma_encode_key_len(k);
            assert(spec_encode_authority(a).subrange(1, 33) =~= spec_encode_key(k));
            lemma_key_round_trip(k);
        },
    }
}

/// Appends the encoding of an optional authority.
pub fn encode_authority_into(out: &mut Vec<u8>, a: &Authority)
    ensures
        final(out)@ == old(out)@ + spec_encode_authority(*a),
{
    match a {
        Authority::Disabled => {
            out.push(0u8);
            let zero = Pubkey::zero();
            encode_key_into(out, &zero);
        },
        Authority::Enabled(k) => {
            out.push(1u8);
            encode_key_into(out, k);
        },
    }
    assert(out@ =~= old(out)@ + spec_encode_authority(*a));
}

/// Reads the optional authority encoded at `off`.
pub fn decode_authority_at(data: &Vec<u8>, off: usize) -> (r: Result<Authority, TokenError>)
    requires
        off + AUTHORITY_LEN <= data@.len(),
    ensures
        ({
            let d = spec_decode_authority(
                data@.subrange(off as int, off as int + AUTHORITY_LEN as int),
            );
            match r {
                Ok(a) => d == Some(a),
                Err(e) => d is None && e == TokenError::InvalidAccountData,
            }
        }),
{
    let n = data.len();
    let ghost s = data@.subrange(off as int, off as int + AUTHORITY_LEN as int);
    let tag = data[off];
    proof {
        assert(s[0] == data@[off as int]);
    }
    if tag == 0 {
        Ok(Authority::Disabled)
    } else if tag == 1 {
        let k = decode_key_at(data, off + 1);
        proof {
            assert(data@.subrange(off as int + 1, off as int + 33) =~= s.subrange(1, 33));
        }
        Ok(Authority::Enabled(k))
    } else {
        Err(TokenError::InvalidAccountData)
    }
}

// ---------------------------------------------------------------------------
// Mint records
// ---------------------------------------------------------------------------

/// The byte a boolean flag encodes to.
pub open spec fn spec_bool_byte(b: bool) -> u8 {
    if b {
        1u8
    } else {
        0u8
    }
}

/// The 76-byte encoding of a mint record.
pub open spec fn spec_encode_mint(m: Mint) -> Seq<u8> {
    spec_encode_authority(m.mint_authority) + spec_u64_to_le_bytes(m.supply) + seq![m.decimals]
        + seq![spec_bool_byte(m.is_initialized)] + spec_encode_authority(m.freeze_authority)
}

/// The mint record a buffer decodes to: `InvalidAccountData` on a wrong
/// length, an invalid authority tag, or an invalid flag byte.
pub open spec fn spec_decode_mint(s: Seq<u8>) -> Result<Mint, TokenError> {
    if s.len() != MINT_LEN {
        Err(TokenError::InvalidAccountData)
    } else {
        match (spec_decode_authority(s.subrange(0, 33)), spec_decode_authority(
            s.subrange(43, 76),
        )) {
            (Some(ma), Some(fa)) => if s[42] > 1 {
                Err(TokenError::InvalidAccountData)
            } else {
                Ok(
                    Mint {
                        mint_authority: ma,
                        supply: spec_u64_from_le_bytes(s.subrange(33, 41)),
                        decimals: s[41],
                        is_initialized: s[42] == 1,
                        freeze_authority: fa,
                    },
                )
            },
            _ => Err(TokenError::InvalidAccountData),
        }
    }
}

/// An encoded mint record is 76 bytes.
pub proof fn lemma_encode_mint_len(m: Mint)
    ensures
        spec_encode_mint(m).len() == MINT_LEN,
{
    lemma_encode_authority_len(m.mint_authority);
    lemma_encode_authority_len(m.freeze_authority);
    lemma_auto_spec_u64_to_from_le_bytes();
}

/// Round-trip law for mint records: decoding an encoded mint gives the
/// mint back, for every mint record.
pub proof fn lemma_mint_round_trip(m: Mint)
    ensures
        spec_decode_mint(spec_encode_mint(m)) == Ok::<Mint, TokenError>(m),
{
    lemma_encode_authority_len(m.mint_authority);
    lemma_encode_authority_len(m.freeze_authority);
    lemma_auto_spec_u64_to_from_le_bytes();
    let s = spec_encode_mint(m);
    assert(s.subrange(0, 33) =~= spec_encode_authority(m.mint_authority));
    assert(s.subrange(33, 41) =~= spec_u64_to_le_bytes(m.supply));
    assert(s[41] == m.decimals);
    assert(s[42] == spec_bool_byte(m.is_initialized));
    assert(s.subrange(43, 76) =~= spec_encode_authority(m.freeze_authority));
    lemma_authority_round_trip(m.mint_authority);
    lemma_authority_round_trip(m.freeze_authority);
}

/// Encodes a mint record.
pub fn encode_mint(m: &Mint) -> (r: Vec<u8>)
    ensures
        r@ == spec_encode_mint(*m),
        r@.len() == MINT_LEN,
{
    let mut out: Vec<u8> = Vec::new();
    encode_authority_into(&mut out, &m.mint_authority);
    let mut sup = u64_to_le_bytes(m.supply);
    out.append(&mut sup);
    out.push(m.decimals);
    out.push(if m.is_initialized { 1u8 } else { 0u8 });
    encode_authority_into(&mut out, &m.freeze_authority);
    proof {
        lemma_encode_mint_len(*m);
        assert(out@ =~= spec_encode_mint(*m));
    }
    out
}

/// Decodes a mint record.
pub fn decode_mint(data: &Vec<u8>) -> (r: Result<Mint, TokenError>)
    ensures
        r == spec_decode_mint(data@),
{
    if data.len() != MINT_LEN {
        return Err(TokenError::InvalidAccountData);
    }
    let ma = match decode_authority_at(data, 0) {
        Ok(a) => a,
        Err(e) => { return Err(e); },
    };
    let fa = match decode_authority_at(data, 43) {
        Ok(a) => a,
        Err(e) => { return Err(e); },
    };
    let init_byte = data[42];
    if init_byte > 1 {
        return Err(TokenError::InvalidAccountData);
    }
    let supply = u64_from_le_bytes(slice_subrange(data.as_slice(), 33, 41));
    Ok(
        Mint {
            mint_authority: ma,
            supply,
            decimals: data[41],
            is_initialized: init_byte == 1,
            freeze_authority: fa,
        },
    )
}

// ---------------------------------------------------------------------------
// Token account records
// ---------------------------------------------------------------------------

/// The byte an account state encodes to.
pub open spec fn spec_state_byte(st: AccountState) -> u8 {
    match st {
        AccountState::Uninitialized => 0u8,
        AccountState::Initialized => 1u8,
        AccountState::Frozen => 2u8,
    }
}

/// The account state a byte decodes to; `None` on an invalid tag.
pub open spec fn spec_byte_state(b: u8) -> Option<AccountState> {
    if b == 0 {
        Some(AccountState::Uninitialized)
    } else if b == 1 {
        Some(AccountState::Initialized)
    } else if b == 2 {
        Some(AccountState::Frozen)
    } else {
        None
    }
}

/// The 148-byte encoding of a token account record.
pub open spec fn spec_encode_account(a: TokenAccount) -> Seq<u8> {
    spec_encode_key(a.mint) + spec_encode_key(a.owner) + spec_u64_to_le_bytes(a.amount)
        + spec_encode_authority(a.delegate) + seq![spec_state_byte(a.state)]
        + seq![spec_bool_byte(a.is_native)] + spec_u64_to_le_bytes(a.delegated_amount)
        + spec_encode_authority(a.close_authority)
}

/// The token account record a buffer decodes to: `InvalidAccountData` on a
/// wrong length or any invalid tag byte.
pub open spec fn spec_decode_account(s: Seq<u8>) -> Result<TokenAccount, TokenError> {
    if s.len() != ACCOUNT_LEN {
        Err(TokenError::InvalidAccountData)
    } else {
        match (spec_decode_authority(s.subrange(72, 105)), spec_decode_authority(
            s.subrange(115, 148),
        ), spec_byte_state(s[105])) {
            (Some(delegate), Some(close_authority), Some(state)) => if s[106] > 1 {
                Err(TokenError::InvalidAccountData)
            } else {
                Ok(
                    TokenAccount {
                        mint: spec_decode_key(s.subrange(0, 32)),
                        owner: spec_decode_key(s.subrange(32, 64)),
                        amount: spec_u64_from_le_bytes(s.subrange(64, 72)),
                        delegate,
                        state,
                        is_native: s[106] == 1,
                        delegated_amount: spec_u64_from_le_bytes(s.subrange(107, 115)),
                        close_authority,
                    },
                )
            },
            _ => Err(TokenError::InvalidAccountData),
        }
    }
}

/// An encoded token account record is 148 bytes.
pub proof fn lemma_encode_account_len(a: TokenAccount)
    ensures
        spec_encode_account(a).len() == ACCOUNT_LEN,
{
    lemma_encode_key_len(a.mint);
    lemma_encode_key_len(a.owner);
    lemma_encode_authority_len(a.delegate);
    lemma_encode_authority_len(a.close_authority);
    lemma_auto_spec_u64_to_from_le_bytes();
}

/// Round-trip law for token account records: decoding an encoded account
/// gives the account back, for every account record.
pub proof fn lemma_account_round_trip(a: TokenAccount)
    ensures
        spec_decode_account(spec_encode_account(a)) == Ok::<TokenAccount, TokenError>(a),
{
    lemma_encode_key_len(a.mint);
    lemma_encode_key_len(a.owner);
    lemma_encode_authority_len(a.delegate);
    lemma_encode_authority_len(a.close_authority);
    lemma_auto_spec_u64_to_from_le_bytes();
    let s = spec_encode_account(a);
    assert(s.subrange(0, 32) =~= spec_encode_key(a.mint));
    assert(s.subrange(32, 64) =~= spec_encode_key(a.owner));
    assert(s.subrange(64, 72) =~= spec_u64_to_le_bytes(a.amount));
    assert(s.subrange(72, 105) =~= spec_encode_authority(a.delegate));
    assert(s[105] == spec_state_byte(a.state));
    assert(s[106] == spec_bool_byte(a.is_native));
    assert(s.subrange(107, 115) =~= spec_u64_to_le_bytes(a.delegated_amount));
    assert(s.subrange(115, 148) =~= spec_encode_authority(a.close_authority));
    lemma_key_round_trip(a.mint);
    lemma_key_round_trip(a.owner);
    lemma_authority_round_trip(a.delegate);
    lemma_authority_round_trip(a.close_authority);
}

/// Encodes a token account record.
pub fn encode_account(a: &TokenAccount) -> (r: Vec<u8>)
    ensures
        r@ == spec_encode_account(*a),
        r@.len() == ACCOUNT_LEN,
{
    let mut out: Vec<u8> = Vec::new();
    encode_key_into(&mut out, &a.mint);
    encode_key_into(&mut out, &a.owner);
    let mut amt = u64_to_le_bytes(a.amount);
    out.append(&mut amt);
    encode_authority_into(&mut out, &a.delegate);
    out.push(
        match a.state {
            AccountState::Uninitialized => 0u8,
            AccountState::Initialized => 1u8,
            AccountState::Frozen => 2u8,
        },
    );
    out.push(if a.is_native { 1u8 } else { 0u8 });
    let mut del = u64_to_le_bytes(a.delegated_amount);
    out.append(&mut del);
    encode_authority_into(&mut out, &a.close_authority);
    proof {
        lemma_encode_account_len(*a);
        assert(out@ =~= spec_encode_account(*a));
    }
    out
}

/// Decodes a token account record.
pub fn decode_account(data: &Vec<u8>) -> (r: Result<TokenAccount, TokenError>)
    ensures
        r == spec_decode_account(data@),
{
    if data.len() != ACCOUNT_LEN {
        return Err(TokenError::InvalidAccountData);
    }
    let delegate = match decode_authority_at(data, 72) {
        Ok(a) => a,
        Err(e) => { return Err(e); },
    };
    let close_authority = match decode_authority_at(data, 115) {
        Ok(a) => a,
        Err(e) => { return Err(e); },
    };
    let state = if data[105] == 0 {
        AccountState::Uninitialized
    } else if data[105] == 1 {
        AccountState::Initialized
    } else if data[105] == 2 {
        AccountState::Frozen
    } else {
        return Err(TokenError::InvalidAccountData);
    };
    let native_byte = data[106];
    if native_byte > 1 {
        return Err(TokenError::InvalidAccountData);
    }
    let mint = decode_key_at(data, 0);
    let owner = decode_key_at(data, 32);
    let amount = u64_from_le_bytes(slice_subrange(data.as_slice(), 64, 72));
    let delegated_amount = u64_from_le_bytes(slice_subrange(data.as_slice(), 107, 115));
    Ok(
        TokenAccount {
            mint,
            owner,
            amount,
            delegate,
            state,
            is_native: native_byte == 1,
            delegated_amount,
            close_authority,
        },
    )
}

// ---------------------------------------------------------------------------
// Multisig records
// ---------------------------------------------------------------------------

/// The concatenated 32-byte encodings of a sequence of principals.
pub open spec fn spec_encode_slots(keys: Seq<Pubkey>) -> Seq<u8>
    decreases keys.len(),
{
    if keys.len() == 0 {
        Seq::empty()
    } else {
        spec_encode_slots(keys.drop_last()) + spec_encode_key(keys.last())
    }
}

/// Concatenated slots take 32 bytes per principal.
pub proof fn lemma_encode_slots_len(keys: Seq<Pubkey>)
    ensures
        spec_encode_slots(keys).len() == 32 * keys.len(),
    decreases keys.len(),
{
    if keys.len() > 0 {
        lemma_encode_slots_len(keys.drop_last());
        lemma_encode_key_len(keys.last());
    }
}

/// The bytes of the `i`th slot are the encoding of the `i`th principal.
pub proof fn lemma_encode_slots_extract(keys: Seq<Pubkey>, i: int)
    requires
        0 <= i < keys.len(),
    ensures
        spec_encode_slots(keys).subrange(32 * i, 32 * i + 32) == spec_encode_key(keys[i]),
    decreases keys.len(),
{
    lemma_encode_slots_len(keys);
    lemma_encode_slots_len(keys.drop_last());
    lemma_encode_key_len(keys.last());
    if i == keys.len() - 1 {
        assert(spec_encode_slots(keys).subrange(32 * i, 32 * i + 32) =~= spec_encode_key(
            keys.last(),
        ));
    } else {
        lemma_encode_slots_extract(keys.drop_last(), i);
        assert(keys.drop_last()[i] == keys[i]);
        assert(spec_encode_slots(keys).subrange(32 * i, 32 * i + 32) =~= spec_encode_slots(
            keys.drop_last(),
        ).subrange(32 * i, 32 * i + 32));
    }
}

/// The recorded signers padded with zero principals to `MAX_SIGNERS` slots.
pub open spec fn spec_padded_signers(keys: Seq<Pubkey>) -> Seq<Pubkey>
    recommends
        keys.len() <= MAX_SIGNERS,
{
    keys + Seq::new((MAX_SIGNERS - keys.len()) as nat, |i: int| Pubkey::spec_zero())
}

/// The 355-byte encoding of a well-formed multisig record: threshold,
/// count and initialized bytes, then the signers in their slots and zero
/// principals in the unused slots.
pub open spec fn spec_encode_multisig(ms: Multisig) -> Seq<u8>
    recommends
        ms.wf(),
{
    seq![ms.m, ms.n, spec_bool_byte(ms.is_initialized)] + spec_encode_slots(
        spec_padded_signers(ms.signers@),
    )
}

/// The content a multisig buffer decodes to, as (threshold, count,
/// initialized, signers): `InvalidAccountData` on a wrong length, an
/// invalid flag byte, or a threshold/count pair outside
/// `1 <= m <= n <= MAX_SIGNERS`.
pub open spec fn spec_decode_multisig(s: Seq<u8>) -> Result<
    (u8, u8, bool, Seq<Pubkey>),
    TokenError,
> {
    if s.len() != MULTISIG_LEN {
        Err(TokenError::InvalidAccountData)
    } else {
        let m = s[0];
        let n = s[1];
        if s[2] > 1 || m < 1 || m > n || n > MAX_SIGNERS as u8 {
            Err(TokenError::InvalidAccountData)
        } else {
            Ok(
                (
                    m,
                    n,
                    s[2] == 1,
                    Seq::new(
                        n as nat,
                        |i: int| spec_decode_key(s.subrange(3 + 32 * i, 35 + 32 * i)),
                    ),
                ),
            )
        }
    }
}

/// An encoded multisig record is 355 bytes.
pub proof fn lemma_encode_multisig_len(ms: Multisig)
    requires
        ms.wf(),
    ensures
        spec_encode_multisig(ms).len() == MULTISIG_LEN,
{
    lemma_encode_slots_len(spec_padded_signers(ms.signers@));
}

/// Round-trip law for multisig records: decoding an encoded multisig gives
/// back its threshold, count, initialized flag and recorded signers, for
/// every well-formed multisig record.
pub proof fn lemma_multisig_round_trip(ms: Multisig)
    requires
        ms.wf(),
    ensures
        spec_decode_multisig(spec_encode_multisig(ms)) == Ok::<
            (u8, u8, bool, Seq<Pubkey>),
            TokenError,
        >((ms.m, ms.n, ms.is_initialized, ms.signers@)),
{
    let padded = spec_padded_signers(ms.signers@);
    let slots = spec_encode_slots(padded);
    let s = spec_encode_multisig(ms);
    lemma_encode_slots_len(padded);
    assert(s[0] == ms.m);
    assert(s[1] == ms.n);
    assert(s[2] == spec_bool_byte(ms.is_initialized));
    let n = ms.n as int;
    let decoded = Seq::new(
        ms.n as nat,
        |i: int| spec_decode_key(s.subrange(3 + 32 * i, 35 + 32 * i)),
    );
    assert forall|i: int| 0 <= i < n implies decoded[i] == ms.signers@[i] by {
        lemma_encode_slots_extract(padded, i);
        assert(s.subrange(3 + 32 * i, 35 + 32 * i) =~= slots.subrange(32 * i, 32 * i + 32));
        assert(padded[i] == ms.signers@[i]);
        lemma_key_round_trip(ms.signers@[i]);
    }
    assert(decoded =~= ms.signers@);
}

/// Encodes a well-formed multisig record.
pub fn encode_multisig(ms: &Multisig) -> (r: Vec<u8>)
    requires
        ms.wf(),
    ensures
        r@ == spec_encode_multisig(*ms),
        r@.len() == MULTISIG_LEN,
{
    let ghost padded = spec_padded_signers(ms.signers@);
    let ghost hdr = seq![ms.m, ms.n, spec_bool_byte(ms.is_initialized)];
    let mut out: Vec<u8> = Vec::new();
    out.push(ms.m);
    out.push(ms.n);
    out.push(if ms.is_initialized { 1u8 } else { 0u8 });
    assert(out@ =~= hdr + spec_encode_slots(padded.subrange(0, 0)));
    let zero = Pubkey::zero();
    let mut i: usize = 0;
    while i < MAX_SIGNERS
        invariant
            i <= MAX_SIGNERS,
            ms.wf(),
            padded == spec_padded_signers(ms.signers@),
            hdr == seq![ms.m, ms.n, spec_bool_byte(ms.is_initialized)],
            zero == Pubkey::spec_zero(),
            out@ == hdr + spec_encode_slots(padded.subrange(0, i as int)),
        decreases MAX_SIGNERS - i,
    {
        let key = if i < ms.signers.len() {
            ms.signers[i]
        } else {
            zero
        };
        proof {
            if i < ms.signers@.len() {
                assert(padded[i as int] == ms.signers@[i as int]);
            } else {
                let tail = Seq::new(
                    (MAX_SIGNERS - ms.signers@.len()) as nat,
                    |j: int| Pubkey::spec_zero(),
                );
                assert(padded[i as int] == tail[i as int - ms.signers@.len()]);
                assert(tail[i as int - ms.signers@.len()] == Pubkey::spec_zero());
            }
            assert(key == padded[i as int]);
        }
        encode_key_into(&mut out, &key);
        proof {
            let pre = padded.subrange(0, i as int);
            let cur = padded.subrange(0, i as int + 1);
            assert(cur.drop_last() =~= pre);
            assert(cur.last() == padded[i as int]);
            assert(out@ =~= hdr + spec_encode_slots(cur));
        }
        i += 1;
    }
    proof {
        assert(padded.subrange(0, MAX_SIGNERS as int) =~= padded);
        lemma_encode_multisig_len(*ms);
        assert(out@ =~= spec_encode_multisig(*ms));
    }
    out
}

/// Decodes a multisig record; a decoded record is well formed.
pub fn decode_multisig(data: &Vec<u8>) -> (r: Result<Multisig, TokenError>)
    ensures
        ({
            let d = spec_decode_multisig(data@);
            match r {
                Ok(ms) => d == Ok::<(u8, u8, bool, Seq<Pubkey>), TokenError>(
                    (ms.m, ms.n, ms.is_initialized, ms.signers@),
                ) && ms.wf(),
                Err(e) => d == Err::<(u8, u8, bool, Seq<Pubkey>), TokenError>(e),
            }
        }),
{
    if data.len() != MULTISIG_LEN {
        return Err(TokenError::InvalidAccountData);
    }
    let m = data[0];
    let n = data[1];
    let init_byte = data[2];
    if init_byte > 1 || m < 1 || m > n || n > MAX_SIGNERS as u8 {
        return Err(TokenError::InvalidAccountData);
    }
    let mut signers: Vec<Pubkey> = Vec::new();
    let mut i: usize = 0;
    while i < n as usize
        invariant
            i <= n as usize,
            n as int <= MAX_SIGNERS as int,
            data@.len() == MULTISIG_LEN as int,
            signers@.len() == i as int,
            forall|j: int|
                0 <= j < i as int ==> signers@[j] == spec_decode_key(
                    data@.subrange(3 + 32 * j, 35 + 32 * j),
                ),
        decreases n as usize - i,
    {
        let k = decode_key_at(data, 3 + 32 * i);
        signers.push(k);
        i += 1;
    }
    let ghost decoded = Seq::new(
        n as nat,
        |i: int| spec_decode_key(data@.subrange(3 + 32 * i, 35 + 32 * i)),
    );
    proof {
        assert(signers@ =~= decoded);
    }
    Ok(Multisig { m, n, is_initialized: init_byte == 1, signers })
}

} // verus!
