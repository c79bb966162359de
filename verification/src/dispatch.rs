//! The instruction dispatcher: an opcode with fixed-layout operand bytes
//! is parsed into an instruction, and an instruction is interpreted
//! against a caller-supplied ordered list of account slots — decode the
//! referenced records, validate authority against the slots marked as
//! signers, run the transition, re-encode. Mutations touch only slots
//! marked writable; anything else is `AccountNotMutable`.
//!
//! Operand layout after the opcode byte: amounts are 8 little-endian
//! bytes; principals are 32 bytes; optional authorities are a tag byte
//! then 32 bytes as in the account codec; an authority kind and a
//! multisig threshold are one byte each; a UI amount string is the rest
//! of the payload.

use vstd::bytes::{spec_u64_from_le_bytes, u64_from_le_bytes};
use vstd::prelude::*;
use vstd::slice::slice_subrange;

use crate::codec::{
    decode_authority_at, decode_key_at, spec_decode_authority, spec_decode_key, MULTISIG_LEN,
};
use crate::error::TokenError;
use crate::instructions::AuthorityType;
use crate::state::{Authority, Multisig, Pubkey};

verus! {

/// The read-only result an instruction hands back beside success.
#[derive(Debug, PartialEq)]
pub enum QueryOutput {
    /// No query result: the instruction only moved record state.
    Nothing,
    /// The byte size a record needs, from `get_account_data_size`.
    DataSize(usize),
    /// A rendered UI amount string, from `amount_to_ui_amount`.
    UiAmount(Vec<u8>),
    /// A raw amount, from `ui_amount_to_amount`.
    RawAmount(u64),
}

/// One entry of the caller-supplied account list: the account's principal,
/// its role flags for this instruction, and its record bytes.
pub struct AccountSlot {
    /// The account's principal.
    pub key: Pubkey,
    /// Whether this principal signed the request.
    pub is_signer: bool,
    /// Whether the caller declared this account mutable.
    pub is_writable: bool,
    /// The account's record bytes.
    pub data: Vec<u8>,
}

/// The signer set of an account list: the keys of the slots marked as
/// signers, in order.
pub open spec fn spec_signer_keys(slots: Seq<AccountSlot>) -> Seq<Pubkey>
    decreases slots.len(),
{
    if slots.len() == 0 {
        Seq::empty()
    } else {
        spec_signer_keys(slots.drop_last()) + if slots.last().is_signer {
            seq![slots.last().key]
        } else {
            Seq::empty()
        }
    }
}

/// Collects the signer set of an account list.
pub fn signer_keys(slots: &Vec<AccountSlot>) -> (r: Vec<Pubkey>)
    ensures
        r@ == spec_signer_keys(slots@),
{
    let mut out: Vec<Pubkey> = Vec::new();
    let mut i: usize = 0;
    while i < slots.len()
        invariant
            i <= slots@.len(),
            out@ == spec_signer_keys(slots@.subrange(0, i as int)),
        decreases slots@.len() - i,
    {
        let ghost pre = slots@.subrange(0, i as int);
        let ghost cur = slots@.subrange(0, i as int + 1);
        proof {
            assert(cur.drop_last() =~= pre);
            assert(cur.last() == slots@[i as int]);
        }
        if slots[i].is_signer {
            out.push(slots[i].key);
            proof {
                assert(out@ =~= spec_signer_keys(cur));
            }
        } else {
            proof {
                assert(out@ =~= spec_signer_keys(cur));
            }
        }
        i += 1;
    }
    proof {
        assert(slots@.subrange(0, slots@.len() as int) =~= slots@);
    }
    out
}

/// The keys of all slots from position `from` on, in order: the recorded
/// signers of a multisig being initialized.
pub open spec fn spec_slot_keys_from(slots: Seq<AccountSlot>, from: int) -> Seq<Pubkey>
    decreases slots.len() - from,
{
    if from < 0 || from >= slots.len() {
        Seq::empty()
    } else {
        seq![slots[from].key] + spec_slot_keys_from(slots, from + 1)
    }
}

/// Collects the keys of all slots from position `from` on.
pub fn slot_keys_from(slots: &Vec<AccountSlot>, from: usize) -> (r: Vec<Pubkey>)
    ensures
        r@ == spec_slot_keys_from(slots@, from as int),
{
    let mut out: Vec<Pubkey> = Vec::new();
    let mut i: usize = slots.len();
    while i > from
        invariant
            from <= i <= slots@.len() || (i == slots@.len() && slots@.len() < from),
            i >= from ==> out@ == spec_slot_keys_from(slots@, i as int),
            i < from ==> out@ == Seq::<Pubkey>::empty(),
        decreases i,
    {
        i -= 1;
        let mut out2: Vec<Pubkey> = Vec::new();
        out2.push(slots[i].key);
        out2.append(&mut out);
        out = out2;
        proof {
            assert(out@ =~= spec_slot_keys_from(slots@, i as int));
        }
    }
    if slots.len() < from {
        proof {
            assert(spec_slot_keys_from(slots@, from as int) =~= Seq::<Pubkey>::empty());
        }
    }
    out
}

// ---------------------------------------------------------------------------
// Instruction parsing
// ---------------------------------------------------------------------------

/// A parsed instruction: the opcode with its decoded operand payload.
#[derive(Debug, PartialEq)]
pub enum TokenInstruction {
    InitializeMint { decimals: u8, mint_authority: Pubkey, freeze_authority: Authority },
    InitializeAccount,
    InitializeMultisig { m: u8 },
    Transfer { amount: u64 },
    Approve { amount: u64 },
    Revoke,
    SetAuthority { authority_type: AuthorityType, new_authority: Authority },
    MintTo { amount: u64 },
    Burn { amount: u64 },
    CloseAccount,
    FreezeAccount,
    ThawAccount,
    TransferChecked { amount: u64, decimals: u8 },
    ApproveChecked { amount: u64, decimals: u8 },
    MintToChecked { amount: u64, decimals: u8 },
    BurnChecked { amount: u64, decimals: u8 },
    InitializeAccount2 { owner: Pubkey },
    SyncNative { observed: u64 },
    InitializeAccount3 { owner: Pubkey },
    InitializeMultisig2 { m: u8 },
    InitializeMint2 { decimals: u8, mint_authority: Pubkey, freeze_authority: Authority },
    GetAccountDataSize,
    InitializeImmutableOwner,
    AmountToUiAmount { amount: u64 },
    UiAmountToAmount { ui_amount: Vec<u8> },
}

/// The authority kind a byte decodes to; `None` on an invalid tag.
pub open spec fn spec_byte_authority_type(b: u8) -> Option<AuthorityType> {
    if b == 0 {
        Some(AuthorityType::MintTokens)
    } else if b == 1 {
        Some(AuthorityType::FreezeAccount)
    } else if b == 2 {
        Some(AuthorityType::AccountOwner)
    } else if b == 3 {
        Some(AuthorityType::CloseAccount)
    } else {
        None
    }
}

/// Whether instruction bytes `s` parse exactly to `ins`. Every opcode pins
/// its payload length; the one open-length payload is the UI amount
/// string, which takes the rest of the bytes.
pub open spec fn spec_parse_ok(s: Seq<u8>, ins: TokenInstruction) -> bool {
    s.len() >= 1 && match ins {
        TokenInstruction::InitializeMint { decimals, mint_authority, freeze_authority } => {
            &&& s[0] == 0
            &&& s.len() == 67
            &&& decimals == s[1]
            &&& mint_authority == spec_decode_key(s.subrange(2, 34))
            &&& Some(freeze_authority) == spec_decode_authority(s.subrange(34, 67))
        },
        TokenInstruction::InitializeAccount => s[0] == 1 && s.len() == 1,
        TokenInstruction::InitializeMultisig { m } => s[0] == 2 && s.len() == 2 && m == s[1],
        TokenInstruction::Transfer { amount } => s[0] == 3 && s.len() == 9 && amount
            == spec_u64_from_le_bytes(s.subrange(1, 9)),
        TokenInstruction::Approve { amount } => s[0] == 4 && s.len() == 9 && amount
            == spec_u64_from_le_bytes(s.subrange(1, 9)),
        TokenInstruction::Revoke => s[0] == 5 && s.len() == 1,
        TokenInstruction::SetAuthority { authority_type, new_authority } => {
            &&& s[0] == 6
            &&& s.len() == 35
            &&& Some(authority_type) == spec_byte_authority_type(s[1])
            &&& Some(new_authority) == spec_decode_authority(s.subrange(2, 35))
        },
        TokenInstruction::MintTo { amount } => s[0] == 7 && s.len() == 9 && amount
            == spec_u64_from_le_bytes(s.subrange(1, 9)),
        TokenInstruction::Burn { amount } => s[0] == 8 && s.len() == 9 && amount
            == spec_u64_from_le_bytes(s.subrange(1, 9)),
        TokenInstruction::CloseAccount => s[0] == 9 && s.len() == 1,
        TokenInstruction::FreezeAccount => s[0] == 10 && s.len() == 1,
        TokenInstruction::ThawAccount => s[0] == 11 && s.len() == 1,
        TokenInstruction::TransferChecked { amount, decimals } => s[0] == 12 && s.len() == 10
            && amount == spec_u64_from_le_bytes(s.subrange(1, 9)) && decimals == s[9],
        TokenInstruction::ApproveChecked { amount, decimals } => s[0] == 13 && s.len() == 10
            && amount == spec_u64_from_le_bytes(s.subrange(1, 9)) && decimals == s[9],
        TokenInstruction::MintToChecked { amount, decimals } => s[0] == 14 && s.len() == 10
            && amount == spec_u64_from_le_bytes(s.subrange(1, 9)) && decimals == s[9],
        TokenInstruction::BurnChecked { amount, decimals } => s[0] == 15 && s.len() == 10
            && amount == spec_u64_from_le_bytes(s.subrange(1, 9)) && decimals == s[9],
        TokenInstruction::InitializeAccount2 { owner } => s[0] == 16 && s.len() == 33 && owner
            == spec_decode_key(s.subrange(1, 33)),
        TokenInstruction::SyncNative { observed } => s[0] == 17 && s.len() == 9 && observed
            == spec_u64_from_le_bytes(s.subrange(1, 9)),
        TokenInstruction::InitializeAccount3 { owner } => s[0] == 18 && s.len() == 33 && owner
            == spec_decode_key(s.subrange(1, 33)),
        TokenInstruction::InitializeMultisig2 { m } => s[0] == 19 && s.len() == 2 && m == s[1],
        TokenInstruction::InitializeMint2 { decimals, mint_authority, freeze_authority } => {
            &&& s[0] == 20
            &&& s.len() == 67
            &&& decimals == s[1]
            &&& mint_authority == spec_decode_key(s.subrange(2, 34))
            &&& Some(freeze_authority) == spec_decode_authority(s.subrange(34, 67))
        },
        TokenInstruction::GetAccountDataSize => s[0] == 21 && s.len() == 1,
        TokenInstruction::InitializeImmutableOwner => s[0] == 22 && s.len() == 1,
        TokenInstruction::AmountToUiAmount { amount } => s[0] == 23 && s.len() == 9 && amount
            == spec_u64_from_le_bytes(s.subrange(1, 9)),
        TokenInstruction::UiAmountToAmount { ui_amount } => s[0] == 24 && ui_amount@ == s.skip(1),
    }
}

/// Whether instruction bytes `s` parse at all: the opcode is known, the
/// payload has that opcode's length, and any embedded authority tag is
/// valid.
pub open spec fn spec_parseable(s: Seq<u8>) -> bool {
    s.len() >= 1 && {
        let op = s[0];
        ||| (op == 0 || op == 20) && s.len() == 67 && spec_decode_authority(s.subrange(34, 67))
            is Some
        ||| (op == 1 || op == 5 || op == 9 || op == 10 || op == 11 || op == 21 || op == 22)
            && s.len() == 1
        ||| (op == 2 || op == 19) && s.len() == 2
        ||| (op == 3 || op == 4 || op == 7 || op == 8 || op == 17 || op == 23) && s.len() == 9
        ||| op == 6 && s.len() == 35 && spec_byte_authority_type(s[1]) is Some
            && spec_decode_authority(s.subrange(2, 35)) is Some
        ||| (op == 12 || op == 13 || op == 14 || op == 15) && s.len() == 10
        ||| (op == 16 || op == 18) && s.len() == 33
        ||| op == 24
    }
}

/// Parses instruction bytes; rejects an unknown opcode, a wrong payload
/// length or an invalid embedded tag with `InvalidAccountData`.
pub fn parse_instruction(data: &Vec<u8>) -> (r: Result<TokenInstruction, TokenError>)
    ensures
        match r {
            Ok(ins) => spec_parse_ok(data@, ins) && spec_parseable(data@),
            Err(e) => e == TokenError::InvalidAccountData && !spec_parseable(data@),
        },
{
    let n = data.len();
    if n == 0 {
        return Err(TokenError::InvalidAccountData);
    }
    let op = data[0];
    if (op == 0 || op == 20) && n == 67 {
        let decimals = data[1];
        let mint_authority = decode_key_at(data, 2);
        let freeze_authority = match decode_authority_at(data, 34) {
            Ok(a) => a,
            Err(e) => { return Err(e); },
        };
        if op == 0 {
            return Ok(
                TokenInstruction::InitializeMint { decimals, mint_authority, freeze_authority },
            );
        }
        return Ok(
            TokenInstruction::InitializeMint2 { decimals, mint_authority, freeze_authority },
        );
    }
    if op == 1 && n == 1 {
        return Ok(TokenInstruction::InitializeAccount);
    }
    if (op == 2 || op == 19) && n == 2 {
        let m = data[1];
        if op == 2 {
            return Ok(TokenInstruction::InitializeMultisig { m });
        }
        return Ok(TokenInstruction::InitializeMultisig2 { m });
    }
    if (op == 3 || op == 4 || op == 7 || op == 8 || op == 17 || op == 23) && n == 9 {
        let amount = u64_from_le_bytes(slice_subrange(data.as_slice(), 1, 9));
        if op == 3 {
            return Ok(TokenInstruction::Transfer { amount });
        }
        if op == 4 {
            return Ok(TokenInstruction::Approve { amount });
        }
        if op == 7 {
            return Ok(TokenInstruction::MintTo { amount });
        }
        if op == 8 {
            return Ok(TokenInstruction::Burn { amount });
        }
        if op == 17 {
            return Ok(TokenInstruction::SyncNative { observed: amount });
        }
        return Ok(TokenInstruction::AmountToUiAmount { amount });
    }
    if op == 5 && n == 1 {
        return Ok(TokenInstruction::Revoke);
    }
    if op == 6 && n == 35 {
        let authority_type = if data[1] == 0 {
            AuthorityType::MintTokens
        } else if data[1] == 1 {
            AuthorityType::FreezeAccount
        } else if data[1] == 2 {
            AuthorityType::AccountOwner
        } else if data[1] == 3 {
            AuthorityType::CloseAccount
        } else {
            return Err(TokenError::InvalidAccountData);
        };
        let new_authority = match decode_authority_at(data, 2) {
            Ok(a) => a,
            Err(e) => { return Err(e); },
        };
        return Ok(TokenInstruction::SetAuthority { authority_type, new_authority });
    }
    if op == 9 && n == 1 {
        return Ok(TokenInstruction::CloseAccount);
    }
    if op == 10 && n == 1 {
        return Ok(TokenInstruction::FreezeAccount);
    }
    if op == 11 && n == 1 {
        return Ok(TokenInstruction::ThawAccount);
    }
    if (op == 12 || op == 13 || op == 14 || op == 15) && n == 10 {
        let amount = u64_from_le_bytes(slice_subrange(data.as_slice(), 1, 9));
        let decimals = data[9];
        if op == 12 {
            return Ok(TokenInstruction::TransferChecked { amount, decimals });
        }
        if op == 13 {
            return Ok(TokenInstruction::ApproveChecked { amount, decimals });
        }
        if op == 14 {
            return Ok(TokenInstruction::MintToChecked { amount, decimals });
        }
        return Ok(TokenInstruction::BurnChecked { amount, decimals });
    }
    if (op == 16 || op == 18) && n == 33 {
        let owner = decode_key_at(data, 1);
        if op == 16 {
            return Ok(TokenInstruction::InitializeAccount2 { owner });
        }
        return Ok(TokenInstruction::InitializeAccount3 { owner });
    }
    if op == 21 && n == 1 {
        return Ok(TokenInstruction::GetAccountDataSize);
    }
    if op == 22 && n == 1 {
        return Ok(TokenInstruction::InitializeImmutableOwner);
    }
    if op == 24 {
        let mut ui_amount: Vec<u8> = Vec::new();
        ui_amount.extend_from_slice(slice_subrange(data.as_slice(), 1, n));
        proof {
            assert(ui_amount@ =~= data@.skip(1));
        }
        return Ok(TokenInstruction::UiAmountToAmount { ui_amount });
    }
    Err(TokenError::InvalidAccountData)
}

// ---------------------------------------------------------------------------
// Dispatch: slot bookkeeping
// ---------------------------------------------------------------------------

/// The slot list after one slot's data was replaced: everything else, and
/// every other field of that slot, unchanged.
pub open spec fn spec_updated1(
    pre: Seq<AccountSlot>,
    post: Seq<AccountSlot>,
    i: int,
    d: Seq<u8>,
) -> bool {
    &&& post.len() == pre.len()
    &&& forall|j: int| 0 <= j < pre.len() && j != i ==> post[j] == pre[j]
    &&& post[i].key == pre[i].key
    &&& post[i].is_signer == pre[i].is_signer
    &&& post[i].is_writable == pre[i].is_writable
    &&& post[i].data@ == d
}

/// The slot list after two slots' data were replaced.
pub open spec fn spec_updated2(
    pre: Seq<AccountSlot>,
    post: Seq<AccountSlot>,
    i: int,
    di: Seq<u8>,
    j: int,
    dj: Seq<u8>,
) -> bool {
    &&& post.len() == pre.len()
    &&& forall|k: int| 0 <= k < pre.len() && k != i && k != j ==> post[k] == pre[k]
    &&& post[i].key == pre[i].key && post[i].is_signer == pre[i].is_signer && post[i].is_writable
        == pre[i].is_writable && post[i].data@ == di
    &&& post[j].key == pre[j].key && post[j].is_signer == pre[j].is_signer && post[j].is_writable
        == pre[j].is_writable && post[j].data@ == dj
}

/// Replaces the data of one slot.
fn put_data(slots: &mut Vec<AccountSlot>, i: usize, d: Vec<u8>)
    requires
        i < old(slots)@.len(),
    ensures
        spec_updated1(old(slots)@, final(slots)@, i as int, d@),
{
    let slot = vstd::std_specs::vec::vec_index_mut(slots, i);
    slot.data = d;
}

/// Whether `ms` is the multisig evidence the authority slot at `i`
/// carries: `None` when the slot's bytes are not multisig-sized, the
/// decoded record when they are.
pub open spec fn spec_resolved_via(
    slots: Seq<AccountSlot>,
    i: int,
    ms: Option<Multisig>,
) -> bool {
    match ms {
        None => slots[i].data@.len() != MULTISIG_LEN,
        Some(m) => slots[i].data@.len() == MULTISIG_LEN && m.wf()
            && crate::codec::spec_decode_multisig(slots[i].data@) == Ok::<
            (u8, u8, bool, Seq<Pubkey>),
            TokenError,
        >((m.m, m.n, m.is_initialized, m.signers@)),
    }
}

/// The error, if any, that resolving the authority slot at `i` raises: a
/// multisig-sized buffer that does not decode.
pub open spec fn spec_resolution_error(slots: Seq<AccountSlot>, i: int) -> Option<TokenError> {
    if slots[i].data@.len() == MULTISIG_LEN {
        match crate::codec::spec_decode_multisig(slots[i].data@) {
            Ok(_) => None,
            Err(e) => Some(e),
        }
    } else {
        None
    }
}

/// Resolves the authority slot at `i`: a multisig-sized buffer is decoded
/// as the group record stored at that principal, anything else is a
/// single-signer authority.
fn resolve_multisig(slots: &Vec<AccountSlot>, i: usize) -> (r: Result<
    Option<Multisig>,
    TokenError,
>)
    requires
        i < slots@.len(),
    ensures
        match r {
            Ok(ms) => spec_resolution_error(slots@, i as int) is None && spec_resolved_via(
                slots@,
                i as int,
                ms,
            ),
            Err(e) => spec_resolution_error(slots@, i as int) == Some(e),
        },
{
    if slots[i].data.len() == MULTISIG_LEN {
        match crate::codec::decode_multisig(&slots[i].data) {
            Ok(ms) => Ok(Some(ms)),
            Err(e) => Err(e),
        }
    } else {
        Ok(None)
    }
}

// ---------------------------------------------------------------------------
// Dispatch: per-instruction outcomes
// ---------------------------------------------------------------------------

/// Outcome of dispatching `initialize_mint`: one writable slot holding a
/// mint record.
pub open spec fn spec_dispatched_initialize_mint(
    pre: Seq<AccountSlot>,
    post: Seq<AccountSlot>,
    decimals: u8,
    mint_authority: Pubkey,
    freeze_authority: Authority,
    r: Result<QueryOutput, TokenError>,
) -> bool {
    if pre.len() < 1 {
        r == Err::<QueryOutput, TokenError>(TokenError::InvalidAccountData) && post == pre
    } else if !pre[0].is_writable {
        r == Err::<QueryOutput, TokenError>(TokenError::AccountNotMutable) && post == pre
    } else {
        match crate::codec::spec_decode_mint(pre[0].data@) {
            Err(e) => r == Err::<QueryOutput, TokenError>(e) && post == pre,
            Ok(m0) => match crate::instructions::spec_initialize_mint(
                m0,
                decimals,
                mint_authority,
                freeze_authority,
            ) {
                Ok(m1) => (r matches Ok(q) && q is Nothing) && spec_updated1(
                    pre,
                    post,
                    0,
                    crate::codec::spec_encode_mint(m1),
                ),
                Err(e) => r == Err::<QueryOutput, TokenError>(e) && post == pre,
            },
        }
    }
}

/// Runs `initialize_mint` against the slot list.
fn run_initialize_mint(
    slots: &mut Vec<AccountSlot>,
    decimals: u8,
    mint_authority: Pubkey,
    freeze_authority: Authority,
) -> (r: Result<QueryOutput, TokenError>)
    ensures
        spec_dispatched_initialize_mint(
            old(slots)@,
            final(slots)@,
            decimals,
            mint_authority,
            freeze_authority,
            r,
        ),
{
    if slots.len() < 1 {
        return Err(TokenError::InvalidAccountData);
    }
    if !slots[0].is_writable {
        return Err(TokenError::AccountNotMutable);
    }
    let mut m = match crate::codec::decode_mint(&slots[0].data) {
        Ok(m) => m,
        Err(e) => { return Err(e); },
    };
    match crate::instructions::initialize_mint(&mut m, decimals, mint_authority, freeze_authority) {
        Ok(()) => {
            let d = crate::codec::encode_mint(&m);
            put_data(slots, 0, d);
            Ok(QueryOutput::Nothing)
        },
        Err(e) => Err(e),
    }
}

/// Outcome of dispatching `initialize_account`: a writable account slot, a
/// mint slot, and — when the owner does not come as an operand — an owner
/// slot. The account is native exactly when the mint is the designated
/// wrapped-native mint.
pub open spec fn spec_dispatched_initialize_account(
    pre: Seq<AccountSlot>,
    post: Seq<AccountSlot>,
    owner_operand: Option<Pubkey>,
    r: Result<QueryOutput, TokenError>,
) -> bool {
    let need: int = if owner_operand is Some {
        2
    } else {
        3
    };
    if pre.len() < need {
        r == Err::<QueryOutput, TokenError>(TokenError::InvalidAccountData) && post == pre
    } else if !pre[0].is_writable {
        r == Err::<QueryOutput, TokenError>(TokenError::AccountNotMutable) && post == pre
    } else {
        let owner = match owner_operand {
            Some(o) => o,
            None => pre[2].key,
        };
        match (crate::codec::spec_decode_account(pre[0].data@), crate::codec::spec_decode_mint(
            pre[1].data@,
        )) {
            (Err(e), _) => r == Err::<QueryOutput, TokenError>(e) && post == pre,
            (Ok(_), Err(e)) => r == Err::<QueryOutput, TokenError>(e) && post == pre,
            (Ok(a0), Ok(mr)) => match crate::instructions::spec_initialize_account(
                a0,
                mr,
                pre[1].key,
                owner,
                pre[1].key == Pubkey::spec_native_mint(),
            ) {
                Ok(a1) => (r matches Ok(q) && q is Nothing) && spec_updated1(
                    pre,
                    post,
                    0,
                    crate::codec::spec_encode_account(a1),
                ),
                Err(e) => r == Err::<QueryOutput, TokenError>(e) && post == pre,
            },
        }
    }
}

/// Runs `initialize_account` (and its operand-owner variants) against the
/// slot list.
fn run_initialize_account(slots: &mut Vec<AccountSlot>, owner_operand: Option<Pubkey>) -> (r:
    Result<QueryOutput, TokenError>)
    ensures
        spec_dispatched_initialize_account(old(slots)@, final(slots)@, owner_operand, r),
{
    let need: usize = match owner_operand {
        Some(_) => 2,
        None => 3,
    };
    if slots.len() < need {
        return Err(TokenError::InvalidAccountData);
    }
    if !slots[0].is_writable {
        return Err(TokenError::AccountNotMutable);
    }
    let owner = match owner_operand {
        Some(o) => o,
        None => slots[2].key,
    };
    let mut a = match crate::codec::decode_account(&slots[0].data) {
        Ok(a) => a,
        Err(e) => { return Err(e); },
    };
    let mr = match crate::codec::decode_mint(&slots[1].data) {
        Ok(m) => m,
        Err(e) => { return Err(e); },
    };
    let is_native = slots[1].key == Pubkey::native_mint();
    let mint_key = slots[1].key;
    match crate::instructions::initialize_account(&mut a, &mr, mint_key, owner, is_native) {
        Ok(()) => {
            let d = crate::codec::encode_account(&a);
            put_data(slots, 0, d);
            Ok(QueryOutput::Nothing)
        },
        Err(e) => Err(e),
    }
}

/// Outcome of dispatching `initialize_multisig`: a writable multisig slot,
/// then one slot per recorded signer.
pub open spec fn spec_dispatched_initialize_multisig(
    pre: Seq<AccountSlot>,
    post: Seq<AccountSlot>,
    m: u8,
    r: Result<QueryOutput, TokenError>,
) -> bool {
    if pre.len() < 1 {
        r == Err::<QueryOutput, TokenError>(TokenError::InvalidAccountData) && post == pre
    } else if !pre[0].is_writable {
        r == Err::<QueryOutput, TokenError>(TokenError::AccountNotMutable) && post == pre
    } else if pre[0].data@.len() != MULTISIG_LEN as int {
        r == Err::<QueryOutput, TokenError>(TokenError::InvalidAccountData) && post == pre
    } else if pre[0].data@[2] != 0 {
        r == Err::<QueryOutput, TokenError>(TokenError::AlreadyInitialized) && post == pre
    } else {
        let keys = spec_slot_keys_from(pre, 1);
        if 1 <= m as int && m as int <= keys.len() && keys.len()
            <= crate::state::MAX_SIGNERS as int {
            (r matches Ok(q) && q is Nothing) && exists|msv: Multisig|
                {
                    &&& #[trigger] msv.wf()
                    &&& msv.m == m
                    &&& msv.n as int == keys.len()
                    &&& msv.is_initialized
                    &&& msv.signers@ == keys
                    &&& spec_updated1(pre, post, 0, crate::codec::spec_encode_multisig(msv))
                }
        } else {
            r == Err::<QueryOutput, TokenError>(TokenError::InvalidAccountData) && post == pre
        }
    }
}

/// Runs `initialize_multisig` against the slot list.
fn run_initialize_multisig(slots: &mut Vec<AccountSlot>, m: u8) -> (r: Result<
    QueryOutput,
    TokenError,
>)
    ensures
        spec_dispatched_initialize_multisig(old(slots)@, final(slots)@, m, r),
{
    if slots.len() < 1 {
        return Err(TokenError::InvalidAccountData);
    }
    if !slots[0].is_writable {
        return Err(TokenError::AccountNotMutable);
    }
    if slots[0].data.len() != MULTISIG_LEN {
        return Err(TokenError::InvalidAccountData);
    }
    if slots[0].data[2] != 0 {
        return Err(TokenError::AlreadyInitialized);
    }
    let keys = slot_keys_from(slots, 1);
    let mut rec = Multisig { m: 0, n: 0, is_initialized: false, signers: Vec::new() };
    match crate::instructions::initialize_multisig(&mut rec, m, &keys) {
        Ok(()) => {
            let d = crate::codec::encode_multisig(&rec);
            put_data(slots, 0, d);
            proof {
                assert(spec_dispatched_initialize_multisig(old(slots)@, slots@, m, Ok(
                    QueryOutput::Nothing,
                ))) by {
                    assert(rec.wf() && rec.m == m && rec.is_initialized);
                }
            }
            Ok(QueryOutput::Nothing)
        },
        Err(e) => Err(e),
    }
}

/// Outcome of dispatching `transfer`: writable source and destination
/// slots, then the authority slot.
pub open spec fn spec_dispatched_transfer_plain(
    pre: Seq<AccountSlot>,
    post: Seq<AccountSlot>,
    amount: u64,
    r: Result<QueryOutput, TokenError>,
) -> bool {
    if pre.len() < 3 {
        r == Err::<QueryOutput, TokenError>(TokenError::InvalidAccountData) && post == pre
    } else if !pre[0].is_writable || !pre[1].is_writable {
        r == Err::<QueryOutput, TokenError>(TokenError::AccountNotMutable) && post == pre
    } else {
        match (crate::codec::spec_decode_account(pre[0].data@), crate::codec::spec_decode_account(
            pre[1].data@,
        )) {
            (Err(e), _) => r == Err::<QueryOutput, TokenError>(e) && post == pre,
            (Ok(_), Err(e)) => r == Err::<QueryOutput, TokenError>(e) && post == pre,
            (Ok(src), Ok(dst)) => match spec_resolution_error(pre, 2) {
                Some(e) => r == Err::<QueryOutput, TokenError>(e) && post == pre,
                None => exists|ms: Option<Multisig>|
                    #[trigger] spec_resolved_via(pre, 2, ms) && (match
                        crate::instructions::spec_transfer(
                        src,
                        dst,
                        amount,
                        pre[2].key,
                        ms,
                        spec_signer_keys(pre),
                    ) {
                        Ok(pair) => (r matches Ok(q) && q is Nothing) && spec_updated2(
                            pre,
                            post,
                            0,
                            crate::codec::spec_encode_account(pair.0),
                            1,
                            crate::codec::spec_encode_account(pair.1),
                        ),
                        Err(e) => r == Err::<QueryOutput, TokenError>(e) && post == pre,
                    }),
            },
        }
    }
}

/// Outcome of dispatching `transfer_checked`: writable source, the mint,
/// writable destination, then the authority slot.
pub open spec fn spec_dispatched_transfer_checked(
    pre: Seq<AccountSlot>,
    post: Seq<AccountSlot>,
    amount: u64,
    decimals: u8,
    r: Result<QueryOutput, TokenError>,
) -> bool {
    if pre.len() < 4 {
        r == Err::<QueryOutput, TokenError>(TokenError::InvalidAccountData) && post == pre
    } else if !pre[0].is_writable || !pre[2].is_writable {
        r == Err::<QueryOutput, TokenError>(TokenError::AccountNotMutable) && post == pre
    } else {
        match (crate::codec::spec_decode_account(pre[0].data@), crate::codec::spec_decode_account(
            pre[2].data@,
        )) {
            (Err(e), _) => r == Err::<QueryOutput, TokenError>(e) && post == pre,
            (Ok(_), Err(e)) => r == Err::<QueryOutput, TokenError>(e) && post == pre,
            (Ok(src), Ok(dst)) => match crate::codec::spec_decode_mint(pre[1].data@) {
                Err(e) => r == Err::<QueryOutput, TokenError>(e) && post == pre,
                Ok(mr) => match spec_resolution_error(pre, 3) {
                    Some(e) => r == Err::<QueryOutput, TokenError>(e) && post == pre,
                    None => exists|ms: Option<Multisig>|
                        #[trigger] spec_resolved_via(pre, 3, ms) && (match
                            crate::instructions::spec_transfer_checked(
                            src,
                            dst,
                            mr,
                            pre[1].key,
                            amount,
                            decimals,
                            pre[3].key,
                            ms,
                            spec_signer_keys(pre),
                        ) {
                            Ok(pair) => (r matches Ok(q) && q is Nothing) && spec_updated2(
                                pre,
                                post,
                                0,
                                crate::codec::spec_encode_account(pair.0),
                                2,
                                crate::codec::spec_encode_account(pair.1),
                            ),
                            Err(e) => r == Err::<QueryOutput, TokenError>(e) && post == pre,
                        }),
                },
            },
        }
    }
}

/// Runs `transfer` against the slot list.
fn run_transfer(slots: &mut Vec<AccountSlot>, amount: u64) -> (r: Result<QueryOutput, TokenError>)
    ensures
        spec_dispatched_transfer_plain(old(slots)@, final(slots)@, amount, r),
{
    let ghost pre = old(slots)@;
    if slots.len() < 3 {
        return Err(TokenError::InvalidAccountData);
    }
    if !slots[0].is_writable || !slots[1].is_writable {
        return Err(TokenError::AccountNotMutable);
    }
    let mut src = match crate::codec::decode_account(&slots[0].data) {
        Ok(a) => a,
        Err(e) => { return Err(e); },
    };
    let mut dst = match crate::codec::decode_account(&slots[1].data) {
        Ok(a) => a,
        Err(e) => { return Err(e); },
    };
    let claimed = slots[2].key;
    let signers = signer_keys(slots);
    let ms = match resolve_multisig(slots, 2) {
        Ok(ms) => ms,
        Err(e) => { return Err(e); },
    };
    let msr = match &ms {
        Some(m) => Some(m),
        None => None,
    };
    proof {
        assert(spec_resolved_via(pre, 2, ms));
        assert(crate::authority::spec_opt_multisig(msr) == ms);
    }
    match crate::instructions::transfer(&mut src, &mut dst, amount, &claimed, msr, &signers) {
        Ok(()) => {
            let d0 = crate::codec::encode_account(&src);
            let ghost d0v = d0@;
            put_data(slots, 0, d0);
            let d1 = crate::codec::encode_account(&dst);
            let ghost d1v = d1@;
            put_data(slots, 1, d1);
            proof {
                assert(spec_updated2(pre, slots@, 0, d0v, 1, d1v));
            }
            Ok(QueryOutput::Nothing)
        },
        Err(e) => Err(e),
    }
}

/// Runs `transfer_checked` against the slot list.
fn run_transfer_checked(slots: &mut Vec<AccountSlot>, amount: u64, decimals: u8) -> (r: Result<
    QueryOutput,
    TokenError,
>)
    ensures
        spec_dispatched_transfer_checked(old(slots)@, final(slots)@, amount, decimals, r),
{
    let ghost pre = old(slots)@;
    if slots.len() < 4 {
        return Err(TokenError::InvalidAccountData);
    }
    if !slots[0].is_writable || !slots[2].is_writable {
        return Err(TokenError::AccountNotMutable);
    }
    let mut src = match crate::codec::decode_account(&slots[0].data) {
        Ok(a) => a,
        Err(e) => { return Err(e); },
    };
    let mut dst = match crate::codec::decode_account(&slots[2].data) {
        Ok(a) => a,
        Err(e) => { return Err(e); },
    };
    let mr = match crate::codec::decode_mint(&slots[1].data) {
        Ok(m) => m,
        Err(e) => { return Err(e); },
    };
    let mint_key = slots[1].key;
    let claimed = slots[3].key;
    let signers = signer_keys(slots);
    let ms = match resolve_multisig(slots, 3) {
        Ok(ms) => ms,
        Err(e) => { return Err(e); },
    };
    let msr = match &ms {
        Some(m) => Some(m),
        None => None,
    };
    proof {
        assert(spec_resolved_via(pre, 3, ms));
        assert(crate::authority::spec_opt_multisig(msr) == ms);
    }
    match crate::instructions::transfer_checked(
        &mut src,
        &mut dst,
        &mr,
        mint_key,
        amount,
        decimals,
        &claimed,
        msr,
        &signers,
    ) {
        Ok(()) => {
            let d0 = crate::codec::encode_account(&src);
            let ghost d0v = d0@;
            put_data(slots, 0, d0);
            let d1 = crate::codec::encode_account(&dst);
            let ghost d1v = d1@;
            put_data(slots, 2, d1);
            proof {
                assert(spec_updated2(pre, slots@, 0, d0v, 2, d1v));
            }
            Ok(QueryOutput::Nothing)
        },
        Err(e) => Err(e),
    }
}

/// Outcome of dispatching `approve`: the writable source, the delegate
/// being approved, then the owner-authority slot.
pub open spec fn spec_dispatched_approve(
    pre: Seq<AccountSlot>,
    post: Seq<AccountSlot>,
    amount: u64,
    r: Result<QueryOutput, TokenError>,
) -> bool {
    if pre.len() < 3 {
        r == Err::<QueryOutput, TokenError>(TokenError::InvalidAccountData) && post == pre
    } else if !pre[0].is_writable {
        r == Err::<QueryOutput, TokenError>(TokenError::AccountNotMutable) && post == pre
    } else {
        match crate::codec::spec_decode_account(pre[0].data@) {
            Err(e) => r == Err::<QueryOutput, TokenError>(e) && post == pre,
            Ok(src) => match spec_resolution_error(pre, 2) {
                Some(e) => r == Err::<QueryOutput, TokenError>(e) && post == pre,
                None => exists|ms: Option<Multisig>|
                    #[trigger] spec_resolved_via(pre, 2, ms) && (match
                        crate::instructions::spec_approve(
                        src,
                        pre[1].key,
                        amount,
                        pre[2].key,
                        ms,
                        spec_signer_keys(pre),
                    ) {
                        Ok(a1) => (r matches Ok(q) && q is Nothing) && spec_updated1(
                            pre,
                            post,
                            0,
                            crate::codec::spec_encode_account(a1),
                        ),
                        Err(e) => r == Err::<QueryOutput, TokenError>(e) && post == pre,
                    }),
            },
        }
    }
}

/// Runs `approve` against the slot list.
fn run_approve(slots: &mut Vec<AccountSlot>, amount: u64) -> (r: Result<QueryOutput, TokenError>)
    ensures
        spec_dispatched_approve(old(slots)@, final(slots)@, amount, r),
{
    let ghost pre = old(slots)@;
    if slots.len() < 3 {
        return Err(TokenError::InvalidAccountData);
    }
    if !slots[0].is_writable {
        return Err(TokenError::AccountNotMutable);
    }
    let mut src = match crate::codec::decode_account(&slots[0].data) {
        Ok(a) => a,
        Err(e) => { return Err(e); },
    };
    let delegate = slots[1].key;
    let claimed = slots[2].key;
    let signers = signer_keys(slots);
    let ms = match resolve_multisig(slots, 2) {
        Ok(ms) => ms,
        Err(e) => { return Err(e); },
    };
    let msr = match &ms {
        Some(m) => Some(m),
        None => None,
    };
    proof {
        assert(spec_resolved_via(pre, 2, ms));
        assert(crate::authority::spec_opt_multisig(msr) == ms);
    }
    match crate::instructions::approve(&mut src, delegate, amount, &claimed, msr, &signers) {
        Ok(()) => {
            let d0 = crate::codec::encode_account(&src);
            put_data(slots, 0, d0);
            Ok(QueryOutput::Nothing)
        },
        Err(e) => Err(e),
    }
}

/// Outcome of dispatching `approve_checked`: the writable source, the
/// mint, the delegate, then the owner-authority slot.
pub open spec fn spec_dispatched_approve_checked(
    pre: Seq<AccountSlot>,
    post: Seq<AccountSlot>,
    amount: u64,
    decimals: u8,
    r: Result<QueryOutput, TokenError>,
) -> bool {
    if pre.len() < 4 {
        r == Err::<QueryOutput, TokenError>(TokenError::InvalidAccountData) && post == pre
    } else if !pre[0].is_writable {
        r == Err::<QueryOutput, TokenError>(TokenError::AccountNotMutable) && post == pre
    } else {
        match crate::codec::spec_decode_account(pre[0].data@) {
            Err(e) => r == Err::<QueryOutput, TokenError>(e) && post == pre,
            Ok(src) => match crate::codec::spec_decode_mint(pre[1].data@) {
                Err(e) => r == Err::<QueryOutput, TokenError>(e) && post == pre,
                Ok(mr) => match spec_resolution_error(pre, 3) {
                    Some(e) => r == Err::<QueryOutput, TokenError>(e) && post == pre,
                    None => exists|ms: Option<Multisig>|
                        #[trigger] spec_resolved_via(pre, 3, ms) && (match
                            crate::instructions::spec_approve_checked(
                            src,
                            mr,
                            pre[1].key,
                            pre[2].key,
                            amount,
                            decimals,
                            pre[3].key,
                            ms,
                            spec_signer_keys(pre),
                        ) {
                            Ok(a1) => (r matches Ok(q) && q is Nothing) && spec_updated1(
                                pre,
                                post,
                                0,
                                crate::codec::spec_encode_account(a1),
                            ),
                            Err(e) => r == Err::<QueryOutput, TokenError>(e) && post == pre,
                        }),
                },
            },
        }
    }
}

/// Runs `approve_checked` against the slot list.
fn run_approve_checked(slots: &mut Vec<AccountSlot>, amount: u64, decimals: u8) -> (r: Result<
    QueryOutput,
    TokenError,
>)
    ensures
        spec_dispatched_approve_checked(old(slots)@, final(slots)@, amount, decimals, r),
{
    let ghost pre = old(slots)@;
    if slots.len() < 4 {
        return Err(TokenError::InvalidAccountData);
    }
    if !slots[0].is_writable {
        return Err(TokenError::AccountNotMutable);
    }
    let mut src = match crate::codec::decode_account(&slots[0].data) {
        Ok(a) => a,
        Err(e) => { return Err(e); },
    };
    let mr = match crate::codec::decode_mint(&slots[1].data) {
        Ok(m) => m,
        Err(e) => { return Err(e); },
    };
    let mint_key = slots[1].key;
    let delegate = slots[2].key;
    let claimed = slots[3].key;
    let signers = signer_keys(slots);
    let ms = match resolve_multisig(slots, 3) {
        Ok(ms) => ms,
        Err(e) => { return Err(e); },
    };
    let msr = match &ms {
        Some(m) => Some(m),
        None => None,
    };
    proof {
        assert(spec_resolved_via(pre, 3, ms));
        assert(crate::authority::spec_opt_multisig(msr) == ms);
    }
    match crate::instructions::approve_checked(
        &mut src,
        &mr,
        mint_key,
        delegate,
        amount,
        decimals,
        &claimed,
        msr,
        &signers,
    ) {
        Ok(()) => {
            let d0 = crate::codec::encode_account(&src);
            put_data(slots, 0, d0);
            Ok(QueryOutput::Nothing)
        },
        Err(e) => Err(e),
    }
}

/// Outcome of dispatching `revoke`: the writable source, then the
/// owner-authority slot.
pub open spec fn spec_dispatched_revoke(
    pre: Seq<AccountSlot>,
    post: Seq<AccountSlot>,
    r: Result<QueryOutput, TokenError>,
) -> bool {
    if pre.len() < 2 {
        r == Err::<QueryOutput, TokenError>(TokenError::InvalidAccountData) && post == pre
    } else if !pre[0].is_writable {
        r == Err::<QueryOutput, TokenError>(TokenError::AccountNotMutable) && post == pre
    } else {
        match crate::codec::spec_decode_account(pre[0].data@) {
            Err(e) => r == Err::<QueryOutput, TokenError>(e) && post == pre,
            Ok(src) => match spec_resolution_error(pre, 1) {
                Some(e) => r == Err::<QueryOutput, TokenError>(e) && post == pre,
                None => exists|ms: Option<Multisig>|
                    #[trigger] spec_resolved_via(pre, 1, ms) && (match
                        crate::instructions::spec_revoke(
                        src,
                        pre[1].key,
                        ms,
                        spec_signer_keys(pre),
                    ) {
                        Ok(a1) => (r matches Ok(q) && q is Nothing) && spec_updated1(
                            pre,
                            post,
                            0,
                            crate::codec::spec_encode_account(a1),
                        ),
                        Err(e) => r == Err::<QueryOutput, TokenError>(e) && post == pre,
                    }),
            },
        }
    }
}

/// Runs `revoke` against the slot list.
fn run_revoke(slots: &mut Vec<AccountSlot>) -> (r: Result<QueryOutput, TokenError>)
    ensures
        spec_dispatched_revoke(old(slots)@, final(slots)@, r),
{
    let ghost pre = old(slots)@;
    if slots.len() < 2 {
        return Err(TokenError::InvalidAccountData);
    }
    if !slots[0].is_writable {
        return Err(TokenError::AccountNotMutable);
    }
    let mut src = match crate::codec::decode_account(&slots[0].data) {
        Ok(a) => a,
        Err(e) => { return Err(e); },
    };
    let claimed = slots[1].key;
    let signers = signer_keys(slots);
    let ms = match resolve_multisig(slots, 1) {
        Ok(ms) => ms,
        Err(e) => { return Err(e); },
    };
    let msr = match &ms {
        Some(m) => Some(m),
        None => None,
    };
    proof {
        assert(spec_resolved_via(pre, 1, ms));
        assert(crate::authority::spec_opt_multisig(msr) == ms);
    }
    match crate::instructions::revoke(&mut src, &claimed, msr, &signers) {
        Ok(()) => {
            let d0 = crate::codec::encode_account(&src);
            put_data(slots, 0, d0);
            Ok(QueryOutput::Nothing)
        },
        Err(e) => Err(e),
    }
}

/// Outcome of dispatching `set_authority`: the writable owned record
/// (recognized as a mint or a token account by its byte length), then the
/// current-authority slot.
pub open spec fn spec_dispatched_set_authority(
    pre: Seq<AccountSlot>,
    post: Seq<AccountSlot>,
    which: AuthorityType,
    new_authority: Authority,
    r: Result<QueryOutput, TokenError>,
) -> bool {
    if pre.len() < 2 {
        r == Err::<QueryOutput, TokenError>(TokenError::InvalidAccountData) && post == pre
    } else if !pre[0].is_writable {
        r == Err::<QueryOutput, TokenError>(TokenError::AccountNotMutable) && post == pre
    } else {
        let dr = if pre[0].data@.len() == crate::codec::MINT_LEN as int {
            match crate::codec::spec_decode_mint(pre[0].data@) {
                Ok(m) => Ok(crate::instructions::Record::MintRecord(m)),
                Err(e) => Err(e),
            }
        } else if pre[0].data@.len() == crate::codec::ACCOUNT_LEN as int {
            match crate::codec::spec_decode_account(pre[0].data@) {
                Ok(a) => Ok(crate::instructions::Record::AccountRecord(a)),
                Err(e) => Err(e),
            }
        } else {
            Err(TokenError::InvalidAccountData)
        };
        match dr {
            Err(e) => r == Err::<QueryOutput, TokenError>(e) && post == pre,
            Ok(rec) => match spec_resolution_error(pre, 1) {
                Some(e) => r == Err::<QueryOutput, TokenError>(e) && post == pre,
                None => exists|ms: Option<Multisig>|
                    #[trigger] spec_resolved_via(pre, 1, ms) && (match
                        crate::instructions::spec_set_authority(
                        rec,
                        which,
                        new_authority,
                        pre[1].key,
                        ms,
                        spec_signer_keys(pre),
                    ) {
                        Ok(rec2) => (r matches Ok(q) && q is Nothing) && spec_updated1(
                            pre,
                            post,
                            0,
                            match rec2 {
                                crate::instructions::Record::MintRecord(m2) =>
                                    crate::codec::spec_encode_mint(m2),
                                crate::instructions::Record::AccountRecord(a2) =>
                                    crate::codec::spec_encode_account(a2),
                            },
                        ),
                        Err(e) => r == Err::<QueryOutput, TokenError>(e) && post == pre,
                    }),
            },
        }
    }
}

/// Runs `set_authority` against the slot list.
fn run_set_authority(
    slots: &mut Vec<AccountSlot>,
    which: AuthorityType,
    new_authority: Authority,
) -> (r: Result<QueryOutput, TokenError>)
    ensures
        spec_dispatched_set_authority(old(slots)@, final(slots)@, which, new_authority, r),
{
    let ghost pre = old(slots)@;
    if slots.len() < 2 {
        return Err(TokenError::InvalidAccountData);
    }
    if !slots[0].is_writable {
        return Err(TokenError::AccountNotMutable);
    }
    let mut rec = if slots[0].data.len() == crate::codec::MINT_LEN {
        match crate::codec::decode_mint(&slots[0].data) {
            Ok(m) => crate::instructions::Record::MintRecord(m),
            Err(e) => { return Err(e); },
        }
    } else if slots[0].data.len() == crate::codec::ACCOUNT_LEN {
        match crate::codec::decode_account(&slots[0].data) {
            Ok(a) => crate::instructions::Record::AccountRecord(a),
            Err(e) => { return Err(e); },
        }
    } else {
        return Err(TokenError::InvalidAccountData);
    };
    let claimed = slots[1].key;
    let signers = signer_keys(slots);
    let ms = match resolve_multisig(slots, 1) {
        Ok(ms) => ms,
        Err(e) => { return Err(e); },
    };
    let msr = match &ms {
        Some(m) => Some(m),
        None => None,
    };
    proof {
        assert(spec_resolved_via(pre, 1, ms));
        assert(crate::authority::spec_opt_multisig(msr) == ms);
    }
    match crate::instructions::set_authority(&mut rec, which, new_authority, &claimed, msr, &signers)
    {
        Ok(()) => {
            let d0 = match &rec {
                crate::instructions::Record::MintRecord(m2) => crate::codec::encode_mint(m2),
                crate::instructions::Record::AccountRecord(a2) => crate::codec::encode_account(a2),
            };
            put_data(slots, 0, d0);
            Ok(QueryOutput::Nothing)
        },
        Err(e) => Err(e),
    }
}

/// Outcome of dispatching `mint_to` / `mint_to_checked`: the writable
/// mint, the writable destination account, then the mint-authority slot.
pub open spec fn spec_dispatched_mint_to(
    pre: Seq<AccountSlot>,
    post: Seq<AccountSlot>,
    amount: u64,
    checked: Option<u8>,
    r: Result<QueryOutput, TokenError>,
) -> bool {
    if pre.len() < 3 {
        r == Err::<QueryOutput, TokenError>(TokenError::InvalidAccountData) && post == pre
    } else if !pre[0].is_writable || !pre[1].is_writable {
        r == Err::<QueryOutput, TokenError>(TokenError::AccountNotMutable) && post == pre
    } else {
        match (crate::codec::spec_decode_mint(pre[0].data@), crate::codec::spec_decode_account(
            pre[1].data@,
        )) {
            (Err(e), _) => r == Err::<QueryOutput, TokenError>(e) && post == pre,
            (Ok(_), Err(e)) => r == Err::<QueryOutput, TokenError>(e) && post == pre,
            (Ok(mr), Ok(dst)) => match spec_resolution_error(pre, 2) {
                Some(e) => r == Err::<QueryOutput, TokenError>(e) && post == pre,
                None => exists|ms: Option<Multisig>|
                    #[trigger] spec_resolved_via(pre, 2, ms) && (match (match checked {
                        None => crate::instructions::spec_mint_to(
                            mr,
                            dst,
                            pre[0].key,
                            amount,
                            pre[2].key,
                            ms,
                            spec_signer_keys(pre),
                        ),
                        Some(d) => crate::instructions::spec_mint_to_checked(
                            mr,
                            dst,
                            pre[0].key,
                            amount,
                            d,
                            pre[2].key,
                            ms,
                            spec_signer_keys(pre),
                        ),
                    }) {
                        Ok(pair) => (r matches Ok(q) && q is Nothing) && spec_updated2(
                            pre,
                            post,
                            0,
                            crate::codec::spec_encode_mint(pair.0),
                            1,
                            crate::codec::spec_encode_account(pair.1),
                        ),
                        Err(e) => r == Err::<QueryOutput, TokenError>(e) && post == pre,
                    }),
            },
        }
    }
}

/// Runs `mint_to` / `mint_to_checked` against the slot list.
fn run_mint_to(slots: &mut Vec<AccountSlot>, amount: u64, checked: Option<u8>) -> (r: Result<
    QueryOutput,
    TokenError,
>)
    ensures
        spec_dispatched_mint_to(old(slots)@, final(slots)@, amount, checked, r),
{
    let ghost pre = old(slots)@;
    if slots.len() < 3 {
        return Err(TokenError::InvalidAccountData);
    }
    if !slots[0].is_writable || !slots[1].is_writable {
        return Err(TokenError::AccountNotMutable);
    }
    let mut mr = match crate::codec::decode_mint(&slots[0].data) {
        Ok(m) => m,
        Err(e) => { return Err(e); },
    };
    let mut dst = match crate::codec::decode_account(&slots[1].data) {
        Ok(a) => a,
        Err(e) => { return Err(e); },
    };
    let mint_key = slots[0].key;
    let claimed = slots[2].key;
    let signers = signer_keys(slots);
    let ms = match resolve_multisig(slots, 2) {
        Ok(ms) => ms,
        Err(e) => { return Err(e); },
    };
    let msr = match &ms {
        Some(m) => Some(m),
        None => None,
    };
    proof {
        assert(spec_resolved_via(pre, 2, ms));
        assert(crate::authority::spec_opt_multisig(msr) == ms);
    }
    let outcome: Result<(), TokenError> = match checked {
        None => crate::instructions::mint_to(
            &mut mr,
            &mut dst,
            mint_key,
            amount,
            &claimed,
            msr,
            &signers,
        ),
        Some(d) => crate::instructions::mint_to_checked(
            &mut mr,
            &mut dst,
            mint_key,
            amount,
            d,
            &claimed,
            msr,
            &signers,
        ),
    };
    match outcome {
        Ok(()) => {
            let d0 = crate::codec::encode_mint(&mr);
            put_data(slots, 0, d0);
            let d1 = crate::codec::encode_account(&dst);
            put_data(slots, 1, d1);
            Ok(QueryOutput::Nothing)
        },
        Err(e) => Err(e),
    }
}

/// Outcome of dispatching `burn` / `burn_checked`: the writable source
/// account, the writable mint, then the authority slot.
pub open spec fn spec_dispatched_burn(
    pre: Seq<AccountSlot>,
    post: Seq<AccountSlot>,
    amount: u64,
    checked: Option<u8>,
    r: Result<QueryOutput, TokenError>,
) -> bool {
    if pre.len() < 3 {
        r == Err::<QueryOutput, TokenError>(TokenError::InvalidAccountData) && post == pre
    } else if !pre[0].is_writable || !pre[1].is_writable {
        r == Err::<QueryOutput, TokenError>(TokenError::AccountNotMutable) && post == pre
    } else {
        match (crate::codec::spec_decode_account(pre[0].data@), crate::codec::spec_decode_mint(
            pre[1].data@,
        )) {
            (Err(e), _) => r == Err::<QueryOutput, TokenError>(e) && post == pre,
            (Ok(_), Err(e)) => r == Err::<QueryOutput, TokenError>(e) && post == pre,
            (Ok(src), Ok(mr)) => match spec_resolution_error(pre, 2) {
                Some(e) => r == Err::<QueryOutput, TokenError>(e) && post == pre,
                None => exists|ms: Option<Multisig>|
                    #[trigger] spec_resolved_via(pre, 2, ms) && (match (match checked {
                        None => crate::instructions::spec_burn(
                            src,
                            mr,
                            pre[1].key,
                            amount,
                            pre[2].key,
                            ms,
                            spec_signer_keys(pre),
                        ),
                        Some(d) => crate::instructions::spec_burn_checked(
                            src,
                            mr,
                            pre[1].key,
                            amount,
                            d,
                            pre[2].key,
                            ms,
                            spec_signer_keys(pre),
                        ),
                    }) {
                        Ok(pair) => (r matches Ok(q) && q is Nothing) && spec_updated2(
                            pre,
                            post,
                            0,
                            crate::codec::spec_encode_account(pair.0),
                            1,
                            crate::codec::spec_encode_mint(pair.1),
                        ),
                        Err(e) => r == Err::<QueryOutput, TokenError>(e) && post == pre,
                    }),
            },
        }
    }
}

/// Runs `burn` / `burn_checked` against the slot list.
fn run_burn(slots: &mut Vec<AccountSlot>, amount: u64, checked: Option<u8>) -> (r: Result<
    QueryOutput,
    TokenError,
>)
    ensures
        spec_dispatched_burn(old(slots)@, final(slots)@, amount, checked, r),
{
    let ghost pre = old(slots)@;
    if slots.len() < 3 {
        return Err(TokenError::InvalidAccountData);
    }
    if !slots[0].is_writable || !slots[1].is_writable {
        return Err(TokenError::AccountNotMutable);
    }
    let mut src = match crate::codec::decode_account(&slots[0].data) {
        Ok(a) => a,
        Err(e) => { return Err(e); },
    };
    let mut mr = match crate::codec::decode_mint(&slots[1].data) {
        Ok(m) => m,
        Err(e) => { return Err(e); },
    };
    let mint_key = slots[1].key;
    let claimed = slots[2].key;
    let signers = signer_keys(slots);
    let ms = match resolve_multisig(slots, 2) {
        Ok(ms) => ms,
        Err(e) => { return Err(e); },
    };
    let msr = match &ms {
        Some(m) => Some(m),
        None => None,
    };
    proof {
        assert(spec_resolved_via(pre, 2, ms));
        assert(crate::authority::spec_opt_multisig(msr) == ms);
    }
    let outcome: Result<(), TokenError> = match checked {
        None => crate::instructions::burn(
            &mut src,
            &mut mr,
            mint_key,
            amount,
            &claimed,
            msr,
            &signers,
        ),
        Some(d) => crate::instructions::burn_checked(
            &mut src,
            &mut mr,
            mint_key,
            amount,
            d,
            &claimed,
            msr,
            &signers,
        ),
    };
    match outcome {
        Ok(()) => {
            let d0 = crate::codec::encode_account(&src);
            put_data(slots, 0, d0);
            let d1 = crate::codec::encode_mint(&mr);
            put_data(slots, 1, d1);
            Ok(QueryOutput::Nothing)
        },
        Err(e) => Err(e),
    }
}

/// Outcome of dispatching `close_account`: the writable account being
/// closed, the writable destination that receives its storage, then the
/// close-authority slot. The closed record is blanked.
pub open spec fn spec_dispatched_close_account(
    pre: Seq<AccountSlot>,
    post: Seq<AccountSlot>,
    r: Result<QueryOutput, TokenError>,
) -> bool {
    if pre.len() < 3 {
        r == Err::<QueryOutput, TokenError>(TokenError::InvalidAccountData) && post == pre
    } else if !pre[0].is_writable || !pre[1].is_writable {
        r == Err::<QueryOutput, TokenError>(TokenError::AccountNotMutable) && post == pre
    } else {
        match crate::codec::spec_decode_account(pre[0].data@) {
            Err(e) => r == Err::<QueryOutput, TokenError>(e) && post == pre,
            Ok(src) => match spec_resolution_error(pre, 2) {
                Some(e) => r == Err::<QueryOutput, TokenError>(e) && post == pre,
                None => exists|ms: Option<Multisig>|
                    #[trigger] spec_resolved_via(pre, 2, ms) && (match
                        crate::instructions::spec_close_account(
                        src,
                        pre[2].key,
                        ms,
                        spec_signer_keys(pre),
                    ) {
                        Ok(blanked) => (r matches Ok(q) && q is Nothing) && spec_updated1(
                            pre,
                            post,
                            0,
                            crate::codec::spec_encode_account(blanked),
                        ),
                        Err(e) => r == Err::<QueryOutput, TokenError>(e) && post == pre,
                    }),
            },
        }
    }
}

/// Runs `close_account` against the slot list.
fn run_close_account(slots: &mut Vec<AccountSlot>) -> (r: Result<QueryOutput, TokenError>)
    ensures
        spec_dispatched_close_account(old(slots)@, final(slots)@, r),
{
    let ghost pre = old(slots)@;
    if slots.len() < 3 {
        return Err(TokenError::InvalidAccountData);
    }
    if !slots[0].is_writable || !slots[1].is_writable {
        return Err(TokenError::AccountNotMutable);
    }
    let mut src = match crate::codec::decode_account(&slots[0].data) {
        Ok(a) => a,
        Err(e) => { return Err(e); },
    };
    let claimed = slots[2].key;
    let signers = signer_keys(slots);
    let ms = match resolve_multisig(slots, 2) {
        Ok(ms) => ms,
        Err(e) => { return Err(e); },
    };
    let msr = match &ms {
        Some(m) => Some(m),
        None => None,
    };
    proof {
        assert(spec_resolved_via(pre, 2, ms));
        assert(crate::authority::spec_opt_multisig(msr) == ms);
    }
    match crate::instructions::close_account(&mut src, &claimed, msr, &signers) {
        Ok(()) => {
            let d0 = crate::codec::encode_account(&src);
            put_data(slots, 0, d0);
            Ok(QueryOutput::Nothing)
        },
        Err(e) => Err(e),
    }
}

/// Outcome of dispatching `freeze_account` / `thaw_account`: the writable
/// account, its mint, then the freeze-authority slot.
pub open spec fn spec_dispatched_freeze_thaw(
    pre: Seq<AccountSlot>,
    post: Seq<AccountSlot>,
    thaw: bool,
    r: Result<QueryOutput, TokenError>,
) -> bool {
    if pre.len() < 3 {
        r == Err::<QueryOutput, TokenError>(TokenError::InvalidAccountData) && post == pre
    } else if !pre[0].is_writable {
        r == Err::<QueryOutput, TokenError>(TokenError::AccountNotMutable) && post == pre
    } else {
        match (crate::codec::spec_decode_account(pre[0].data@), crate::codec::spec_decode_mint(
            pre[1].data@,
        )) {
            (Err(e), _) => r == Err::<QueryOutput, TokenError>(e) && post == pre,
            (Ok(_), Err(e)) => r == Err::<QueryOutput, TokenError>(e) && post == pre,
            (Ok(acct), Ok(mr)) => match spec_resolution_error(pre, 2) {
                Some(e) => r == Err::<QueryOutput, TokenError>(e) && post == pre,
                None => exists|ms: Option<Multisig>|
                    #[trigger] spec_resolved_via(pre, 2, ms) && (match (if thaw {
                        crate::instructions::spec_thaw_account(
                            acct,
                            mr,
                            pre[1].key,
                            pre[2].key,
                            ms,
                            spec_signer_keys(pre),
                        )
                    } else {
                        crate::instructions::spec_freeze_account(
                            acct,
                            mr,
                            pre[1].key,
                            pre[2].key,
                            ms,
                            spec_signer_keys(pre),
                        )
                    }) {
                        Ok(a1) => (r matches Ok(q) && q is Nothing) && spec_updated1(
                            pre,
                            post,
                            0,
                            crate::codec::spec_encode_account(a1),
                        ),
                        Err(e) => r == Err::<QueryOutput, TokenError>(e) && post == pre,
                    }),
            },
        }
    }
}

/// Runs `freeze_account` / `thaw_account` against the slot list.
fn run_freeze_thaw(slots: &mut Vec<AccountSlot>, thaw: bool) -> (r: Result<
    QueryOutput,
    TokenError,
>)
    ensures
        spec_dispatched_freeze_thaw(old(slots)@, final(slots)@, thaw, r),
{
    let ghost pre = old(slots)@;
    if slots.len() < 3 {
        return Err(TokenError::InvalidAccountData);
    }
    if !slots[0].is_writable {
        return Err(TokenError::AccountNotMutable);
    }
    let mut acct = match crate::codec::decode_account(&slots[0].data) {
        Ok(a) => a,
        Err(e) => { return Err(e); },
    };
    let mr = match crate::codec::decode_mint(&slots[1].data) {
        Ok(m) => m,
        Err(e) => { return Err(e); },
    };
    let mint_key = slots[1].key;
    let claimed = slots[2].key;
    let signers = signer_keys(slots);
    let ms = match resolve_multisig(slots, 2) {
        Ok(ms) => ms,
        Err(e) => { return Err(e); },
    };
    let msr = match &ms {
        Some(m) => Some(m),
        None => None,
    };
    proof {
        assert(spec_resolved_via(pre, 2, ms));
        assert(crate::authority::spec_opt_multisig(msr) == ms);
    }
    let outcome: Result<(), TokenError> = if thaw {
        crate::instructions::thaw_account(&mut acct, &mr, mint_key, &claimed, msr, &signers)
    } else {
        crate::instructions::freeze_account(&mut acct, &mr, mint_key, &claimed, msr, &signers)
    };
    match outcome {
        Ok(()) => {
            let d0 = crate::codec::encode_account(&acct);
            put_data(slots, 0, d0);
            Ok(QueryOutput::Nothing)
        },
        Err(e) => Err(e),
    }
}

/// Outcome of dispatching `sync_native`: one writable native account,
/// reconciled to the observed deposit carried by the instruction.
pub open spec fn spec_dispatched_sync_native(
    pre: Seq<AccountSlot>,
    post: Seq<AccountSlot>,
    observed: u64,
    r: Result<QueryOutput, TokenError>,
) -> bool {
    if pre.len() < 1 {
        r == Err::<QueryOutput, TokenError>(TokenError::InvalidAccountData) && post == pre
    } else if !pre[0].is_writable {
        r == Err::<QueryOutput, TokenError>(TokenError::AccountNotMutable) && post == pre
    } else {
        match crate::codec::spec_decode_account(pre[0].data@) {
            Err(e) => r == Err::<QueryOutput, TokenError>(e) && post == pre,
            Ok(acct) => match crate::instructions::spec_sync_native(acct, observed) {
                Ok(a1) => (r matches Ok(q) && q is Nothing) && spec_updated1(
                    pre,
                    post,
                    0,
                    crate::codec::spec_encode_account(a1),
                ),
                Err(e) => r == Err::<QueryOutput, TokenError>(e) && post == pre,
            },
        }
    }
}

/// Runs `sync_native` against the slot list.
fn run_sync_native(slots: &mut Vec<AccountSlot>, observed: u64) -> (r: Result<
    QueryOutput,
    TokenError,
>)
    ensures
        spec_dispatched_sync_native(old(slots)@, final(slots)@, observed, r),
{
    if slots.len() < 1 {
        return Err(TokenError::InvalidAccountData);
    }
    if !slots[0].is_writable {
        return Err(TokenError::AccountNotMutable);
    }
    let mut acct = match crate::codec::decode_account(&slots[0].data) {
        Ok(a) => a,
        Err(e) => { return Err(e); },
    };
    match crate::instructions::sync_native(&mut acct, observed) {
        Ok(()) => {
            let d0 = crate::codec::encode_account(&acct);
            put_data(slots, 0, d0);
            Ok(QueryOutput::Nothing)
        },
        Err(e) => Err(e),
    }
}

/// Outcome of dispatching `get_account_data_size`: one mint slot, read
/// only; answers the size a token account record needs.
pub open spec fn spec_dispatched_data_size(
    pre: Seq<AccountSlot>,
    post: Seq<AccountSlot>,
    r: Result<QueryOutput, TokenError>,
) -> bool {
    post == pre && if pre.len() < 1 {
        r == Err::<QueryOutput, TokenError>(TokenError::InvalidAccountData)
    } else {
        match crate::codec::spec_decode_mint(pre[0].data@) {
            Err(e) => r == Err::<QueryOutput, TokenError>(e),
            Ok(mr) => if mr.is_initialized {
                r matches Ok(q) && q matches QueryOutput::DataSize(n) && n
                    == crate::codec::ACCOUNT_LEN
            } else {
                r == Err::<QueryOutput, TokenError>(TokenError::UninitializedAccount)
            },
        }
    }
}

/// Runs `get_account_data_size` against the slot list.
fn run_get_account_data_size(slots: &mut Vec<AccountSlot>) -> (r: Result<
    QueryOutput,
    TokenError,
>)
    ensures
        spec_dispatched_data_size(old(slots)@, final(slots)@, r),
{
    if slots.len() < 1 {
        return Err(TokenError::InvalidAccountData);
    }
    let mr = match crate::codec::decode_mint(&slots[0].data) {
        Ok(m) => m,
        Err(e) => { return Err(e); },
    };
    match crate::instructions::get_account_data_size(&mr) {
        Ok(n) => Ok(QueryOutput::DataSize(n)),
        Err(e) => Err(e),
    }
}

/// Outcome of dispatching `initialize_immutable_owner`: one writable
/// account slot that must still be uninitialized; no state transition.
pub open spec fn spec_dispatched_immutable_owner(
    pre: Seq<AccountSlot>,
    post: Seq<AccountSlot>,
    r: Result<QueryOutput, TokenError>,
) -> bool {
    post == pre && if pre.len() < 1 {
        r == Err::<QueryOutput, TokenError>(TokenError::InvalidAccountData)
    } else if !pre[0].is_writable {
        r == Err::<QueryOutput, TokenError>(TokenError::AccountNotMutable)
    } else {
        match crate::codec::spec_decode_account(pre[0].data@) {
            Err(e) => r == Err::<QueryOutput, TokenError>(e),
            Ok(acct) => if acct.state is Uninitialized {
                r matches Ok(q) && q is Nothing
            } else {
                r == Err::<QueryOutput, TokenError>(TokenError::AlreadyInitialized)
            },
        }
    }
}

/// Runs `initialize_immutable_owner` against the slot list.
fn run_initialize_immutable_owner(slots: &mut Vec<AccountSlot>) -> (r: Result<
    QueryOutput,
    TokenError,
>)
    ensures
        spec_dispatched_immutable_owner(old(slots)@, final(slots)@, r),
{
    if slots.len() < 1 {
        return Err(TokenError::InvalidAccountData);
    }
    if !slots[0].is_writable {
        return Err(TokenError::AccountNotMutable);
    }
    let acct = match crate::codec::decode_account(&slots[0].data) {
        Ok(a) => a,
        Err(e) => { return Err(e); },
    };
    match crate::instructions::initialize_immutable_owner(&acct) {
        Ok(()) => Ok(QueryOutput::Nothing),
        Err(e) => Err(e),
    }
}

/// Outcome of dispatching `amount_to_ui_amount`: one mint slot, read
/// only; renders the amount under the mint's decimals.
pub open spec fn spec_dispatched_amount_to_ui(
    pre: Seq<AccountSlot>,
    post: Seq<AccountSlot>,
    amount: u64,
    r: Result<QueryOutput, TokenError>,
) -> bool {
    post == pre && if pre.len() < 1 {
        r == Err::<QueryOutput, TokenError>(TokenError::InvalidAccountData)
    } else {
        match crate::codec::spec_decode_mint(pre[0].data@) {
            Err(e) => r == Err::<QueryOutput, TokenError>(e),
            Ok(mr) => if mr.is_initialized {
                r matches Ok(q) && q matches QueryOutput::UiAmount(u) && u@
                    == crate::ui::spec_ui_amount(amount, mr.decimals)
            } else {
                r == Err::<QueryOutput, TokenError>(TokenError::UninitializedAccount)
            },
        }
    }
}

/// Runs `amount_to_ui_amount` against the slot list.
fn run_amount_to_ui(slots: &mut Vec<AccountSlot>, amount: u64) -> (r: Result<
    QueryOutput,
    TokenError,
>)
    ensures
        spec_dispatched_amount_to_ui(old(slots)@, final(slots)@, amount, r),
{
    if slots.len() < 1 {
        return Err(TokenError::InvalidAccountData);
    }
    let mr = match crate::codec::decode_mint(&slots[0].data) {
        Ok(m) => m,
        Err(e) => { return Err(e); },
    };
    if !mr.is_initialized {
        return Err(TokenError::UninitializedAccount);
    }
    Ok(QueryOutput::UiAmount(crate::ui::amount_to_ui_amount(amount, mr.decimals)))
}

/// Outcome of dispatching `ui_amount_to_amount`: one mint slot, read
/// only; parses the UI string under the mint's decimals.
pub open spec fn spec_dispatched_ui_to_amount(
    pre: Seq<AccountSlot>,
    post: Seq<AccountSlot>,
    ui: Seq<u8>,
    r: Result<QueryOutput, TokenError>,
) -> bool {
    post == pre && if pre.len() < 1 {
        r == Err::<QueryOutput, TokenError>(TokenError::InvalidAccountData)
    } else {
        match crate::codec::spec_decode_mint(pre[0].data@) {
            Err(e) => r == Err::<QueryOutput, TokenError>(e),
            Ok(mr) => if mr.is_initialized {
                match crate::ui::spec_ui_to_amount(ui, mr.decimals) {
                    Ok(v) => r matches Ok(q) && q matches QueryOutput::RawAmount(v2) && v2 == v,
                    Err(e) => r == Err::<QueryOutput, TokenError>(e),
                }
            } else {
                r == Err::<QueryOutput, TokenError>(TokenError::UninitializedAccount)
            },
        }
    }
}

/// Runs `ui_amount_to_amount` against the slot list.
fn run_ui_to_amount(slots: &mut Vec<AccountSlot>, ui: &Vec<u8>) -> (r: Result<
    QueryOutput,
    TokenError,
>)
    ensures
        spec_dispatched_ui_to_amount(old(slots)@, final(slots)@, ui@, r),
{
    if slots.len() < 1 {
        return Err(TokenError::InvalidAccountData);
    }
    let mr = match crate::codec::decode_mint(&slots[0].data) {
        Ok(m) => m,
        Err(e) => { return Err(e); },
    };
    if !mr.is_initialized {
        return Err(TokenError::UninitializedAccount);
    }
    match crate::ui::ui_amount_to_amount(ui, mr.decimals) {
        Ok(v) => Ok(QueryOutput::RawAmount(v)),
        Err(e) => Err(e),
    }
}

/// Interprets one parsed instruction against the caller-supplied ordered
/// account list: decode, validate, transition, re-encode. The outcome of
/// every opcode is pinned by its family's dispatched-outcome spec; on any
/// error the slot list is unchanged.
pub fn dispatch(ins: &TokenInstruction, slots: &mut Vec<AccountSlot>) -> (r: Result<
    QueryOutput,
    TokenError,
>)
    ensures
        match *ins {
            TokenInstruction::InitializeMint { decimals, mint_authority, freeze_authority } =>
                spec_dispatched_initialize_mint(
                old(slots)@,
                final(slots)@,
                decimals,
                mint_authority,
                freeze_authority,
                r,
            ),
            TokenInstruction::InitializeMint2 { decimals, mint_authority, freeze_authority } =>
                spec_dispatched_initialize_mint(
                old(slots)@,
                final(slots)@,
                decimals,
                mint_authority,
                freeze_authority,
                r,
            ),
            TokenInstruction::InitializeAccount => spec_dispatched_initialize_account(
                old(slots)@,
                final(slots)@,
                None,
                r,
            ),
            TokenInstruction::InitializeAccount2 { owner } => spec_dispatched_initialize_account(
                old(slots)@,
                final(slots)@,
                Some(owner),
                r,
            ),
            TokenInstruction::InitializeAccount3 { owner } => spec_dispatched_initialize_account(
                old(slots)@,
                final(slots)@,
                Some(owner),
                r,
            ),
            TokenInstruction::InitializeMultisig { m } => spec_dispatched_initialize_multisig(
                old(slots)@,
                final(slots)@,
                m,
                r,
            ),
            TokenInstruction::InitializeMultisig2 { m } => spec_dispatched_initialize_multisig(
                old(slots)@,
                final(slots)@,
                m,
                r,
            ),
            TokenInstruction::Transfer { amount } => spec_dispatched_transfer_plain(
                old(slots)@,
                final(slots)@,
                amount,
                r,
            ),
            TokenInstruction::TransferChecked { amount, decimals } =>
                spec_dispatched_transfer_checked(
                old(slots)@,
                final(slots)@,
                amount,
                decimals,
                r,
            ),
            TokenInstruction::Approve { amount } => spec_dispatched_approve(
                old(slots)@,
                final(slots)@,
                amount,
                r,
            ),
            TokenInstruction::ApproveChecked { amount, decimals } =>
                spec_dispatched_approve_checked(
                old(slots)@,
                final(slots)@,
                amount,
                decimals,
                r,
            ),
            TokenInstruction::Revoke => spec_dispatched_revoke(old(slots)@, final(slots)@, r),
            TokenInstruction::SetAuthority { authority_type, new_authority } =>
                spec_dispatched_set_authority(
                old(slots)@,
                final(slots)@,
                authority_type,
                new_authority,
                r,
            ),
            TokenInstruction::MintTo { amount } => spec_dispatched_mint_to(
                old(slots)@,
                final(slots)@,
                amount,
                None,
                r,
            ),
            TokenInstruction::MintToChecked { amount, decimals } => spec_dispatched_mint_to(
                old(slots)@,
                final(slots)@,
                amount,
                Some(decimals),
                r,
            ),
            TokenInstruction::Burn { amount } => spec_dispatched_burn(
                old(slots)@,
                final(slots)@,
                amount,
                None,
                r,
            ),
            TokenInstruction::BurnChecked { amount, decimals } => spec_dispatched_burn(
                old(slots)@,
                final(slots)@,
                amount,
                Some(decimals),
                r,
            ),
            TokenInstruction::CloseAccount => spec_dispatched_close_account(
                old(slots)@,
                final(slots)@,
                r,
            ),
            TokenInstruction::FreezeAccount => spec_dispatched_freeze_thaw(
                old(slots)@,
                final(slots)@,
                false,
                r,
            ),
            TokenInstruction::ThawAccount => spec_dispatched_freeze_thaw(
                old(slots)@,
                final(slots)@,
                true,
                r,
            ),
            TokenInstruction::SyncNative { observed } => spec_dispatched_sync_native(
                old(slots)@,
                final(slots)@,
                observed,
                r,
            ),
            TokenInstruction::GetAccountDataSize => spec_dispatched_data_size(
                old(slots)@,
                final(slots)@,
                r,
            ),
            TokenInstruction::InitializeImmutableOwner => spec_dispatched_immutable_owner(
                old(slots)@,
                final(slots)@,
                r,
            ),
            TokenInstruction::AmountToUiAmount { amount } => spec_dispatched_amount_to_ui(
                old(slots)@,
                final(slots)@,
                amount,
                r,
            ),
            TokenInstruction::UiAmountToAmount { ref ui_amount } => spec_dispatched_ui_to_amount(
                old(slots)@,
                final(slots)@,
                ui_amount@,
                r,
            ),
        },
{
    match ins {
        TokenInstruction::InitializeMint { decimals, mint_authority, freeze_authority } =>
            run_initialize_mint(slots, *decimals, *mint_authority, *freeze_authority),
        TokenInstruction::InitializeMint2 { decimals, mint_authority, freeze_authority } =>
            run_initialize_mint(slots, *decimals, *mint_authority, *freeze_authority),
        TokenInstruction::InitializeAccount => run_initialize_account(slots, None),
        TokenInstruction::InitializeAccount2 { owner } => run_initialize_account(
            slots,
            Some(*owner),
        ),
        TokenInstruction::InitializeAccount3 { owner } => run_initialize_account(
            slots,
            Some(*owner),
        ),
        TokenInstruction::InitializeMultisig { m } => run_initialize_multisig(slots, *m),
        TokenInstruction::InitializeMultisig2 { m } => run_initialize_multisig(slots, *m),
        TokenInstruction::Transfer { amount } => run_transfer(slots, *amount),
        TokenInstruction::TransferChecked { amount, decimals } => run_transfer_checked(
            slots,
            *amount,
            *decimals,
        ),
        TokenInstruction::Approve { amount } => run_approve(slots, *amount),
        TokenInstruction::ApproveChecked { amount, decimals } => run_approve_checked(
            slots,
            *amount,
            *decimals,
        ),
        TokenInstruction::Revoke => run_revoke(slots),
        TokenInstruction::SetAuthority { authority_type, new_authority } => run_set_authority(
            slots,
            *authority_type,
            *new_authority,
        ),
        TokenInstruction::MintTo { amount } => run_mint_to(slots, *amount, None),
        TokenInstruction::MintToChecked { amount, decimals } => run_mint_to(
            slots,
            *amount,
            Some(*decimals),
        ),
        TokenInstruction::Burn { amount } => run_burn(slots, *amount, None),
        TokenInstruction::BurnChecked { amount, decimals } => run_burn(
            slots,
            *amount,
            Some(*decimals),
        ),
        TokenInstruction::CloseAccount => run_close_account(slots),
        TokenInstruction::FreezeAccount => run_freeze_thaw(slots, false),
        TokenInstruction::ThawAccount => run_freeze_thaw(slots, true),
        TokenInstruction::SyncNative { observed } => run_sync_native(slots, *observed),
        TokenInstruction::GetAccountDataSize => run_get_account_data_size(slots),
        TokenInstruction::InitializeImmutableOwner => run_initialize_immutable_owner(slots),
        TokenInstruction::AmountToUiAmount { amount } => run_amount_to_ui(slots, *amount),
        TokenInstruction::UiAmountToAmount { ui_amount } => run_ui_to_amount(slots, ui_amount),
    }
}

} // verus!
