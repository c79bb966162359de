//! The authority validator: given the authority an instruction requires and
//! the set of principals that signed the request, decide Allow or reject
//! with `OwnerMismatch` / `MissingSigner`. A multisig authority needs at
//! least `m` of its `n` recorded signers present in the signer set,
//! order-independent and with duplicates counted once.

use vstd::prelude::*;

use crate::error::TokenError;
use crate::state::{Authority, Multisig, Pubkey};

verus! {

/// How many of the recorded signer slots hold a key that is present in the
/// signer set, counting each distinct recorded key once.
pub open spec fn spec_present_count(slots: Seq<Pubkey>, signers: Seq<Pubkey>) -> nat
    decreases slots.len(),
{
    if slots.len() == 0 {
        0
    } else {
        spec_present_count(slots.drop_last(), signers) + if signers.contains(slots.last())
            && !slots.drop_last().contains(slots.last()) {
            1nat
        } else {
            0nat
        }
    }
}

/// The multisig variant of the spec: in the view of a `Multisig` record,
/// at least `m` of its recorded signers signed.
pub open spec fn spec_multisig_satisfied(ms: Multisig, signers: Seq<Pubkey>) -> bool {
    spec_present_count(ms.signers@, signers) >= ms.m as nat
}

/// The validator's verdict. `claimed` is the principal the caller presented
/// as the authority; `expected` is the principal the record demands; `ms` is
/// the multisig record stored at `claimed`, if the authority is a group.
pub open spec fn spec_authority_check(
    expected: Pubkey,
    claimed: Pubkey,
    ms: Option<Multisig>,
    signers: Seq<Pubkey>,
) -> Result<(), TokenError> {
    if claimed != expected {
        Err(TokenError::OwnerMismatch)
    } else {
        match ms {
            None => if signers.contains(claimed) {
                Ok(())
            } else {
                Err(TokenError::MissingSigner)
            },
            Some(m) => if spec_multisig_satisfied(m, signers) {
                Ok(())
            } else {
                Err(TokenError::MissingSigner)
            },
        }
    }
}

/// The verdict for an optional stored authority: a `Disabled` authority can
/// never be satisfied, so the claim is an `OwnerMismatch`.
pub open spec fn spec_stored_authority_check(
    stored: Authority,
    claimed: Pubkey,
    ms: Option<Multisig>,
    signers: Seq<Pubkey>,
) -> Result<(), TokenError> {
    match stored {
        Authority::Disabled => Err(TokenError::OwnerMismatch),
        Authority::Enabled(k) => spec_authority_check(k, claimed, ms, signers),
    }
}

/// Lifts an optional borrowed multisig record to its spec-level value.
pub open spec fn spec_opt_multisig(ms: Option<&Multisig>) -> Option<Multisig> {
    match ms {
        None => None,
        Some(m) => Some(*m),
    }
}

/// Whether `keys` holds `k` among its first `end` entries.
pub fn key_in_prefix(keys: &Vec<Pubkey>, end: usize, k: &Pubkey) -> (r: bool)
    requires
        end <= keys@.len(),
    ensures
        r == keys@.subrange(0, end as int).contains(*k),
{
    let ghost prefix = keys@.subrange(0, end as int);
    let mut i: usize = 0;
    while i < end
        invariant
            i <= end <= keys@.len(),
            prefix == keys@.subrange(0, end as int),
            forall|j: int| 0 <= j < i ==> keys@[j] != *k,
        decreases end - i,
    {
        if keys[i] == *k {
            assert(prefix[i as int] == *k);
            return true;
        }
        i += 1;
    }
    assert(forall|j: int| 0 <= j < end ==> prefix[j] == keys@[j]);
    false
}

/// Whether the signer set holds `k`.
pub fn key_in_set(keys: &Vec<Pubkey>, k: &Pubkey) -> (r: bool)
    ensures
        r == keys@.contains(*k),
{
    let r = key_in_prefix(keys, keys.len(), k);
    assert(keys@.subrange(0, keys@.len() as int) == keys@);
    r
}

/// Counts the recorded signer slots whose key is present in the signer set,
/// counting each distinct recorded key once.
pub fn count_present(slots: &Vec<Pubkey>, signers: &Vec<Pubkey>) -> (r: usize)
    ensures
        r as nat == spec_present_count(slots@, signers@),
{
    let mut count: usize = 0;
    let mut i: usize = 0;
    while i < slots.len()
        invariant
            i <= slots@.len(),
            count <= i,
            count as nat == spec_present_count(slots@.subrange(0, i as int), signers@),
        decreases slots@.len() - i,
    {
        let ghost pre = slots@.subrange(0, i as int);
        let ghost cur = slots@.subrange(0, i as int + 1);
        proof {
            assert(cur.drop_last() =~= pre);
            assert(cur.last() == slots@[i as int]);
        }
        let present = key_in_set(signers, &slots[i]);
        let duplicate = key_in_prefix(slots, i, &slots[i]);
        if present && !duplicate {
            count += 1;
        }
        i += 1;
    }
    assert(slots@.subrange(0, slots@.len() as int) == slots@);
    count
}

/// Decides whether the claimed authority matches the expected principal and
/// has signed, directly or through a multisig record stored at the claimed
/// principal.
pub fn validate_authority(
    expected: &Pubkey,
    claimed: &Pubkey,
    ms: Option<&Multisig>,
    signers: &Vec<Pubkey>,
) -> (r: Result<(), TokenError>)
    ensures
        r == spec_authority_check(*expected, *claimed, spec_opt_multisig(ms), signers@),
{
    if !(claimed == expected) {
        return Err(TokenError::OwnerMismatch);
    }
    match ms {
        None => {
            if key_in_set(signers, claimed) {
                Ok(())
            } else {
                Err(TokenError::MissingSigner)
            }
        },
        Some(m) => {
            let present = count_present(&m.signers, signers);
            if present >= m.m as usize {
                Ok(())
            } else {
                Err(TokenError::MissingSigner)
            }
        },
    }
}

/// Decides whether a stored optional authority is satisfied; a `Disabled`
/// authority rejects every claim.
pub fn validate_stored_authority(
    stored: &Authority,
    claimed: &Pubkey,
    ms: Option<&Multisig>,
    signers: &Vec<Pubkey>,
) -> (r: Result<(), TokenError>)
    ensures
        r == spec_stored_authority_check(*stored, *claimed, spec_opt_multisig(ms), signers@),
{
    match stored {
        Authority::Disabled => Err(TokenError::OwnerMismatch),
        Authority::Enabled(k) => validate_authority(k, claimed, ms, signers),
    }
}

} // verus!
