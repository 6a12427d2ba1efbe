use vstd::prelude::*;

use crate::account::Account;
use crate::errors::{assert_that, assert_unique_owners, unique_keys, MultisigError};
use crate::instructions::{
    ChangeThresholdInstruction,
    SetOwnersAndChangeThresholdInstruction,
    SetOwnersInstruction,
};
use crate::key::{Key, KEY_BYTES};
use crate::multisig::Multisig;
use crate::vault::{validate_signer, vault_signed};

verus! {

/// The first check that a new owner list fails: duplicates, then an empty
/// list, then more owners than the record has room for.
pub open spec fn owners_check(multisig: Multisig, owners: Seq<Key>) -> Result<(), MultisigError> {
    if !unique_keys(owners) {
        Err(MultisigError::UniqueOwners)
    } else if owners.len() == 0 {
        Err(MultisigError::NotEnoughOwners)
    } else if KEY_BYTES * owners.len() > multisig.capacity() {
        Err(MultisigError::TooManyOwners)
    } else {
        Ok(())
    }
}

/// A threshold must be positive and at most the number of owners.
pub open spec fn threshold_check(owner_count: int, threshold: u8) -> Result<(), MultisigError> {
    if 0 < threshold && threshold as int <= owner_count {
        Ok(())
    } else {
        Err(MultisigError::InvalidThreshold)
    }
}

/// `new` is `old` with its owner list replaced by `owners`: the padding
/// takes up the difference so the record keeps its size, the sequence number
/// goes up by one, and a threshold above the new owner count is lowered to it.
pub open spec fn owners_replaced(old: Multisig, new: Multisig, owners: Seq<Key>) -> bool {
    &&& new.owners@ == owners
    &&& new.nonce == old.nonce
    &&& new.owner_set_seqno == old.owner_set_seqno + 1
    &&& new.threshold == (if owners.len() < old.threshold as int {
        owners.len() as u8
    } else {
        old.threshold
    })
    &&& new.padding@.len() == old.capacity() - KEY_BYTES * owners.len()
    &&& forall|i: int| 0 <= i < new.padding@.len() ==> new.padding@[i] == 0
}

/// `new` is `old` with its threshold replaced by `threshold`.
pub open spec fn threshold_replaced(old: Multisig, new: Multisig, threshold: u8) -> bool {
    &&& new.owners@ == old.owners@
    &&& new.nonce == old.nonce
    &&& new.owner_set_seqno == old.owner_set_seqno
    &&& new.threshold == threshold
    &&& new.padding@ == old.padding@
}

/// Checks a new owner list against the record it would replace.
pub fn validate_owners(multisig: &Multisig, owners: &[Key]) -> (r: Result<(), MultisigError>)
    ensures
        r == owners_check(*multisig, owners@),
{
    assert_unique_owners(owners)?;
    assert_that(owners.len() != 0, MultisigError::NotEnoughOwners)?;
    let wanted = owners.len() as u128 * KEY_BYTES as u128;
    let available = multisig.owners.len() as u128 * KEY_BYTES as u128
        + multisig.padding.len() as u128;
    assert_that(wanted <= available, MultisigError::TooManyOwners)?;
    Ok(())
}

/// Checks a threshold against an owner list.
pub fn validate_threshold(owners: &[Key], threshold: u8) -> (r: Result<(), MultisigError>)
    ensures
        r == threshold_check(owners@.len() as int, threshold),
{
    assert_that(threshold > 0 && threshold as usize <= owners.len(), MultisigError::InvalidThreshold)
}

/// Replaces the threshold.
pub fn execute_change_threshold(multisig: &mut Multisig, threshold: u8)
    ensures
        threshold_replaced(*old(multisig), *final(multisig), threshold),
{
    multisig.threshold = threshold;
}

/// Replaces the owner list, keeping the record's size.
pub fn execute_set_owners(multisig: &mut Multisig, owners: Vec<Key>)
    requires
        old(multisig).fits(),
        old(multisig).owner_set_seqno < u32::MAX,
        KEY_BYTES * owners@.len() <= old(multisig).capacity(),
    ensures
        owners_replaced(*old(multisig), *final(multisig), owners@),
        final(multisig).capacity() == old(multisig).capacity(),
        final(multisig).spec_len() == old(multisig).spec_len(),
{
    let padding_len: usize = multisig.padding.len() + KEY_BYTES * multisig.owners.len()
        - KEY_BYTES * owners.len();
    let mut padding: Vec<u8> = Vec::new();
    let mut i: usize = 0;
    while i < padding_len
        invariant
            i <= padding_len,
            padding@.len() == i,
            forall|j: int| 0 <= j < i ==> padding@[j] == 0,
        decreases padding_len - i,
    {
        padding.push(0);
        i = i + 1;
    }
    let count = owners.len();
    multisig.padding = padding;
    multisig.owners = owners;
    multisig.owner_set_seqno = multisig.owner_set_seqno + 1;
    if count < multisig.threshold as usize {
        multisig.threshold = count as u8;
    }
}

/// The first check that a change of owners fails.
pub open spec fn set_owners_check(
    program_id: Key,
    multisig_account: Account,
    multisig_signer: Account,
    multisig: Multisig,
    owners: Seq<Key>,
) -> Result<(), MultisigError> {
    if !vault_signed(multisig_signer, multisig_account, multisig, program_id) {
        Err(MultisigError::ConstraintSeeds)
    } else {
        owners_check(multisig, owners)
    }
}

/// Replaces the owner list of the multisig. It must be asked for by the
/// multisig itself: its vault account signs.
///
/// On success the sequence number goes up by one, so that every pending
/// transaction becomes stale; the threshold is lowered to the new owner count
/// where it exceeds it. On failure nothing changes.
pub fn set_owners(
    program_id: &Key,
    multisig_account: &Account,
    multisig_signer: &Account,
    multisig: &mut Multisig,
    instruction: SetOwnersInstruction,
) -> (r: Result<(), MultisigError>)
    requires
        old(multisig).fits(),
        old(multisig).owner_set_seqno < u32::MAX,
    ensures
        r == set_owners_check(
            *program_id,
            *multisig_account,
            *multisig_signer,
            *old(multisig),
            instruction.owners@,
        ),
        r is Ok ==> owners_replaced(*old(multisig), *final(multisig), instruction.owners@),
        r is Ok && old(multisig).wf() ==> final(multisig).wf(),
        r is Err ==> *final(multisig) == *old(multisig),
        final(multisig).spec_len() == old(multisig).spec_len(),
{
    validate_signer(multisig_signer, multisig_account, multisig, program_id)?;
    validate_owners(multisig, instruction.owners.as_slice())?;
    execute_set_owners(multisig, instruction.owners);
    Ok(())
}

/// The first check that a change of threshold fails.
pub open spec fn change_threshold_check(
    program_id: Key,
    multisig_account: Account,
    multisig_signer: Account,
    multisig: Multisig,
    threshold: u8,
) -> Result<(), MultisigError> {
    if !vault_signed(multisig_signer, multisig_account, multisig, program_id) {
        Err(MultisigError::ConstraintSeeds)
    } else {
        threshold_check(multisig.owners@.len() as int, threshold)
    }
}

/// Replaces the threshold of the multisig, checked against the current
/// owners. It must be asked for by the multisig itself. The sequence number
/// does not change. On failure nothing changes.
pub fn change_threshold(
    program_id: &Key,
    multisig_account: &Account,
    multisig_signer: &Account,
    multisig: &mut Multisig,
    instruction: ChangeThresholdInstruction,
) -> (r: Result<(), MultisigError>)
    ensures
        r == change_threshold_check(
            *program_id,
            *multisig_account,
            *multisig_signer,
            *old(multisig),
            instruction.threshold,
        ),
        r is Ok ==> threshold_replaced(*old(multisig), *final(multisig), instruction.threshold),
        r is Ok && old(multisig).wf() ==> final(multisig).wf(),
        r is Err ==> *final(multisig) == *old(multisig),
{
    validate_signer(multisig_signer, multisig_account, multisig, program_id)?;
    validate_threshold(multisig.owners.as_slice(), instruction.threshold)?;
    execute_change_threshold(multisig, instruction.threshold);
    Ok(())
}

/// The first check that a combined change fails; the threshold is checked
/// against the new owners.
pub open spec fn set_owners_and_change_threshold_check(
    program_id: Key,
    multisig_account: Account,
    multisig_signer: Account,
    multisig: Multisig,
    owners: Seq<Key>,
    threshold: u8,
) -> Result<(), MultisigError> {
    if !vault_signed(multisig_signer, multisig_account, multisig, program_id) {
        Err(MultisigError::ConstraintSeeds)
    } else if owners_check(multisig, owners) is Err {
        owners_check(multisig, owners)
    } else {
        threshold_check(owners.len() as int, threshold)
    }
}

/// Replaces the owner list and the threshold at once. It must be asked for
/// by the multisig itself. The sequence number goes up by one. On failure
/// nothing changes.
pub fn set_owners_and_change_threshold(
    program_id: &Key,
    multisig_account: &Account,
    multisig_signer: &Account,
    multisig: &mut Multisig,
    instruction: SetOwnersAndChangeThresholdInstruction,
) -> (r: Result<(), MultisigError>)
    requires
        old(multisig).fits(),
        old(multisig).owner_set_seqno < u32::MAX,
    ensures
        r == set_owners_and_change_threshold_check(
            *program_id,
            *multisig_account,
            *multisig_signer,
            *old(multisig),
            instruction.owners@,
            instruction.threshold,
        ),
        r is Ok ==> final(multisig).owners@ == instruction.owners@
            && final(multisig).threshold == instruction.threshold
            && final(multisig).nonce == old(multisig).nonce
            && final(multisig).owner_set_seqno == old(multisig).owner_set_seqno + 1
            && final(multisig).capacity() == old(multisig).capacity()
            && final(multisig).wf(),
        r is Err ==> *final(multisig) == *old(multisig),
        final(multisig).spec_len() == old(multisig).spec_len(),
{
    validate_signer(multisig_signer, multisig_account, multisig, program_id)?;
    validate_owners(multisig, instruction.owners.as_slice())?;
    validate_threshold(instruction.owners.as_slice(), instruction.threshold)?;
    execute_set_owners(multisig, instruction.owners);
    execute_change_threshold(multisig, instruction.threshold);
    Ok(())
}

} // verus!
