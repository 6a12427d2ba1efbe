use vstd::prelude::*;

use crate::account::Account;
use crate::errors::{assert_that, assert_unique_owners, unique_keys, MultisigError};
use crate::instructions::CreateMultisigInstruction;
use crate::key::Key;
use crate::multisig::Multisig;
use crate::vault::{check_vault, derive_vault, is_vault};

verus! {

/// The first check that a creation fails, given whether the declared vault
/// is the derived one.
pub open spec fn create_check(instruction: CreateMultisigInstruction, vault_ok: bool) -> Result<
    (),
    MultisigError,
> {
    if !unique_keys(instruction.owners@) {
        Err(MultisigError::UniqueOwners)
    } else if !(0 < instruction.threshold && instruction.threshold as int
        <= instruction.owners@.len()) {
        Err(MultisigError::InvalidThreshold)
    } else if !vault_ok {
        Err(MultisigError::ConstraintSeeds)
    } else {
        Ok(())
    }
}

/// The new multisig record holds exactly what the instruction asked for,
/// with sequence number zero and no reserved space.
pub open spec fn created_from(m: Multisig, instruction: CreateMultisigInstruction) -> bool {
    &&& m.owners@ == instruction.owners@
    &&& m.threshold == instruction.threshold
    &&& m.nonce == instruction.nonce
    &&& m.owner_set_seqno == 0
    &&& m.padding@.len() == 0
}

/// Creation once the vault address has been derived (`derived`, `None` when
/// the derivation failed).
pub fn create_multisig_with_address(
    derived: Option<Key>,
    multisig_signer: &Account,
    instruction: CreateMultisigInstruction,
) -> (r: Result<Multisig, MultisigError>)
    ensures
        match r {
            Ok(m) => create_check(instruction, derived == Some(multisig_signer.key)) is Ok
                && created_from(m, instruction) && m.wf(),
            Err(e) => create_check(instruction, derived == Some(multisig_signer.key)) == Err::<
                (),
                MultisigError,
            >(e),
        },
{
    assert_unique_owners(instruction.owners.as_slice())?;
    assert_that(
        instruction.threshold > 0 && instruction.threshold as usize <= instruction.owners.len(),
        MultisigError::InvalidThreshold,
    )?;
    check_vault(derived, &multisig_signer.key)?;
    Ok(
        Multisig {
            owners: instruction.owners,
            threshold: instruction.threshold,
            nonce: instruction.nonce,
            owner_set_seqno: 0,
            padding: Vec::new(),
        },
    )
}

/// Creates the record of a multisig at `multisig_account`: owners unique,
/// `0 < threshold <= owners.len()`, and `multisig_signer` the address derived
/// from the multisig account's key and the nonce. Nothing is created when a
/// check fails.
pub fn create_multisig(
    program_id: &Key,
    multisig_account: &Account,
    multisig_signer: &Account,
    instruction: CreateMultisigInstruction,
) -> (r: Result<Multisig, MultisigError>)
    ensures
        match r {
            Ok(m) => create_check(
                instruction,
                is_vault(multisig_account.key, instruction.nonce, *program_id, multisig_signer.key),
            ) is Ok && created_from(m, instruction) && m.wf(),
            Err(e) => create_check(
                instruction,
                is_vault(multisig_account.key, instruction.nonce, *program_id, multisig_signer.key),
            ) == Err::<(), MultisigError>(e),
        },
{
    let derived = derive_vault(&multisig_account.key, instruction.nonce, program_id);
    create_multisig_with_address(derived, multisig_signer, instruction)
}

} // verus!
