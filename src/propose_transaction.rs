use vstd::prelude::*;

use crate::account::Account;
use crate::errors::{assert_present, assert_that, contains_key, MultisigError};
use crate::instructions::ProposeTransactionInstruction;
use crate::multisig::{first_index, position, Multisig};
use crate::transaction::Transaction;

verus! {

/// The first check that a proposal fails.
pub open spec fn propose_check(
    proposer: Account,
    multisig: Multisig,
    instruction: ProposeTransactionInstruction,
) -> Result<(), MultisigError> {
    if !proposer.is_signer {
        Err(MultisigError::ProposerNotSigner)
    } else if instruction.instructions@.len() == 0 {
        Err(MultisigError::MissingInstructions)
    } else if !contains_key(multisig.owners@, proposer.key) {
        Err(MultisigError::InvalidOwner)
    } else {
        Ok(())
    }
}

/// `t` is the transaction proposed by `proposer`: bound to the multisig
/// account and to its current sequence number, one approval slot per current
/// owner, and only the proposer's slot set.
pub open spec fn proposed(
    t: Transaction,
    multisig_account: Account,
    proposer: Account,
    multisig: Multisig,
    instruction: ProposeTransactionInstruction,
) -> bool {
    &&& t.multisig == multisig_account.key
    &&& t.instructions@ == instruction.instructions@
    &&& t.owner_set_seqno == multisig.owner_set_seqno
    &&& t.signers@.len() == multisig.owners@.len()
    &&& forall|i: int|
        0 <= i < t.signers@.len() ==> t.signers@[i] == (i == first_index(
            multisig.owners@,
            proposer.key,
        ))
}

/// Proposes a transaction on behalf of an owner who signs. The proposer's
/// approval is recorded at once. Nothing is created when a check fails.
pub fn propose_transaction(
    multisig_account: &Account,
    proposer: &Account,
    multisig: &Multisig,
    instruction: ProposeTransactionInstruction,
) -> (r: Result<Transaction, MultisigError>)
    ensures
        match r {
            Ok(t) => propose_check(*proposer, *multisig, instruction) is Ok && proposed(
                t,
                *multisig_account,
                *proposer,
                *multisig,
                instruction,
            ),
            Err(e) => propose_check(*proposer, *multisig, instruction) == Err::<(), MultisigError>(
                e,
            ),
        },
{
    assert_that(proposer.is_signer, MultisigError::ProposerNotSigner)?;
    assert_that(instruction.instructions.len() != 0, MultisigError::MissingInstructions)?;
    let owner_index = assert_present(
        position(&multisig.owners, &proposer.key),
        MultisigError::InvalidOwner,
    )?;
    let n = multisig.owners.len();
    let mut signers: Vec<bool> = Vec::new();
    let mut i: usize = 0;
    while i < n
        invariant
            i <= n,
            n == multisig.owners@.len(),
            owner_index < n,
            signers@.len() == i,
            forall|j: int| 0 <= j < i ==> signers@[j] == (j == owner_index),
        decreases n - i,
    {
        signers.push(i == owner_index);
        i = i + 1;
    }
    Ok(
        Transaction {
            multisig: multisig_account.key,
            instructions: instruction.instructions,
            signers,
            owner_set_seqno: multisig.owner_set_seqno,
        },
    )
}

} // verus!
