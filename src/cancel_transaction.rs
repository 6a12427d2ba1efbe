use vstd::prelude::*;

use crate::account::{close_account, Account};
use crate::errors::{assert_that, contains_key, MultisigError};
use crate::multisig::{position, Multisig};
use crate::transaction::Transaction;

verus! {

/// The first check that a cancellation fails. No approvals are needed, and
/// a transaction made stale by a change of owners can still be cancelled.
pub open spec fn cancel_check(
    multisig_account: Account,
    transaction_account: Account,
    refundee: Account,
    executor: Account,
    multisig: Multisig,
    transaction: Transaction,
) -> Result<(), MultisigError> {
    if !(executor.is_signer && contains_key(multisig.owners@, executor.key)) {
        Err(MultisigError::InvalidExecutor)
    } else if multisig.owner_set_seqno < transaction.owner_set_seqno {
        Err(MultisigError::InvalidOwnerSetSequenceNumber)
    } else if transaction.multisig != multisig_account.key {
        Err(MultisigError::InvalidTransactionAccount)
    } else if refundee.lamports + transaction_account.lamports > u64::MAX {
        Err(MultisigError::AccountCloseFailure)
    } else {
        Ok(())
    }
}

/// Cancels a transaction on behalf of an owner who signs: its balance goes
/// to `refundee`, and the caller then releases the account. On failure no
/// balance changes.
pub fn cancel_transaction(
    multisig_account: &Account,
    transaction_account: &mut Account,
    refundee: &mut Account,
    executor: &Account,
    multisig: &Multisig,
    transaction: &Transaction,
) -> (r: Result<(), MultisigError>)
    ensures
        r == cancel_check(
            *multisig_account,
            *old(transaction_account),
            *old(refundee),
            *executor,
            *multisig,
            *transaction,
        ),
        r is Ok ==> final(transaction_account).lamports == 0 && final(refundee).lamports == old(
            refundee,
        ).lamports + old(transaction_account).lamports,
        r is Err ==> *final(transaction_account) == *old(transaction_account) && *final(refundee)
            == *old(refundee),
        final(transaction_account).key == old(transaction_account).key,
        final(refundee).key == old(refundee).key,
{
    let found = position(&multisig.owners, &executor.key);
    let is_owner = match found {
        Some(i) => {
            assert(multisig.owners@[i as int] == executor.key);
            true
        },
        None => false,
    };
    assert_that(executor.is_signer && is_owner, MultisigError::InvalidExecutor)?;
    assert_that(
        multisig.owner_set_seqno >= transaction.owner_set_seqno,
        MultisigError::InvalidOwnerSetSequenceNumber,
    )?;
    assert_that(
        transaction.multisig == multisig_account.key,
        MultisigError::InvalidTransactionAccount,
    )?;
    close_account(transaction_account, refundee)
}

} // verus!
