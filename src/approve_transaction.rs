use vstd::prelude::*;

use crate::account::Account;
use crate::errors::{assert_present, assert_that, contains_key, MultisigError};
use crate::multisig::{first_index, position, Multisig};
use crate::transaction::Transaction;

verus! {

/// The first check that an approval fails.
pub open spec fn approve_check(
    multisig_account: Account,
    transaction_account: Account,
    approver: Account,
    multisig: Multisig,
    transaction: Transaction,
) -> Result<(), MultisigError> {
    if !contains_key(multisig.owners@, approver.key) {
        Err(MultisigError::InvalidOwner)
    } else if !approver.is_signer {
        Err(MultisigError::ApproverNotSigner)
    } else if multisig.owner_set_seqno != transaction.owner_set_seqno {
        Err(MultisigError::InvalidOwnerSetSequenceNumber)
    } else if !transaction_account.is_writable {
        Err(MultisigError::ImmutableTransactionAccount)
    } else if transaction.multisig != multisig_account.key {
        Err(MultisigError::InvalidTransactionAccount)
    } else if first_index(multisig.owners@, approver.key) >= transaction.signers@.len() {
        Err(MultisigError::MalformedTransactionAccount)
    } else {
        Ok(())
    }
}

/// `new` is `old` with the approval of the owner at `index` set; nothing
/// else changes.
pub open spec fn approval_set(old: Transaction, new: Transaction, index: int) -> bool {
    &&& new.signers@ == old.signers@.update(index, true)
    &&& new.multisig == old.multisig
    &&& new.instructions@ == old.instructions@
    &&& new.owner_set_seqno == old.owner_set_seqno
}

/// Records the approval of an owner who signs. The transaction must have
/// been proposed under the current owner set (equal sequence numbers), must
/// be writable and must belong to the multisig. Approving again changes
/// nothing. On failure nothing changes.
pub fn approve_transaction(
    multisig_account: &Account,
    transaction_account: &Account,
    approver: &Account,
    multisig: &Multisig,
    transaction: &mut Transaction,
) -> (r: Result<(), MultisigError>)
    ensures
        r == approve_check(
            *multisig_account,
            *transaction_account,
            *approver,
            *multisig,
            *old(transaction),
        ),
        r is Ok ==> approval_set(
            *old(transaction),
            *final(transaction),
            first_index(multisig.owners@, approver.key),
        ),
        r is Err ==> *final(transaction) == *old(transaction),
        final(transaction).signers@.len() == old(transaction).signers@.len(),
{
    let owner_index = assert_present(
        position(&multisig.owners, &approver.key),
        MultisigError::InvalidOwner,
    )?;
    assert_that(approver.is_signer, MultisigError::ApproverNotSigner)?;
    assert_that(
        multisig.owner_set_seqno == transaction.owner_set_seqno,
        MultisigError::InvalidOwnerSetSequenceNumber,
    )?;
    assert_that(transaction_account.is_writable, MultisigError::ImmutableTransactionAccount)?;
    assert_that(
        transaction.multisig == multisig_account.key,
        MultisigError::InvalidTransactionAccount,
    )?;
    assert_that(
        owner_index < transaction.signers.len(),
        MultisigError::MalformedTransactionAccount,
    )?;
    transaction.signers.set(owner_index, true);
    Ok(())
}

} // verus!
