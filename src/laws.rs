use vstd::prelude::*;

use crate::account::Account;
use crate::approve_transaction::{approval_set, approve_check};
use crate::cancel_transaction::cancel_check;
use crate::errors::{contains_key, MultisigError};
use crate::execute_transaction::{count_true, execute_check};
use crate::multisig::{first_index, lemma_first_index_exists, Multisig};
use crate::transaction::Transaction;

verus! {

/// Approving a transaction a second time with the same owner succeeds again
/// and leaves it exactly as the first approval did.
pub proof fn lemma_approve_idempotent(
    multisig_account: Account,
    transaction_account: Account,
    approver: Account,
    multisig: Multisig,
    first: Transaction,
    once: Transaction,
    twice: Transaction,
)
    requires
        approve_check(multisig_account, transaction_account, approver, multisig, first) is Ok,
        approval_set(first, once, first_index(multisig.owners@, approver.key)),
        approval_set(once, twice, first_index(multisig.owners@, approver.key)),
    ensures
        approve_check(multisig_account, transaction_account, approver, multisig, once) is Ok,
        twice.signers@ == once.signers@,
        twice.multisig == once.multisig,
        twice.instructions@ == once.instructions@,
        twice.owner_set_seqno == once.owner_set_seqno,
{
    lemma_first_index_exists(multisig.owners@, approver.key);
    assert(twice.signers@ =~= once.signers@);
}

/// Once the other checks pass, execution is allowed exactly when the
/// approvals reach the threshold and the owner set is the one the
/// transaction was proposed under. A changed owner set is reported as such,
/// whatever the approvals; too few approvals are reported as such.
pub proof fn lemma_execute_needs_quorum_and_current_owners(
    multisig_account: Account,
    transaction_account: Account,
    refundee: Account,
    executor: Account,
    multisig: Multisig,
    transaction: Transaction,
)
    requires
        executor.is_signer,
        contains_key(multisig.owners@, executor.key),
        transaction_account.is_writable,
        transaction.multisig == multisig_account.key,
        refundee.key != transaction_account.key,
        refundee.is_writable,
    ensures
        execute_check(
            multisig_account,
            transaction_account,
            refundee,
            executor,
            multisig,
            transaction,
            true,
        ) is Ok <==> (count_true(transaction.signers@) >= multisig.threshold
            && multisig.owner_set_seqno == transaction.owner_set_seqno),
        multisig.owner_set_seqno != transaction.owner_set_seqno ==> execute_check(
            multisig_account,
            transaction_account,
            refundee,
            executor,
            multisig,
            transaction,
            true,
        ) == Err::<(), MultisigError>(MultisigError::InvalidOwnerSetSequenceNumber),
        multisig.owner_set_seqno == transaction.owner_set_seqno && count_true(transaction.signers@)
            < multisig.threshold ==> execute_check(
            multisig_account,
            transaction_account,
            refundee,
            executor,
            multisig,
            transaction,
            true,
        ) == Err::<(), MultisigError>(MultisigError::NotEnoughSigners),
{
}

/// Cancellation does not look at the approvals: two transactions that
/// differ only in their approvals are cancelled alike. An owner who signs can
/// cancel a transaction of the multisig unless the transaction is newer than
/// the owner set, or the refund would overflow.
pub proof fn lemma_cancel_ignores_approvals(
    multisig_account: Account,
    transaction_account: Account,
    refundee: Account,
    executor: Account,
    multisig: Multisig,
    transaction: Transaction,
    other: Transaction,
)
    requires
        other.multisig == transaction.multisig,
        other.owner_set_seqno == transaction.owner_set_seqno,
    ensures
        cancel_check(multisig_account, transaction_account, refundee, executor, multisig, other)
            == cancel_check(
            multisig_account,
            transaction_account,
            refundee,
            executor,
            multisig,
            transaction,
        ),
        executor.is_signer && contains_key(multisig.owners@, executor.key)
            && transaction.multisig == multisig_account.key && refundee.lamports
            + transaction_account.lamports <= u64::MAX ==> (cancel_check(
            multisig_account,
            transaction_account,
            refundee,
            executor,
            multisig,
            transaction,
        ) is Ok <==> multisig.owner_set_seqno >= transaction.owner_set_seqno),
        executor.is_signer && contains_key(multisig.owners@, executor.key)
            && multisig.owner_set_seqno < transaction.owner_set_seqno ==> cancel_check(
            multisig_account,
            transaction_account,
            refundee,
            executor,
            multisig,
            transaction,
        ) == Err::<(), MultisigError>(MultisigError::InvalidOwnerSetSequenceNumber),
{
}

} // verus!
