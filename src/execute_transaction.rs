use vstd::prelude::*;

use crate::account::Account;
use crate::errors::{assert_that, contains_key, MultisigError};
use crate::key::Key;
use crate::multisig::{position, Multisig};
use crate::transaction::{Transaction, TransactionInstructionAccount, TransactionInstructionData};
use crate::vault::{check_vault, derive_vault, is_vault};

verus! {

/// Number of `true` entries of `s`.
pub open spec fn count_true(s: Seq<bool>) -> nat
    decreases s.len(),
{
    if s.len() == 0 {
        0
    } else {
        count_true(s.drop_last()) + if s.last() {
            1nat
        } else {
            0nat
        }
    }
}

proof fn lemma_count_true_bound(s: Seq<bool>)
    ensures
        count_true(s) <= s.len(),
    decreases s.len(),
{
    if s.len() > 0 {
        lemma_count_true_bound(s.drop_last());
    }
}

/// Number of approvals recorded in `signers`.
pub fn approval_count(signers: &Vec<bool>) -> (r: usize)
    ensures
        r == count_true(signers@),
{
    let mut count: usize = 0;
    let mut i: usize = 0;
    while i < signers.len()
        invariant
            i <= signers@.len(),
            count == count_true(signers@.take(i as int)),
        decreases signers@.len() - i,
    {
        proof {
            assert(signers@.take(i + 1).drop_last() =~= signers@.take(i as int));
            lemma_count_true_bound(signers@.take(i as int));
        }
        if signers[i] {
            count = count + 1;
        }
        i = i + 1;
    }
    assert(signers@.take(i as int) =~= signers@);
    count
}

/// The account reference with the vault marked as a signer.
pub open spec fn promoted(account: TransactionInstructionAccount, vault: Key) -> TransactionInstructionAccount {
    TransactionInstructionAccount {
        pubkey: account.pubkey,
        is_signer: account.is_signer || account.pubkey == vault,
        is_writable: account.is_writable,
    }
}

/// `new` is `old` with every reference to the vault marked as a signer.
pub open spec fn promoted_from(
    new: TransactionInstructionData,
    old: TransactionInstructionData,
    vault: Key,
) -> bool {
    &&& new.program_id == old.program_id
    &&& new.data@ == old.data@
    &&& new.accounts@ == old.accounts@.map_values(|a| promoted(a, vault))
}

/// A copy of `ix` in which every reference to `vault` is a signer, so that
/// the multisig can sign for its vault when the instruction is dispatched.
pub fn promote_vault_signer(ix: &TransactionInstructionData, vault: &Key) -> (r:
    TransactionInstructionData)
    ensures
        promoted_from(r, *ix, *vault),
{
    let mut accounts: Vec<TransactionInstructionAccount> = Vec::new();
    let mut i: usize = 0;
    while i < ix.accounts.len()
        invariant
            i <= ix.accounts@.len(),
            accounts@ == ix.accounts@.take(i as int).map_values(|a| promoted(a, *vault)),
        decreases ix.accounts@.len() - i,
    {
        let a = ix.accounts[i];
        let is_vault = a.pubkey == *vault;
        accounts.push(
            TransactionInstructionAccount {
                pubkey: a.pubkey,
                is_signer: a.is_signer || is_vault,
                is_writable: a.is_writable,
            },
        );
        assert(ix.accounts@.take(i + 1) =~= ix.accounts@.take(i as int).push(a));
        assert(accounts@ =~= ix.accounts@.take(i + 1).map_values(|a| promoted(a, *vault)));
        i = i + 1;
    }
    assert(ix.accounts@.take(i as int) =~= ix.accounts@);
    let mut data: Vec<u8> = Vec::new();
    let mut j: usize = 0;
    while j < ix.data.len()
        invariant
            j <= ix.data@.len(),
            data@ == ix.data@.take(j as int),
        decreases ix.data@.len() - j,
    {
        data.push(ix.data[j]);
        assert(ix.data@.take(j + 1) =~= ix.data@.take(j as int).push(ix.data@[j as int]));
        j = j + 1;
    }
    assert(ix.data@.take(j as int) =~= ix.data@);
    TransactionInstructionData { program_id: ix.program_id, accounts, data }
}

/// The right to sign as the vault, handed to the dispatcher for one call:
/// the vault address and the seeds it is derived from.
#[derive(Clone, Copy, Debug)]
pub struct SignerCapability {
    pub multisig: Key,
    pub nonce: u8,
    pub vault: Key,
}

/// What an approved transaction dispatches, in order, and the capability it
/// is dispatched with.
#[derive(Clone, Debug)]
pub struct ExecutionPlan {
    pub instructions: Vec<TransactionInstructionData>,
    pub capability: SignerCapability,
}

/// The first check that an execution fails, given whether the vault account
/// is the derived one.
pub open spec fn execute_check(
    multisig_account: Account,
    transaction_account: Account,
    refundee: Account,
    executor: Account,
    multisig: Multisig,
    transaction: Transaction,
    vault_ok: bool,
) -> Result<(), MultisigError> {
    if !(executor.is_signer && contains_key(multisig.owners@, executor.key)) {
        Err(MultisigError::InvalidExecutor)
    } else if multisig.owner_set_seqno != transaction.owner_set_seqno {
        Err(MultisigError::InvalidOwnerSetSequenceNumber)
    } else if !vault_ok {
        Err(MultisigError::ConstraintSeeds)
    } else if !transaction_account.is_writable {
        Err(MultisigError::ImmutableTransactionAccount)
    } else if transaction.multisig != multisig_account.key {
        Err(MultisigError::InvalidTransactionAccount)
    } else if refundee.key == transaction_account.key {
        Err(MultisigError::InvalidRefundeeAccount)
    } else if !refundee.is_writable {
        Err(MultisigError::ImmutableRefundeeAccount)
    } else if count_true(transaction.signers@) < multisig.threshold {
        Err(MultisigError::NotEnoughSigners)
    } else {
        Ok(())
    }
}

/// `plan` dispatches the transaction's instructions, in order, with the
/// vault promoted to signer, under the multisig's signing capability.
pub open spec fn plan_of(
    plan: ExecutionPlan,
    multisig_account: Account,
    multisig_signer: Account,
    multisig: Multisig,
    transaction: Transaction,
) -> bool {
    &&& plan.capability == SignerCapability {
        multisig: multisig_account.key,
        nonce: multisig.nonce,
        vault: multisig_signer.key,
    }
    &&& plan.instructions@.len() == transaction.instructions@.len()
    &&& forall|i: int|
        0 <= i < plan.instructions@.len() ==> promoted_from(
            #[trigger] plan.instructions@[i],
            transaction.instructions@[i],
            multisig_signer.key,
        )
}

/// Execution once the vault address has been derived (`derived`, `None`
/// when the derivation failed).
pub fn execute_transaction_with_address(
    derived: Option<Key>,
    multisig_account: &Account,
    multisig_signer: &Account,
    transaction_account: &Account,
    refundee: &Account,
    executor: &Account,
    multisig: &Multisig,
    transaction: &Transaction,
) -> (r: Result<ExecutionPlan, MultisigError>)
    ensures
        match r {
            Ok(plan) => execute_check(
                *multisig_account,
                *transaction_account,
                *refundee,
                *executor,
                *multisig,
                *transaction,
                derived == Some(multisig_signer.key),
            ) is Ok && plan_of(plan, *multisig_account, *multisig_signer, *multisig, *transaction),
            Err(e) => execute_check(
                *multisig_account,
                *transaction_account,
                *refundee,
                *executor,
                *multisig,
                *transaction,
                derived == Some(multisig_signer.key),
            ) == Err::<(), MultisigError>(e),
        },
{
    let is_owner = match position(&multisig.owners, &executor.key) {
        Some(i) => {
            assert(multisig.owners@[i as int] == executor.key);
            true
        },
        None => false,
    };
    assert_that(executor.is_signer && is_owner, MultisigError::InvalidExecutor)?;
    assert_that(
        multisig.owner_set_seqno == transaction.owner_set_seqno,
        MultisigError::InvalidOwnerSetSequenceNumber,
    )?;
    check_vault(derived, &multisig_signer.key)?;
    assert_that(transaction_account.is_writable, MultisigError::ImmutableTransactionAccount)?;
    assert_that(
        transaction.multisig == multisig_account.key,
        MultisigError::InvalidTransactionAccount,
    )?;
    assert_that(refundee.key != transaction_account.key, MultisigError::InvalidRefundeeAccount)?;
    assert_that(refundee.is_writable, MultisigError::ImmutableRefundeeAccount)?;
    let approvals = approval_count(&transaction.signers);
    assert_that(approvals >= multisig.threshold as usize, MultisigError::NotEnoughSigners)?;

    let mut instructions: Vec<TransactionInstructionData> = Vec::new();
    let mut i: usize = 0;
    while i < transaction.instructions.len()
        invariant
            i <= transaction.instructions@.len(),
            instructions@.len() == i,
            forall|j: int|
                0 <= j < i ==> promoted_from(
                    #[trigger] instructions@[j],
                    transaction.instructions@[j],
                    multisig_signer.key,
                ),
        decreases transaction.instructions@.len() - i,
    {
        instructions.push(promote_vault_signer(&transaction.instructions[i], &multisig_signer.key));
        i = i + 1;
    }
    let capability = SignerCapability {
        multisig: multisig_account.key,
        nonce: multisig.nonce,
        vault: multisig_signer.key,
    };
    Ok(ExecutionPlan { instructions, capability })
}

/// Checks that an approved transaction may run and returns what to
/// dispatch. The executor is an owner who signs; the transaction was proposed
/// under the current owner set; `multisig_signer` is the multisig's vault;
/// the transaction is writable and belongs to the multisig; the refundee is
/// writable and not the transaction itself; and at least `threshold` owners
/// approved. Nothing is changed here: once every instruction has been
/// dispatched the caller closes the transaction account into the refundee.
pub fn execute_transaction(
    program_id: &Key,
    multisig_account: &Account,
    multisig_signer: &Account,
    transaction_account: &Account,
    refundee: &Account,
    executor: &Account,
    multisig: &Multisig,
    transaction: &Transaction,
) -> (r: Result<ExecutionPlan, MultisigError>)
    ensures
        match r {
            Ok(plan) => execute_check(
                *multisig_account,
                *transaction_account,
                *refundee,
                *executor,
                *multisig,
                *transaction,
                is_vault(multisig_account.key, multisig.nonce, *program_id, multisig_signer.key),
            ) is Ok && plan_of(plan, *multisig_account, *multisig_signer, *multisig, *transaction),
            Err(e) => execute_check(
                *multisig_account,
                *transaction_account,
                *refundee,
                *executor,
                *multisig,
                *transaction,
                is_vault(multisig_account.key, multisig.nonce, *program_id, multisig_signer.key),
            ) == Err::<(), MultisigError>(e),
        },
{
    let derived = derive_vault(&multisig_account.key, multisig.nonce, program_id);
    execute_transaction_with_address(
        derived,
        multisig_account,
        multisig_signer,
        transaction_account,
        refundee,
        executor,
        multisig,
        transaction,
    )
}

} // verus!
