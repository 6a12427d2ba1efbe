use vstd::prelude::*;

use crate::key::Key;

verus! {

/// Every way in which an operation on a multisig or on one of its
/// transactions can be refused.
#[derive(Clone, Copy, Debug, PartialEq, Eq, Structural)]
pub enum MultisigError {
    InvalidThreshold,
    UniqueOwners,
    InvalidOwner,
    ProposerNotSigner,
    MissingInstructions,
    InvalidOwnerSetSequenceNumber,
    NotEnoughOwners,
    TooManyOwners,
    InvalidExecutor,
    ImmutableTransactionAccount,
    InvalidTransactionAccount,
    InvalidRefundeeAccount,
    ImmutableRefundeeAccount,
    NotEnoughSigners,
    AccountCloseFailure,
    MalformedTransactionAccount,
    ConstraintSeeds,
    ApproverNotSigner,
}

impl MultisigError {
    /// The stable numeric code of each error: its position in the list above.
    pub open spec fn spec_code(self) -> u32 {
        match self {
            MultisigError::InvalidThreshold => 0,
            MultisigError::UniqueOwners => 1,
            MultisigError::InvalidOwner => 2,
            MultisigError::ProposerNotSigner => 3,
            MultisigError::MissingInstructions => 4,
            MultisigError::InvalidOwnerSetSequenceNumber => 5,
            MultisigError::NotEnoughOwners => 6,
            MultisigError::TooManyOwners => 7,
            MultisigError::InvalidExecutor => 8,
            MultisigError::ImmutableTransactionAccount => 9,
            MultisigError::InvalidTransactionAccount => 10,
            MultisigError::InvalidRefundeeAccount => 11,
            MultisigError::ImmutableRefundeeAccount => 12,
            MultisigError::NotEnoughSigners => 13,
            MultisigError::AccountCloseFailure => 14,
            MultisigError::MalformedTransactionAccount => 15,
            MultisigError::ConstraintSeeds => 16,
            MultisigError::ApproverNotSigner => 17,
        }
    }

    pub fn code(&self) -> (r: u32)
        ensures
            r == self.spec_code(),
    {
        match self {
            MultisigError::InvalidThreshold => 0,
            MultisigError::UniqueOwners => 1,
            MultisigError::InvalidOwner => 2,
            MultisigError::ProposerNotSigner => 3,
            MultisigError::MissingInstructions => 4,
            MultisigError::InvalidOwnerSetSequenceNumber => 5,
            MultisigError::NotEnoughOwners => 6,
            MultisigError::TooManyOwners => 7,
            MultisigError::InvalidExecutor => 8,
            MultisigError::ImmutableTransactionAccount => 9,
            MultisigError::InvalidTransactionAccount => 10,
            MultisigError::InvalidRefundeeAccount => 11,
            MultisigError::ImmutableRefundeeAccount => 12,
            MultisigError::NotEnoughSigners => 13,
            MultisigError::AccountCloseFailure => 14,
            MultisigError::MalformedTransactionAccount => 15,
            MultisigError::ConstraintSeeds => 16,
            MultisigError::ApproverNotSigner => 17,
        }
    }
}

/// `Ok(())` when `condition` holds, `error` otherwise.
pub fn assert_that(condition: bool, error: MultisigError) -> (r: Result<(), MultisigError>)
    ensures
        r == (if condition { Ok(()) } else { Err::<(), MultisigError>(error) }),
{
    if condition {
        Ok(())
    } else {
        Err(error)
    }
}

/// The value held by `option`, or `error` when there is none.
pub fn assert_present<T>(option: Option<T>, error: MultisigError) -> (r: Result<T, MultisigError>)
    ensures
        r == (match option {
            Some(v) => Ok::<T, MultisigError>(v),
            None => Err(error),
        }),
{
    match option {
        Some(v) => Ok(v),
        None => Err(error),
    }
}

/// The value held by `result`, or `error` in place of whatever error it held.
pub fn assert_success<T, E>(result: Result<T, E>, error: MultisigError) -> (r: Result<
    T,
    MultisigError,
>)
    ensures
        r == (match result {
            Ok(v) => Ok::<T, MultisigError>(v),
            Err(_) => Err(error),
        }),
{
    match result {
        Ok(v) => Ok(v),
        Err(_) => Err(error),
    }
}

/// No key occurs twice in `keys`.
pub open spec fn unique_keys(keys: Seq<Key>) -> bool {
    forall|i: int, j: int| 0 <= i < j < keys.len() ==> keys[i] != keys[j]
}

/// `key` occurs in `keys`.
pub open spec fn contains_key(keys: Seq<Key>, key: Key) -> bool {
    exists|i: int| 0 <= i < keys.len() && keys[i] == key
}

/// Fails with `UniqueOwners` exactly when some owner occurs twice.
pub fn assert_unique_owners(owners: &[Key]) -> (r: Result<(), MultisigError>)
    ensures
        r == (if unique_keys(owners@) {
            Ok(())
        } else {
            Err::<(), MultisigError>(MultisigError::UniqueOwners)
        }),
{
    let n = owners.len();
    let mut i: usize = 0;
    while i < n
        invariant
            n == owners@.len(),
            i <= n,
            forall|a: int, b: int| 0 <= a < i && a < b < n ==> owners@[a] != owners@[b],
        decreases n - i,
    {
        let mut j: usize = i + 1;
        while j < n
            invariant
                n == owners@.len(),
                i < n,
                i < j <= n,
                forall|a: int, b: int| 0 <= a < i && a < b < n ==> owners@[a] != owners@[b],
                forall|b: int| i < b < j ==> owners@[i as int] != owners@[b],
            decreases n - j,
        {
            if owners[i] == owners[j] {
                return Err(MultisigError::UniqueOwners);
            }
            j = j + 1;
        }
        i = i + 1;
    }
    Ok(())
}

} // verus!
