use vstd::prelude::*;

use crate::errors::MultisigError;
use crate::key::Key;

verus! {

/// What an operation sees of an account that the caller handed in: its key,
/// the flags the caller claims for it, and its balance.
#[derive(Clone, Copy, Debug)]
pub struct Account {
    pub key: Key,
    pub is_signer: bool,
    pub is_writable: bool,
    pub lamports: u64,
}

/// Moves the whole balance of `account` to `refundee`.
///
/// Fails with `AccountCloseFailure`, changing nothing, when the refundee's
/// balance would overflow. The caller then hands the emptied account back to
/// the system program and shrinks its data to nothing.
pub fn close_account(account: &mut Account, refundee: &mut Account) -> (r: Result<(), MultisigError>)
    ensures
        r == (if old(refundee).lamports + old(account).lamports > u64::MAX {
            Err::<(), MultisigError>(MultisigError::AccountCloseFailure)
        } else {
            Ok(())
        }),
        r is Err ==> *final(account) == *old(account) && *final(refundee) == *old(refundee),
        r is Ok ==> final(refundee).lamports == old(refundee).lamports + old(account).lamports
            && final(account).lamports == 0,
        final(account).key == old(account).key,
        final(account).is_signer == old(account).is_signer,
        final(account).is_writable == old(account).is_writable,
        final(refundee).key == old(refundee).key,
        final(refundee).is_signer == old(refundee).is_signer,
        final(refundee).is_writable == old(refundee).is_writable,
{
    match refundee.lamports.checked_add(account.lamports) {
        Some(total) => {
            refundee.lamports = total;
            account.lamports = 0;
            Ok(())
        },
        None => Err(MultisigError::AccountCloseFailure),
    }
}

} // verus!
