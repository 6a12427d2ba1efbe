use vstd::prelude::*;

use crate::account::Account;
use crate::errors::MultisigError;
use crate::key::{lemma_bytes_eq, Key};
use crate::multisig::Multisig;

verus! {

/// The program address derived from the seeds `[seed, [nonce]]` under
/// `program_id`, or `None` when those seeds give no valid program address.
pub uninterp spec fn program_address(seed: Seq<u8>, nonce: u8, program_id: Seq<u8>) -> Option<
    Seq<u8>,
>;

/// Relies on `solana_program::pubkey::Pubkey::create_program_address`: a
/// hash of the seeds and the program id, refused when it lies on the curve.
/// Two seeds, of 32 bytes and 1 byte, stay within its limits on seeds.
#[verifier::external_body]
fn create_program_address(seed: &Key, nonce: u8, program_id: &Key) -> (r: Option<Key>)
    ensures
        match r {
            Some(k) => program_address(seed.bytes(), nonce, program_id.bytes()) == Some(k.bytes()),
            None => program_address(seed.bytes(), nonce, program_id.bytes()) is None,
        },
{
    let program = solana_program::pubkey::Pubkey::new_from_array(program_id.0);
    match solana_program::pubkey::Pubkey::create_program_address(&[&seed.0[..], &[nonce][..]], &program) {
        Ok(address) => Some(Key(address.to_bytes())),
        Err(_) => None,
    }
}

/// `vault` is the address that the multisig at `authority`, with `nonce`,
/// signs as.
pub open spec fn is_vault(authority: Key, nonce: u8, program_id: Key, vault: Key) -> bool {
    program_address(authority.bytes(), nonce, program_id.bytes()) == Some(vault.bytes())
}

/// The address that the multisig at `authority` signs as, if the derivation
/// succeeds.
pub fn derive_vault(authority: &Key, nonce: u8, program_id: &Key) -> (r: Option<Key>)
    ensures
        forall|k: Key| r == Some(k) <==> is_vault(*authority, nonce, *program_id, k),
{
    let r = create_program_address(authority, nonce, program_id);
    proof {
        assert forall|k: Key| r == Some(k) <==> is_vault(*authority, nonce, *program_id, k) by {
            if let Some(d) = r {
                lemma_bytes_eq(d, k);
            }
        }
    }
    r
}

/// Fails with `ConstraintSeeds` unless `derived` holds `vault`.
pub fn check_vault(derived: Option<Key>, vault: &Key) -> (r: Result<(), MultisigError>)
    ensures
        r == (if derived == Some(*vault) {
            Ok(())
        } else {
            Err::<(), MultisigError>(MultisigError::ConstraintSeeds)
        }),
{
    match derived {
        Some(d) => {
            if d == *vault {
                Ok(())
            } else {
                Err(MultisigError::ConstraintSeeds)
            }
        },
        None => Err(MultisigError::ConstraintSeeds),
    }
}

/// The multisig's vault account is a signer and is the address derived
/// from the multisig account's key and the stored nonce.
pub open spec fn vault_signed(
    multisig_signer: Account,
    multisig_account: Account,
    multisig: Multisig,
    program_id: Key,
) -> bool {
    &&& multisig_signer.is_signer
    &&& is_vault(multisig_account.key, multisig.nonce, program_id, multisig_signer.key)
}

/// Checks that the operation is authorized by the multisig itself: fails
/// with `ConstraintSeeds` unless `multisig_signer` signs and is the vault
/// address derived from `multisig_account` and the stored nonce.
pub fn validate_signer(
    multisig_signer: &Account,
    multisig_account: &Account,
    multisig: &Multisig,
    program_id: &Key,
) -> (r: Result<(), MultisigError>)
    ensures
        r == (if vault_signed(*multisig_signer, *multisig_account, *multisig, *program_id) {
            Ok(())
        } else {
            Err::<(), MultisigError>(MultisigError::ConstraintSeeds)
        }),
{
    if !multisig_signer.is_signer {
        return Err(MultisigError::ConstraintSeeds);
    }
    let derived = derive_vault(&multisig_account.key, multisig.nonce, program_id);
    check_vault(derived, &multisig_signer.key)
}

} // verus!
