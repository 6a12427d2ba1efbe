use multisig::errors::{
    assert_present, assert_success, assert_that, assert_unique_owners, MultisigError,
};
use multisig::key::Key;
use multisig::multisig::{position, Multisig};
use multisig::owners::{validate_owners, validate_threshold};
use multisig::transaction::{Transaction, TransactionInstructionAccount, TransactionInstructionData};
use multisig::vault::{check_vault, derive_vault};
use solana_program::pubkey::Pubkey;

fn key(n: u8) -> Key {
    Key([n; 32])
}

fn ix(accounts: usize, data: usize) -> TransactionInstructionData {
    TransactionInstructionData {
        program_id: key(1),
        accounts: vec![
            TransactionInstructionAccount { pubkey: key(2), is_signer: false, is_writable: false };
            accounts
        ],
        data: vec![0; data],
    }
}

#[test]
fn multisig_len_counts_owners_and_padding() {
    let m = Multisig { owners: vec![key(1), key(2)], threshold: 1, nonce: 0, owner_set_seqno: 0, padding: vec![0; 5] };
    assert_eq!(m.len(), 4 + 64 + 1 + 1 + 4 + 4 + 5);
    assert!(m.size_fits());
    let empty = Multisig { owners: vec![], threshold: 0, nonce: 0, owner_set_seqno: 0, padding: vec![] };
    assert_eq!(empty.len(), 14);
}

#[test]
fn instruction_len_counts_accounts_and_data() {
    assert_eq!(ix(0, 0).len(), 40);
    assert_eq!(ix(2, 3).len(), 32 + 4 + 68 + 4 + 3);
}

#[test]
fn transaction_len_sums_instructions() {
    let t = Transaction {
        multisig: key(9),
        instructions: vec![ix(2, 3), ix(0, 0)],
        signers: vec![true, false, false],
        owner_set_seqno: 4,
    };
    assert_eq!(t.len(), 32 + 4 + 111 + 40 + 4 + 3 + 4);
    let empty = Transaction { multisig: key(9), instructions: vec![], signers: vec![], owner_set_seqno: 0 };
    assert_eq!(empty.len(), 44);
}

#[test]
fn error_codes_are_positions() {
    assert_eq!(MultisigError::InvalidThreshold.code(), 0);
    assert_eq!(MultisigError::UniqueOwners.code(), 1);
    assert_eq!(MultisigError::NotEnoughSigners.code(), 13);
    assert_eq!(MultisigError::MalformedTransactionAccount.code(), 15);
    assert_eq!(MultisigError::ConstraintSeeds.code(), 16);
    assert_eq!(MultisigError::ApproverNotSigner.code(), 17);
}

#[test]
fn assertion_helpers() {
    assert_eq!(assert_that(true, MultisigError::InvalidOwner), Ok(()));
    assert_eq!(assert_that(false, MultisigError::InvalidOwner), Err(MultisigError::InvalidOwner));
    assert_eq!(assert_present(Some(4u8), MultisigError::InvalidOwner), Ok(4));
    assert_eq!(assert_present::<u8>(None, MultisigError::InvalidOwner), Err(MultisigError::InvalidOwner));
    assert_eq!(assert_success::<u8, ()>(Ok(3), MultisigError::TooManyOwners), Ok(3));
    assert_eq!(
        assert_success::<u8, ()>(Err(()), MultisigError::TooManyOwners),
        Err(MultisigError::TooManyOwners)
    );
}

#[test]
fn unique_owner_check() {
    assert_eq!(assert_unique_owners(&[]), Ok(()));
    assert_eq!(assert_unique_owners(&[key(1), key(2), key(3)]), Ok(()));
    assert_eq!(assert_unique_owners(&[key(1), key(2), key(1)]), Err(MultisigError::UniqueOwners));
    assert_eq!(assert_unique_owners(&[key(2), key(2)]), Err(MultisigError::UniqueOwners));
}

#[test]
fn keys_compare_by_all_bytes() {
    let mut a = [7u8; 32];
    let b = Key(a);
    a[31] = 8;
    assert!(Key(a) != b);
    assert!(Key([7u8; 32]) == b);
    assert_eq!(Key::new(a).to_bytes(), a);
}

#[test]
fn position_finds_first_occurrence() {
    let keys = vec![key(1), key(2), key(1)];
    assert_eq!(position(&keys, &key(1)), Some(0));
    assert_eq!(position(&keys, &key(2)), Some(1));
    assert_eq!(position(&keys, &key(3)), None);
}

#[test]
fn owner_and_threshold_validation() {
    let m = Multisig { owners: vec![key(1), key(2)], threshold: 1, nonce: 0, owner_set_seqno: 0, padding: vec![0; 40] };
    assert_eq!(validate_owners(&m, &[key(1), key(2), key(3)]), Ok(()));
    assert_eq!(validate_owners(&m, &[key(1), key(2), key(3), key(4)]), Err(MultisigError::TooManyOwners));
    assert_eq!(validate_owners(&m, &[]), Err(MultisigError::NotEnoughOwners));
    assert_eq!(validate_owners(&m, &[key(1), key(1)]), Err(MultisigError::UniqueOwners));
    assert_eq!(validate_threshold(&[key(1), key(2)], 2), Ok(()));
    assert_eq!(validate_threshold(&[key(1), key(2)], 3), Err(MultisigError::InvalidThreshold));
    assert_eq!(validate_threshold(&[key(1), key(2)], 0), Err(MultisigError::InvalidThreshold));
}

#[test]
fn vault_derivation_matches_program_address() {
    let program = Pubkey::new_from_array([200; 32]);
    let seed = [100u8; 32];
    let (expected, nonce) = Pubkey::find_program_address(&[&seed[..]], &program);
    let derived = derive_vault(&Key(seed), nonce, &Key(program.to_bytes()));
    assert_eq!(derived, Some(Key(expected.to_bytes())));
    assert!(derived != Some(Key(seed)));
    assert_eq!(check_vault(derived, &Key(expected.to_bytes())), Ok(()));
    assert_eq!(check_vault(derived, &Key(seed)), Err(MultisigError::ConstraintSeeds));
    assert_eq!(check_vault(None, &Key(seed)), Err(MultisigError::ConstraintSeeds));
}
