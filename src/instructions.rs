use vstd::prelude::*;

use crate::key::Key;
use crate::transaction::TransactionInstructionData;

verus! {

/// Creates a multisig with the given owners, threshold and derivation nonce.
#[derive(Clone, Debug)]
pub struct CreateMultisigInstruction {
    pub owners: Vec<Key>,
    pub threshold: u8,
    pub nonce: u8,
}

/// Replaces the owner list.
#[derive(Clone, Debug)]
pub struct SetOwnersInstruction {
    pub owners: Vec<Key>,
}

/// Replaces the threshold.
#[derive(Clone, Copy, Debug, PartialEq, Eq, Structural)]
pub struct ChangeThresholdInstruction {
    pub threshold: u8,
}

/// Replaces the owner list and the threshold in one step.
#[derive(Clone, Debug)]
pub struct SetOwnersAndChangeThresholdInstruction {
    pub owners: Vec<Key>,
    pub threshold: u8,
}

/// Proposes a transaction made of the given instructions.
#[derive(Clone, Debug)]
pub struct ProposeTransactionInstruction {
    pub instructions: Vec<TransactionInstructionData>,
}

/// A request to the multisig program, one variant per operation.
#[derive(Clone, Debug)]
pub enum MultisigInstruction {
    CreateMultisig(CreateMultisigInstruction),
    SetOwners(SetOwnersInstruction),
    ChangeThreshold(ChangeThresholdInstruction),
    SetOwnersAndChangeThreshold(SetOwnersAndChangeThresholdInstruction),
    ProposeTransaction(ProposeTransactionInstruction),
    ApproveTransaction(),
    ExecuteTransaction(),
    CancelTransaction(),
}

} // verus!
