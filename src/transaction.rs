use vstd::prelude::*;

use crate::key::{Key, KEY_BYTES};

verus! {

/// An account that an instruction refers to, with the access it asks for.
#[derive(Clone, Copy, Debug)]
pub struct TransactionInstructionAccount {
    pub pubkey: Key,
    pub is_signer: bool,
    pub is_writable: bool,
}

/// One instruction of a proposed transaction: the program it is sent to,
/// the accounts it refers to and its opaque payload.
#[derive(Clone, Debug)]
pub struct TransactionInstructionData {
    pub program_id: Key,
    pub accounts: Vec<TransactionInstructionAccount>,
    pub data: Vec<u8>,
}

/// Encoded size of one account reference: key, signer flag, writable flag.
pub const ACCOUNT_REF_BYTES: usize = 34;

impl TransactionInstructionData {
    pub open spec fn spec_len(&self) -> int {
        KEY_BYTES + 4 + ACCOUNT_REF_BYTES * self.accounts@.len() + 4 + self.data@.len()
    }

    pub fn len(&self) -> (r: usize)
        requires
            self.spec_len() <= usize::MAX,
        ensures
            r == self.spec_len(),
    {
        KEY_BYTES + 4 + ACCOUNT_REF_BYTES * self.accounts.len() + 4 + self.data.len()
    }
}

/// Encoded size of all instructions of `ixs`.
pub open spec fn instructions_len(ixs: Seq<TransactionInstructionData>) -> int
    decreases ixs.len(),
{
    if ixs.len() == 0 {
        0
    } else {
        instructions_len(ixs.drop_last()) + ixs.last().spec_len()
    }
}

/// A proposed transaction, waiting for approvals.
///
/// `signers[i]` is true when the owner at position `i` of the multisig, as
/// it stood when the transaction was proposed, has approved it.
#[derive(Clone, Debug)]
pub struct Transaction {
    pub multisig: Key,
    pub instructions: Vec<TransactionInstructionData>,
    pub signers: Vec<bool>,
    pub owner_set_seqno: u32,
}

impl Transaction {
    pub open spec fn spec_len(&self) -> int {
        KEY_BYTES + 4 + instructions_len(self.instructions@) + 4 + self.signers@.len() + 4
    }

    pub fn len(&self) -> (r: usize)
        requires
            self.spec_len() <= usize::MAX,
        ensures
            r == self.spec_len(),
    {
        let ixs = &self.instructions;
        let mut total: usize = 0;
        let mut i: usize = 0;
        proof {
            lemma_instructions_len_prefix(ixs@, ixs@.len() as int);
            assert(ixs@.take(ixs@.len() as int) =~= ixs@);
        }
        while i < ixs.len()
            invariant
                i <= ixs@.len(),
                total == instructions_len(ixs@.take(i as int)),
                instructions_len(ixs@) <= usize::MAX,
            decreases ixs@.len() - i,
        {
            proof {
                lemma_instructions_len_prefix(ixs@, i + 1);
                assert(ixs@.take(i + 1).drop_last() =~= ixs@.take(i as int));
                lemma_instructions_len_nonneg(ixs@.take(i as int));
            }
            total = total + ixs[i].len();
            i = i + 1;
        }
        assert(ixs@.take(i as int) =~= ixs@);
        KEY_BYTES + 4 + total + 4 + self.signers.len() + 4
    }
}

proof fn lemma_instructions_len_nonneg(ixs: Seq<TransactionInstructionData>)
    ensures
        instructions_len(ixs) >= 0,
    decreases ixs.len(),
{
    if ixs.len() > 0 {
        lemma_instructions_len_nonneg(ixs.drop_last());
    }
}

/// A prefix never encodes to more bytes than the whole.
proof fn lemma_instructions_len_prefix(ixs: Seq<TransactionInstructionData>, n: int)
    requires
        0 <= n <= ixs.len(),
    ensures
        instructions_len(ixs.take(n)) <= instructions_len(ixs),
    decreases ixs.len(),
{
    if n < ixs.len() {
        assert(ixs.drop_last().take(n) =~= ixs.take(n));
        lemma_instructions_len_prefix(ixs.drop_last(), n);
    } else {
        assert(ixs.take(n) =~= ixs);
    }
}

} // verus!
