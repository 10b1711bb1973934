//! The read-only view of an incoming transaction that the layout builder
//! consumes: the instruction list, and the signer / writable queries keyed on
//! transaction-account index.

use vstd::prelude::*;

verus! {

/// One compiled instruction of the incoming transaction: the index of its
/// program account, the transaction-account indices it references, and its
/// opaque data payload.
pub struct InstructionInput {
    /// Index of the program account within the transaction's account list.
    pub program_id_index: u8,
    /// Transaction-account indices referenced by this instruction, in order.
    pub accounts: Vec<u8>,
    /// The instruction's opaque data payload.
    pub data: Vec<u8>,
}

/// The transaction message as the layout builder sees it: instructions in
/// declaration order, plus per-transaction-account signer and writable flags.
///
/// An account index at or beyond the flag tables is neither a signer nor
/// writable.
pub struct TransactionMessage {
    /// The instructions, in declaration order.
    pub instructions: Vec<InstructionInput>,
    /// `signer_flags[i]` holds exactly when transaction account `i` signed.
    pub signer_flags: Vec<bool>,
    /// `writable_flags[i]` holds exactly when transaction account `i` may be
    /// written.
    pub writable_flags: Vec<bool>,
}

impl TransactionMessage {
    /// Whether transaction account `i` signed the transaction.
    pub open spec fn spec_is_signer(self, i: int) -> bool {
        0 <= i < self.signer_flags@.len() && self.signer_flags@[i]
    }

    /// Whether transaction account `i` is writable.
    pub open spec fn spec_is_writable(self, i: int) -> bool {
        0 <= i < self.writable_flags@.len() && self.writable_flags@[i]
    }

    /// The number of instructions in the message.
    pub fn num_instructions(&self) -> (n: usize)
        ensures
            n == self.instructions@.len(),
    {
        self.instructions.len()
    }

    /// Whether transaction account `index` signed the transaction.
    pub fn is_signer(&self, index: usize) -> (r: bool)
        ensures
            r == self.spec_is_signer(index as int),
    {
        index < self.signer_flags.len() && self.signer_flags[index]
    }

    /// Whether transaction account `index` is writable.
    pub fn is_writable(&self, index: usize) -> (r: bool)
        ensures
            r == self.spec_is_writable(index as int),
    {
        index < self.writable_flags.len() && self.writable_flags[index]
    }
}

/// The number of account references made by the instructions before
/// instruction `i`, i.e. the prefix sum of the instructions' account-list
/// lengths.
pub open spec fn accounts_before(instructions: Seq<InstructionInput>, i: int) -> int
    decreases i,
{
    if i <= 0 {
        0
    } else {
        accounts_before(instructions, i - 1) + instructions[i - 1].accounts@.len()
    }
}

/// Every prefix sum of account references is non-negative.
pub proof fn lemma_accounts_before_nonneg(instructions: Seq<InstructionInput>, i: int)
    ensures
        accounts_before(instructions, i) >= 0,
    decreases i,
{
    if i > 0 {
        lemma_accounts_before_nonneg(instructions, i - 1);
    }
}

} // verus!
