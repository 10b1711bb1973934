//! The instruction projector: flattens the transaction's instructions into
//! two parallel arrays — per-instruction descriptors and per-account-reference
//! entries — with every pointer computed against the address map.

use vstd::prelude::*;
use vstd::bytes::{spec_u16_to_le_bytes, spec_u64_to_le_bytes, u16_to_le_bytes, u64_to_le_bytes,
    lemma_auto_spec_u16_to_from_le_bytes, lemma_auto_spec_u64_to_from_le_bytes};
use crate::address_map::{IX_ACC_META_BASE, IX_PAYLOAD_BASE, REGION_SIZE, sat64,
    region_slot_address, lemma_sat64_add};
use crate::guest_slice::{GuestSliceReference, spec_slice_bytes, push_slice_bytes,
    lemma_slice_bytes_len};
use crate::message::{TransactionMessage, accounts_before, lemma_accounts_before_nonneg};

verus! {

/// The wire size in bytes of one guest instruction descriptor.
pub const GUEST_INSTRUCTION_SIZE: u64 = 44;

/// The wire size in bytes of one guest instruction-account entry.
pub const GUEST_INSTRUCTION_ACCOUNT_SIZE: u64 = 4;

/// The sentinel stored in `parent_ix_idx` for a top-level instruction.
pub const NO_PARENT_IX: u16 = 0xFFFF;

/// An instruction as it appears to programs in the virtual machine: fields in
/// declared order, little-endian, 44 bytes on the wire.
#[derive(Clone, Copy, Debug, PartialEq, Eq, Structural)]
pub struct GuestInstruction {
    /// Index of the program account within the transaction's account list.
    pub program_id_idx: u64,
    /// Cross-program invocation depth; zero for every top-level instruction.
    pub cpi_nesting_level: u16,
    /// Index of the invoking instruction, or `NO_PARENT_IX` at top level.
    pub parent_ix_idx: u16,
    /// Where this instruction's account-reference entries live in the guest
    /// address space, and how many there are.
    pub ix_accounts: GuestSliceReference,
    /// Where this instruction's opaque data lives in the guest address space,
    /// and its length.
    pub ix_data: GuestSliceReference,
}

/// One account reference of an instruction: the transaction-account index and
/// the permission flags. Flag bit 0 is set when the account signed; flag bit
/// 1 is set when it is writable; the other bits are zero.
#[derive(Clone, Copy, Debug, PartialEq, Eq, Structural)]
pub struct GuestInstructionAccount {
    /// Index of the referenced account within the transaction's account list.
    pub tx_acc_idx: u16,
    /// Bit 0: signer; bit 1: writable; other bits zero.
    pub flags: u16,
}

/// The flag word encoding a signer bit (bit 0) and a writable bit (bit 1).
pub open spec fn spec_flags(signer: bool, writable: bool) -> u16 {
    ((if signer {
        1u16
    } else {
        0u16
    }) + (if writable {
        2u16
    } else {
        0u16
    })) as u16
}

/// The reference entry projected for the `j`-th account of instruction `i`.
pub open spec fn spec_ref_entry(tx: TransactionMessage, i: int, j: int) -> GuestInstructionAccount {
    let acc = tx.instructions@[i].accounts@[j];
    GuestInstructionAccount {
        tx_acc_idx: acc as u16,
        flags: spec_flags(tx.spec_is_signer(acc as int), tx.spec_is_writable(acc as int)),
    }
}

/// The reference entries projected for instruction `i`, in account order.
pub open spec fn spec_refs_of_instruction(tx: TransactionMessage, i: int) -> Seq<
    GuestInstructionAccount,
> {
    Seq::new(tx.instructions@[i].accounts@.len(), |j: int| spec_ref_entry(tx, i, j))
}

/// The concatenation of the reference entries of the instructions before
/// instruction `i`, in instruction order.
pub open spec fn spec_ref_entries_up_to(tx: TransactionMessage, i: int) -> Seq<
    GuestInstructionAccount,
>
    decreases i,
{
    if i <= 0 {
        Seq::empty()
    } else {
        spec_ref_entries_up_to(tx, i - 1) + spec_refs_of_instruction(tx, i - 1)
    }
}

/// The full account-reference array projected from the message.
pub open spec fn spec_ref_entries(tx: TransactionMessage) -> Seq<GuestInstructionAccount> {
    spec_ref_entries_up_to(tx, tx.instructions@.len() as int)
}

/// The descriptor projected for instruction `i`: the program index, a zero
/// nesting level, the no-parent sentinel, the account-reference slice at
/// `IX_ACC_META_BASE` plus the size of all earlier instructions' entries, and
/// the data slice at the `i`-th payload region.
pub open spec fn spec_descriptor(tx: TransactionMessage, i: int) -> GuestInstruction {
    let instr = tx.instructions@[i];
    GuestInstruction {
        program_id_idx: instr.program_id_index as u64,
        cpi_nesting_level: 0u16,
        parent_ix_idx: NO_PARENT_IX,
        ix_accounts: GuestSliceReference {
            pointer: sat64(
                IX_ACC_META_BASE + GUEST_INSTRUCTION_ACCOUNT_SIZE * accounts_before(
                    tx.instructions@,
                    i,
                ),
            ),
            length: instr.accounts@.len() as u64,
        },
        ix_data: GuestSliceReference {
            pointer: sat64(IX_PAYLOAD_BASE + i * REGION_SIZE),
            length: instr.data@.len() as u64,
        },
    }
}

/// The full descriptor array projected from the message.
pub open spec fn spec_descriptors(tx: TransactionMessage) -> Seq<GuestInstruction> {
    Seq::new(tx.instructions@.len(), |i: int| spec_descriptor(tx, i))
}

/// Every projected descriptor carries its instruction's program index, a
/// zero nesting level and the no-parent sentinel, points its data slice at
/// the instruction's own payload region with the data's length, and points
/// its account slice at `IX_ACC_META_BASE` plus 4 bytes per reference made
/// by earlier instructions, with the instruction's account count as length —
/// every address saturating at the top of the address space.
pub proof fn lemma_descriptor_layout(tx: TransactionMessage, i: int)
    requires
        0 <= i < tx.instructions@.len(),
    ensures
        spec_descriptors(tx)[i].program_id_idx == tx.instructions@[i].program_id_index,
        spec_descriptors(tx)[i].cpi_nesting_level == 0,
        spec_descriptors(tx)[i].parent_ix_idx == NO_PARENT_IX,
        spec_descriptors(tx)[i].ix_data.pointer == sat64(IX_PAYLOAD_BASE + i * REGION_SIZE),
        spec_descriptors(tx)[i].ix_data.length == tx.instructions@[i].data@.len(),
        spec_descriptors(tx)[i].ix_accounts.pointer == sat64(
            IX_ACC_META_BASE + GUEST_INSTRUCTION_ACCOUNT_SIZE * accounts_before(
                tx.instructions@,
                i,
            ),
        ),
        spec_descriptors(tx)[i].ix_accounts.length == tx.instructions@[i].accounts@.len(),
{
    assert(tx.instructions@[i].data.len() == tx.instructions@[i].data@.len());
    assert(tx.instructions@[i].accounts.len() == tx.instructions@[i].accounts@.len());
}

/// The projected reference array is the entry-wise concatenation of the
/// per-instruction reference lists: its length is the total account-reference
/// count, and the entry at `accounts_before(i) + j` describes the `j`-th
/// account of instruction `i` — its index, its signer bit and its writable
/// bit.
pub proof fn lemma_ref_entries_entrywise(tx: TransactionMessage, i: int, j: int)
    requires
        0 <= i < tx.instructions@.len(),
        0 <= j < tx.instructions@[i].accounts@.len(),
    ensures
        spec_ref_entries(tx).len() == accounts_before(tx.instructions@, tx.instructions@.len() as int),
        0 <= accounts_before(tx.instructions@, i) + j < spec_ref_entries(tx).len(),
        spec_ref_entries(tx)[accounts_before(tx.instructions@, i) + j] == spec_ref_entry(tx, i, j),
{
    lemma_accounts_before_nonneg(tx.instructions@, i);
    lemma_ref_entries_up_to_len(tx, tx.instructions@.len() as int);
    lemma_ref_entries_prefix_index(tx, tx.instructions@.len() as int, i, j);
}

/// The length of the concatenated reference entries up to instruction `i` is
/// the prefix sum of the account-list lengths.
pub proof fn lemma_ref_entries_up_to_len(tx: TransactionMessage, i: int)
    ensures
        spec_ref_entries_up_to(tx, i).len() == if i <= 0 {
            0int
        } else {
            accounts_before(tx.instructions@, i)
        },
    decreases i,
{
    if i > 0 {
        lemma_ref_entries_up_to_len(tx, i - 1);
        lemma_accounts_before_nonneg(tx.instructions@, i - 1);
    }
}

proof fn lemma_ref_entries_prefix_index(tx: TransactionMessage, n: int, i: int, j: int)
    requires
        0 <= i < n,
        0 <= j < tx.instructions@[i].accounts@.len(),
    ensures
        0 <= accounts_before(tx.instructions@, i) + j < spec_ref_entries_up_to(tx, n).len(),
        spec_ref_entries_up_to(tx, n)[accounts_before(tx.instructions@, i) + j] == spec_ref_entry(
            tx,
            i,
            j,
        ),
    decreases n,
{
    lemma_accounts_before_nonneg(tx.instructions@, i);
    lemma_ref_entries_up_to_len(tx, n);
    lemma_ref_entries_up_to_len(tx, n - 1);
    if i == n - 1 {
    } else {
        lemma_ref_entries_prefix_index(tx, n - 1, i, j);
    }
}

/// Projects the message into the two parallel arrays: the instruction
/// descriptors and the flattened account-reference entries, in declaration
/// order.
pub fn create_ix_array(tx: &TransactionMessage) -> (r: (
    Vec<GuestInstruction>,
    Vec<GuestInstructionAccount>,
))
    ensures
        r.0@ == spec_descriptors(*tx),
        r.1@ == spec_ref_entries(*tx),
{
    let n = tx.instructions.len();
    let mut final_vec: Vec<GuestInstruction> = Vec::new();
    let mut instr_acc: Vec<GuestInstructionAccount> = Vec::new();
    let mut accounts_addr: u64 = IX_ACC_META_BASE;
    for ix_idx in 0..n
        invariant
            n == tx.instructions@.len(),
            final_vec@ == spec_descriptors(*tx).take(ix_idx as int),
            instr_acc@ == spec_ref_entries_up_to(*tx, ix_idx as int),
            accounts_addr == sat64(
                IX_ACC_META_BASE + GUEST_INSTRUCTION_ACCOUNT_SIZE * accounts_before(
                    tx.instructions@,
                    ix_idx as int,
                ),
            ),
    {
        let instr = &tx.instructions[ix_idx];
        let m = instr.accounts.len();
        for j in 0..m
            invariant
                n == tx.instructions@.len(),
                ix_idx < n,
                m == instr.accounts@.len(),
                instr == tx.instructions@[ix_idx as int],
                instr_acc@ == spec_ref_entries_up_to(*tx, ix_idx as int)
                    + spec_refs_of_instruction(*tx, ix_idx as int).take(j as int),
        {
            let acc = instr.accounts[j];
            let signer = tx.is_signer(acc as usize);
            let writable = tx.is_writable(acc as usize);
            let flags: u16 = (if signer {
                1
            } else {
                0
            }) + (if writable {
                2
            } else {
                0
            });
            instr_acc.push(GuestInstructionAccount { tx_acc_idx: acc as u16, flags });
            proof {
                assert(spec_refs_of_instruction(*tx, ix_idx as int).take(j + 1)
                    =~= spec_refs_of_instruction(*tx, ix_idx as int).take(j as int).push(
                    spec_ref_entry(*tx, ix_idx as int, j as int),
                ));
            }
        }
        let data_addr = region_slot_address(IX_PAYLOAD_BASE, ix_idx);
        final_vec.push(
            GuestInstruction {
                program_id_idx: instr.program_id_index as u64,
                cpi_nesting_level: 0,
                parent_ix_idx: NO_PARENT_IX,
                ix_accounts: GuestSliceReference { pointer: accounts_addr, length: m as u64 },
                ix_data: GuestSliceReference {
                    pointer: data_addr,
                    length: instr.data.len() as u64,
                },
            },
        );
        let step: u64 = match GUEST_INSTRUCTION_ACCOUNT_SIZE.checked_mul(m as u64) {
            Some(s) => s,
            None => u64::MAX,
        };
        proof {
            lemma_accounts_before_nonneg(tx.instructions@, ix_idx as int);
            lemma_sat64_add(
                IX_ACC_META_BASE + GUEST_INSTRUCTION_ACCOUNT_SIZE * accounts_before(
                    tx.instructions@,
                    ix_idx as int,
                ),
                GUEST_INSTRUCTION_ACCOUNT_SIZE * m,
            );
            assert(step == sat64(GUEST_INSTRUCTION_ACCOUNT_SIZE * m));
            assert(final_vec@.last() == spec_descriptor(*tx, ix_idx as int));
            assert(final_vec@ =~= spec_descriptors(*tx).take(ix_idx + 1));
            assert(instr_acc@ =~= spec_ref_entries_up_to(*tx, ix_idx + 1)) by {
                assert(spec_refs_of_instruction(*tx, ix_idx as int).take(m as int)
                    =~= spec_refs_of_instruction(*tx, ix_idx as int));
            }
        }
        accounts_addr = accounts_addr.saturating_add(step);
    }
    proof {
        assert(final_vec@ =~= spec_descriptors(*tx));
    }
    (final_vec, instr_acc)
}

/// The 44 wire bytes of one instruction descriptor: fields in declared order,
/// little-endian, no padding.
pub open spec fn spec_instruction_bytes(g: GuestInstruction) -> Seq<u8> {
    spec_u64_to_le_bytes(g.program_id_idx) + spec_u16_to_le_bytes(g.cpi_nesting_level)
        + spec_u16_to_le_bytes(g.parent_ix_idx) + spec_slice_bytes(g.ix_accounts)
        + spec_slice_bytes(g.ix_data)
}

/// The wire bytes of a descriptor array: the records back to back.
pub open spec fn spec_instructions_bytes(s: Seq<GuestInstruction>) -> Seq<u8>
    decreases s.len(),
{
    if s.len() == 0 {
        Seq::empty()
    } else {
        spec_instructions_bytes(s.drop_last()) + spec_instruction_bytes(s.last())
    }
}

/// The 4 wire bytes of one account-reference entry.
pub open spec fn spec_ix_account_bytes(a: GuestInstructionAccount) -> Seq<u8> {
    spec_u16_to_le_bytes(a.tx_acc_idx) + spec_u16_to_le_bytes(a.flags)
}

/// The wire bytes of an account-reference array: the entries back to back.
pub open spec fn spec_ix_accounts_bytes(s: Seq<GuestInstructionAccount>) -> Seq<u8>
    decreases s.len(),
{
    if s.len() == 0 {
        Seq::empty()
    } else {
        spec_ix_accounts_bytes(s.drop_last()) + spec_ix_account_bytes(s.last())
    }
}

/// A descriptor's wire size is pinned at 44 bytes.
pub proof fn lemma_instruction_bytes_len(g: GuestInstruction)
    ensures
        spec_instruction_bytes(g).len() == GUEST_INSTRUCTION_SIZE,
{
    lemma_auto_spec_u64_to_from_le_bytes();
    lemma_auto_spec_u16_to_from_le_bytes();
    lemma_slice_bytes_len(g.ix_accounts);
    lemma_slice_bytes_len(g.ix_data);
}

/// A descriptor array's wire size is 44 bytes per record.
pub proof fn lemma_instructions_bytes_len(s: Seq<GuestInstruction>)
    ensures
        spec_instructions_bytes(s).len() == GUEST_INSTRUCTION_SIZE * s.len(),
    decreases s.len(),
{
    if s.len() == 0 {
    } else {
        lemma_instructions_bytes_len(s.drop_last());
        lemma_instruction_bytes_len(s.last());
    }
}

/// An account-reference entry's wire size is pinned at 4 bytes.
pub proof fn lemma_ix_account_bytes_len(a: GuestInstructionAccount)
    ensures
        spec_ix_account_bytes(a).len() == GUEST_INSTRUCTION_ACCOUNT_SIZE,
{
    lemma_auto_spec_u16_to_from_le_bytes();
}

/// An account-reference array's wire size is 4 bytes per entry.
pub proof fn lemma_ix_accounts_bytes_len(s: Seq<GuestInstructionAccount>)
    ensures
        spec_ix_accounts_bytes(s).len() == GUEST_INSTRUCTION_ACCOUNT_SIZE * s.len(),
    decreases s.len(),
{
    if s.len() == 0 {
    } else {
        lemma_ix_accounts_bytes_len(s.drop_last());
        lemma_ix_account_bytes_len(s.last());
    }
}

/// Appends the 44 wire bytes of `g` to `out`.
pub fn push_instruction_bytes(out: &mut Vec<u8>, g: &GuestInstruction)
    ensures
        final(out)@ == old(out)@ + spec_instruction_bytes(*g),
{
    let program_bytes = u64_to_le_bytes(g.program_id_idx);
    let nesting_bytes = u16_to_le_bytes(g.cpi_nesting_level);
    let parent_bytes = u16_to_le_bytes(g.parent_ix_idx);
    out.extend_from_slice(program_bytes.as_slice());
    out.extend_from_slice(nesting_bytes.as_slice());
    out.extend_from_slice(parent_bytes.as_slice());
    push_slice_bytes(out, &g.ix_accounts);
    push_slice_bytes(out, &g.ix_data);
    proof {
        assert(out@ =~= old(out)@ + spec_instruction_bytes(*g));
    }
}

/// Serializes a descriptor array to its wire bytes.
pub fn serialize_instructions(v: &Vec<GuestInstruction>) -> (out: Vec<u8>)
    ensures
        out@ == spec_instructions_bytes(v@),
{
    let mut out: Vec<u8> = Vec::new();
    for i in 0..v.len()
        invariant
            out@ == spec_instructions_bytes(v@.take(i as int)),
    {
        push_instruction_bytes(&mut out, &v[i]);
        proof {
            assert(v@.take(i + 1).drop_last() =~= v@.take(i as int));
            assert(v@.take(i + 1).last() == v@[i as int]);
        }
    }
    proof {
        assert(v@.take(v@.len() as int) =~= v@);
    }
    out
}

/// Appends the 4 wire bytes of `a` to `out`.
pub fn push_ix_account_bytes(out: &mut Vec<u8>, a: &GuestInstructionAccount)
    ensures
        final(out)@ == old(out)@ + spec_ix_account_bytes(*a),
{
    let idx_bytes = u16_to_le_bytes(a.tx_acc_idx);
    let flags_bytes = u16_to_le_bytes(a.flags);
    out.extend_from_slice(idx_bytes.as_slice());
    out.extend_from_slice(flags_bytes.as_slice());
    proof {
        assert(out@ =~= old(out)@ + spec_ix_account_bytes(*a));
    }
}

/// Serializes an account-reference array to its wire bytes.
pub fn serialize_ix_accounts(v: &Vec<GuestInstructionAccount>) -> (out: Vec<u8>)
    ensures
        out@ == spec_ix_accounts_bytes(v@),
{
    let mut out: Vec<u8> = Vec::new();
    for i in 0..v.len()
        invariant
            out@ == spec_ix_accounts_bytes(v@.take(i as int)),
    {
        push_ix_account_bytes(&mut out, &v[i]);
        proof {
            assert(v@.take(i + 1).drop_last() =~= v@.take(i as int));
            assert(v@.take(i + 1).last() == v@[i as int]);
        }
    }
    proof {
        assert(v@.take(v@.len() as int) =~= v@);
    }
    out
}

} // verus!
