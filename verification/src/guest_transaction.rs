//! The transaction context builder and region assembler: projects a
//! transaction and its loaded accounts into one contiguous guest-visible
//! byte buffer (the context record followed by the account-descriptor
//! table), the two instruction arrays, and the payload regions handed to the
//! sandbox before each instruction dispatch.

use vstd::prelude::*;
use vstd::bytes::{spec_u64_to_le_bytes, u64_to_le_bytes, lemma_auto_spec_u64_to_from_le_bytes};
use vstd::slice::slice_to_vec;
use solana_sbpf::memory_region::MemoryRegion;
use crate::address_map::{ACCOUNTS_BASE, IX_ACC_META_BASE, IX_META_BASE, IX_PAYLOAD_BASE,
    REGION_SIZE, RETURN_DATA_BASE, TX_CTX_BASE, sat64, region_slot_address};
use crate::guest_instruction::{GuestInstruction, GuestInstructionAccount, GUEST_INSTRUCTION_SIZE,
    GUEST_INSTRUCTION_ACCOUNT_SIZE, create_ix_array, serialize_instructions, serialize_ix_accounts,
    spec_descriptors, spec_ref_entries, spec_instructions_bytes,
    spec_ix_accounts_bytes, lemma_instructions_bytes_len, lemma_ix_accounts_bytes_len,
    lemma_ref_entries_up_to_len};
use crate::guest_slice::{GuestSliceReference, spec_slice_bytes, push_slice_bytes,
    lemma_slice_bytes_len};
use crate::message::{TransactionMessage, accounts_before, lemma_accounts_before_nonneg};
use crate::regions::{region_readonly, region_writable, spec_flag_writable, spec_unique_accounts,
    spec_any_writable, lemma_unique_accounts_props, lemma_unique_accounts_step};
use crate::transaction_accounts::{Pubkey, TransactionAccount};

verus! {

broadcast use vstd::array::group_array_axioms;

/// The wire size in bytes of the guest transaction context record.
pub const GUEST_TRANSACTION_CONTEXT_SIZE: u64 = 88;

/// The wire size in bytes of one guest transaction-account descriptor.
pub const GUEST_TRANSACTION_ACCOUNT_SIZE: u64 = 88;

/// The byte offset of `instruction_idx` within the context record.
pub const INSTRUCTION_IDX_OFFSET: u64 = 64;

/// The feature switches this builder consults.
pub struct SVMFeatureSet {
    /// Whether the fixed guest transaction layout is built at all.
    pub enable_abi_v2_programs: bool,
}

/// The return-data scratchpad embedded in the context: the key of the last
/// program that wrote it, and where the data lives in the guest.
#[derive(Clone, Copy, Debug)]
pub struct ReturnDataScratchpad {
    /// The key of the last program to write the scratchpad.
    pub pubkey: Pubkey,
    /// Where the return data lives in the guest address space.
    pub slice: GuestSliceReference,
}

/// The single guest transaction context record, at the start of the
/// transaction region; `accounts_no` account descriptors follow it
/// immediately.
#[derive(Clone, Copy, Debug)]
pub struct GuestTransactionContext {
    /// The return-data scratchpad.
    pub return_data_scratchpad: ReturnDataScratchpad,
    /// The reserved cross-program-invocation scratchpad slice.
    pub cpi_scratchpad: GuestSliceReference,
    /// The index of the currently executing instruction.
    pub instruction_idx: u64,
    /// The number of instructions in the transaction.
    pub instruction_num: u64,
    /// The number of accounts in the transaction.
    pub accounts_no: u64,
}

/// One account descriptor as the guest sees it: key, owner, balance, and
/// where the payload lives in the guest address space.
#[derive(Clone, Copy, Debug)]
pub struct GuestTransactionAccount {
    /// The account's address.
    pub pubkey: Pubkey,
    /// The owning program's address.
    pub owner: Pubkey,
    /// The balance in lamports.
    pub lamports: u64,
    /// Where the payload lives in the guest address space, and its length.
    pub data: GuestSliceReference,
}

/// The 88 wire bytes of the context record: fields in declared order,
/// little-endian.
pub open spec fn spec_context_bytes(c: GuestTransactionContext) -> Seq<u8> {
    c.return_data_scratchpad.pubkey@ + spec_slice_bytes(c.return_data_scratchpad.slice)
        + spec_slice_bytes(c.cpi_scratchpad) + spec_u64_to_le_bytes(c.instruction_idx)
        + spec_u64_to_le_bytes(c.instruction_num) + spec_u64_to_le_bytes(c.accounts_no)
}

/// The 88 wire bytes of one account descriptor.
pub open spec fn spec_account_desc_bytes(a: GuestTransactionAccount) -> Seq<u8> {
    a.pubkey@ + a.owner@ + spec_u64_to_le_bytes(a.lamports) + spec_slice_bytes(a.data)
}

/// The wire bytes of the descriptor table: the records back to back.
pub open spec fn spec_account_descs_bytes(s: Seq<GuestTransactionAccount>) -> Seq<u8>
    decreases s.len(),
{
    if s.len() == 0 {
        Seq::empty()
    } else {
        spec_account_descs_bytes(s.drop_last()) + spec_account_desc_bytes(s.last())
    }
}

/// The context record's wire size is pinned at 88 bytes.
pub proof fn lemma_context_bytes_len(c: GuestTransactionContext)
    ensures
        spec_context_bytes(c).len() == GUEST_TRANSACTION_CONTEXT_SIZE,
{
    lemma_auto_spec_u64_to_from_le_bytes();
    lemma_slice_bytes_len(c.return_data_scratchpad.slice);
    lemma_slice_bytes_len(c.cpi_scratchpad);
}

/// An account descriptor's wire size is pinned at 88 bytes.
pub proof fn lemma_account_desc_bytes_len(a: GuestTransactionAccount)
    ensures
        spec_account_desc_bytes(a).len() == GUEST_TRANSACTION_ACCOUNT_SIZE,
{
    lemma_auto_spec_u64_to_from_le_bytes();
    lemma_slice_bytes_len(a.data);
}

/// The descriptor table's wire size is 88 bytes per account.
pub proof fn lemma_account_descs_bytes_len(s: Seq<GuestTransactionAccount>)
    ensures
        spec_account_descs_bytes(s).len() == GUEST_TRANSACTION_ACCOUNT_SIZE * s.len(),
    decreases s.len(),
{
    if s.len() == 0 {
    } else {
        lemma_account_descs_bytes_len(s.drop_last());
        lemma_account_desc_bytes_len(s.last());
    }
}

/// Appends the 88 wire bytes of the context record to `out`.
fn push_context_bytes(out: &mut Vec<u8>, c: &GuestTransactionContext)
    ensures
        final(out)@ == old(out)@ + spec_context_bytes(*c),
{
    out.extend_from_slice(c.return_data_scratchpad.pubkey.as_slice());
    push_slice_bytes(out, &c.return_data_scratchpad.slice);
    push_slice_bytes(out, &c.cpi_scratchpad);
    let idx_bytes = u64_to_le_bytes(c.instruction_idx);
    let num_bytes = u64_to_le_bytes(c.instruction_num);
    let accounts_bytes = u64_to_le_bytes(c.accounts_no);
    out.extend_from_slice(idx_bytes.as_slice());
    out.extend_from_slice(num_bytes.as_slice());
    out.extend_from_slice(accounts_bytes.as_slice());
    proof {
        assert(out@ =~= old(out)@ + spec_context_bytes(*c));
    }
}

/// Appends the 88 wire bytes of one account descriptor to `out`.
fn push_account_desc_bytes(out: &mut Vec<u8>, a: &GuestTransactionAccount)
    ensures
        final(out)@ == old(out)@ + spec_account_desc_bytes(*a),
{
    out.extend_from_slice(a.pubkey.as_slice());
    out.extend_from_slice(a.owner.as_slice());
    let lamports_bytes = u64_to_le_bytes(a.lamports);
    out.extend_from_slice(lamports_bytes.as_slice());
    push_slice_bytes(out, &a.data);
    proof {
        assert(out@ =~= old(out)@ + spec_account_desc_bytes(*a));
    }
}

/// The context a fresh build writes: a zero scratchpad key, the return-data
/// slice at its base with length zero, the cross-program scratchpad directly
/// after the last instruction's payload region with length zero, instruction
/// index zero, and the transaction's instruction and account counts.
pub open spec fn is_initial_context(
    c: GuestTransactionContext,
    num_instructions: int,
    accounts_no: int,
) -> bool {
    &&& c.return_data_scratchpad.pubkey@ == Seq::new(32, |i: int| 0u8)
    &&& c.return_data_scratchpad.slice == (GuestSliceReference {
        pointer: RETURN_DATA_BASE,
        length: 0,
    })
    &&& c.cpi_scratchpad == (GuestSliceReference {
        pointer: sat64(IX_PAYLOAD_BASE + num_instructions * REGION_SIZE),
        length: 0,
    })
    &&& c.instruction_idx == 0
    &&& c.instruction_num == num_instructions
    &&& c.accounts_no == accounts_no
}

/// The number of account references made by the descriptors before
/// descriptor `i`, read off the descriptors' own slice lengths.
pub open spec fn refs_before(descs: Seq<GuestInstruction>, i: int) -> int
    decreases i,
{
    if i <= 0 {
        0
    } else {
        refs_before(descs, i - 1) + descs[i - 1].ix_accounts.length
    }
}

/// The descriptor-counted prefix sums never decrease.
pub proof fn lemma_refs_before_monotonic(descs: Seq<GuestInstruction>, i: int, j: int)
    requires
        0 <= i <= j,
    ensures
        refs_before(descs, i) <= refs_before(descs, j),
    decreases j - i,
{
    if i < j {
        lemma_refs_before_monotonic(descs, i, j - 1);
    }
}

/// On projected descriptors, the descriptor-counted prefix sums agree with
/// the message's own.
pub proof fn lemma_refs_before_of_projection(tx: TransactionMessage, i: int)
    requires
        0 <= i <= tx.instructions@.len(),
    ensures
        refs_before(spec_descriptors(tx), i) == accounts_before(tx.instructions@, i),
    decreases i,
{
    if i > 0 {
        lemma_refs_before_of_projection(tx, i - 1);
        assert(tx.instructions@[i - 1].accounts.len() == tx.instructions@[i - 1].accounts@.len());
        assert(spec_descriptors(tx)[i - 1] == crate::guest_instruction::spec_descriptor(tx, i - 1));
    }
}

/// The fixed transaction layout, built once per transaction: the context
/// buffer with the descriptor table behind it, the two instruction arrays
/// with their wire images, the retained account payloads, and the
/// per-instruction payload copies. After the build, only `instruction_idx`
/// ever changes.
pub struct RuntimeGuestTransaction {
    tx_raw_metadata: Vec<u8>,
    context: GuestTransactionContext,
    account_descriptors: Vec<GuestTransactionAccount>,
    ix_metadata: Vec<GuestInstruction>,
    ix_accounts: Vec<GuestInstructionAccount>,
    ix_metadata_bytes: Vec<u8>,
    ix_accounts_bytes: Vec<u8>,
    account_data: Vec<Vec<u8>>,
    ix_payloads: Vec<Vec<u8>>,
}

impl RuntimeGuestTransaction {
    /// The logical context record.
    pub closed spec fn spec_context(&self) -> GuestTransactionContext {
        self.context
    }

    /// The raw bytes of the context buffer.
    pub closed spec fn spec_bytes(&self) -> Seq<u8> {
        self.tx_raw_metadata@
    }

    /// The account-descriptor table.
    pub closed spec fn spec_account_descriptors(&self) -> Seq<GuestTransactionAccount> {
        self.account_descriptors@
    }

    /// The instruction-descriptor array.
    pub closed spec fn spec_ix_metadata(&self) -> Seq<GuestInstruction> {
        self.ix_metadata@
    }

    /// The account-reference array.
    pub closed spec fn spec_ix_accounts(&self) -> Seq<GuestInstructionAccount> {
        self.ix_accounts@
    }

    /// The wire image of the instruction-descriptor array.
    pub closed spec fn spec_ix_metadata_wire(&self) -> Seq<u8> {
        self.ix_metadata_bytes@
    }

    /// The wire image of the account-reference array.
    pub closed spec fn spec_ix_accounts_wire(&self) -> Seq<u8> {
        self.ix_accounts_bytes@
    }

    /// The retained per-account payload buffers.
    pub closed spec fn spec_account_data(&self) -> Seq<Seq<u8>> {
        Seq::new(self.account_data@.len(), |k: int| self.account_data@[k]@)
    }

    /// The per-instruction payload copies.
    pub closed spec fn spec_ix_payloads(&self) -> Seq<Seq<u8>> {
        Seq::new(self.ix_payloads@.len(), |i: int| self.ix_payloads@[i]@)
    }

    /// What holds of every built layout: the buffer is the context record
    /// followed by the descriptor table; the wire images match the
    /// instruction arrays; the counts in the context match the arrays; each
    /// account descriptor points at its own payload region with the
    /// payload's length; and the descriptors' account-reference slices
    /// partition the reference array in order.
    pub open spec fn wf(&self) -> bool {
        &&& self.spec_bytes() == spec_context_bytes(self.spec_context())
            + spec_account_descs_bytes(self.spec_account_descriptors())
        &&& self.spec_context().instruction_num == self.spec_ix_metadata().len()
        &&& self.spec_context().accounts_no == self.spec_account_descriptors().len()
        &&& self.spec_account_data().len() == self.spec_account_descriptors().len()
        &&& self.spec_ix_payloads().len() == self.spec_ix_metadata().len()
        &&& forall|k: int|
            0 <= k < self.spec_account_descriptors().len() ==> {
                &&& (#[trigger] self.spec_account_descriptors()[k]).data.pointer == sat64(
                    ACCOUNTS_BASE + k * REGION_SIZE,
                )
                &&& self.spec_account_descriptors()[k].data.length == self.spec_account_data()[
                    k
                ].len()
            }
        &&& refs_before(self.spec_ix_metadata(), self.spec_ix_metadata().len() as int)
            == self.spec_ix_accounts().len()
        &&& forall|i: int|
            0 <= i < self.spec_ix_metadata().len() ==> (
            #[trigger] self.spec_ix_metadata()[i]).ix_accounts.pointer == sat64(
                IX_ACC_META_BASE + GUEST_INSTRUCTION_ACCOUNT_SIZE * refs_before(
                    self.spec_ix_metadata(),
                    i,
                ),
            )
        &&& self.spec_ix_metadata_wire() == spec_instructions_bytes(self.spec_ix_metadata())
        &&& self.spec_ix_accounts_wire() == spec_ix_accounts_bytes(self.spec_ix_accounts())
    }

    /// What a fresh build holds for the given inputs: the initial context,
    /// one descriptor per loaded account carrying its key, owner and balance
    /// and pointing at the account's payload region, the projected
    /// instruction arrays, and a retained copy of every payload.
    pub open spec fn built_from(
        &self,
        accounts: Seq<TransactionAccount>,
        message: TransactionMessage,
    ) -> bool {
        &&& is_initial_context(
            self.spec_context(),
            message.instructions@.len() as int,
            accounts.len() as int,
        )
        &&& self.spec_account_descriptors().len() == accounts.len()
        &&& forall|k: int|
            0 <= k < accounts.len() ==> {
                &&& (#[trigger] self.spec_account_descriptors()[k]).pubkey == accounts[k].0
                &&& self.spec_account_descriptors()[k].owner == accounts[k].1.owner
                &&& self.spec_account_descriptors()[k].lamports == accounts[k].1.lamports
                &&& self.spec_account_descriptors()[k].data.pointer == sat64(
                    ACCOUNTS_BASE + k * REGION_SIZE,
                )
                &&& self.spec_account_descriptors()[k].data.length == accounts[k].1.data@.len()
            }
        &&& self.spec_ix_metadata() == spec_descriptors(message)
        &&& self.spec_ix_accounts() == spec_ref_entries(message)
        &&& self.spec_account_data().len() == accounts.len()
        &&& forall|k: int|
            0 <= k < accounts.len() ==> (#[trigger] self.spec_account_data()[k]) == accounts[
                k
            ].1.data@
        &&& self.spec_ix_payloads().len() == message.instructions@.len()
        &&& forall|i: int|
            0 <= i < message.instructions@.len() ==> (#[trigger] self.spec_ix_payloads()[i])
                == message.instructions@[i].data@
    }

    /// Builds the layout when the feature switch allows it, and nothing
    /// otherwise.
    pub fn new_with_feature_set(
        transaction_accounts: &Vec<TransactionAccount>,
        message: &TransactionMessage,
        feature_set: &SVMFeatureSet,
    ) -> (r: Option<RuntimeGuestTransaction>)
        ensures
            feature_set.enable_abi_v2_programs ==> ({
                &&& r matches Some(t)
                &&& t.wf()
                &&& t.built_from(transaction_accounts@, *message)
            }),
            !feature_set.enable_abi_v2_programs ==> r is None,
    {
        if feature_set.enable_abi_v2_programs {
            return Some(Self::new(transaction_accounts, message));
        }
        None
    }

    /// Builds the fixed layout for a transaction: serializes the initial
    /// context and the account-descriptor table into one buffer, projects
    /// the instruction arrays and their wire images, and retains a copy of
    /// every account and instruction payload.
    pub fn new(
        transaction_accounts: &Vec<TransactionAccount>,
        message: &TransactionMessage,
    ) -> (r: RuntimeGuestTransaction)
        ensures
            r.wf(),
            r.built_from(transaction_accounts@, *message),
    {
        let n_accounts = transaction_accounts.len();
        let num_ix = message.num_instructions();
        let cpi_pointer = region_slot_address(IX_PAYLOAD_BASE, num_ix);
        let context = GuestTransactionContext {
            return_data_scratchpad: ReturnDataScratchpad {
                pubkey: [0u8; 32],
                slice: GuestSliceReference { pointer: RETURN_DATA_BASE, length: 0 },
            },
            cpi_scratchpad: GuestSliceReference { pointer: cpi_pointer, length: 0 },
            instruction_idx: 0,
            instruction_num: num_ix as u64,
            accounts_no: n_accounts as u64,
        };
        proof {
            assert(context.return_data_scratchpad.pubkey@ =~= Seq::new(32, |i: int| 0u8));
        }
        let mut buffer: Vec<u8> = Vec::new();
        push_context_bytes(&mut buffer, &context);
        let mut account_descriptors: Vec<GuestTransactionAccount> = Vec::new();
        let mut account_data: Vec<Vec<u8>> = Vec::new();
        for k in 0..n_accounts
            invariant
                n_accounts == transaction_accounts@.len(),
                account_descriptors@.len() == k,
                account_data@.len() == k,
                buffer@ == spec_context_bytes(context) + spec_account_descs_bytes(
                    account_descriptors@,
                ),
                forall|i: int| 0 <= i < k ==> {
                    &&& (#[trigger] account_descriptors@[i]).pubkey == transaction_accounts@[i].0
                    &&& account_descriptors@[i].owner == transaction_accounts@[i].1.owner
                    &&& account_descriptors@[i].lamports == transaction_accounts@[i].1.lamports
                    &&& account_descriptors@[i].data.pointer == sat64(
                        ACCOUNTS_BASE + i * REGION_SIZE,
                    )
                    &&& account_descriptors@[i].data.length == transaction_accounts@[i].1.data@.len()
                },
                forall|i: int|
                    0 <= i < k ==> (#[trigger] account_data@[i])@ == transaction_accounts@[i].1.data@,
        {
            let ghost prev_descs = account_descriptors@;
            let item = &transaction_accounts[k];
            let data_pointer = region_slot_address(ACCOUNTS_BASE, k);
            let desc = GuestTransactionAccount {
                pubkey: item.0,
                owner: item.1.owner,
                lamports: item.1.lamports,
                data: GuestSliceReference {
                    pointer: data_pointer,
                    length: item.1.data.len() as u64,
                },
            };
            push_account_desc_bytes(&mut buffer, &desc);
            account_descriptors.push(desc);
            account_data.push(slice_to_vec(item.1.data.as_slice()));
            proof {
                assert(account_descriptors@.drop_last() =~= prev_descs);
                assert(account_descriptors@.last() == desc);
            }
        }
        let (ix_metadata, ix_accounts) = create_ix_array(message);
        let ix_metadata_bytes = serialize_instructions(&ix_metadata);
        let ix_accounts_bytes = serialize_ix_accounts(&ix_accounts);
        let mut ix_payloads: Vec<Vec<u8>> = Vec::new();
        for i in 0..num_ix
            invariant
                num_ix == message.instructions@.len(),
                ix_payloads@.len() == i,
                forall|j: int|
                    0 <= j < i ==> (#[trigger] ix_payloads@[j])@ == message.instructions@[j].data@,
        {
            ix_payloads.push(slice_to_vec(message.instructions[i].data.as_slice()));
        }
        let r = RuntimeGuestTransaction {
            tx_raw_metadata: buffer,
            context,
            account_descriptors,
            ix_metadata,
            ix_accounts,
            ix_metadata_bytes,
            ix_accounts_bytes,
            account_data,
            ix_payloads,
        };
        proof {
            lemma_ref_entries_up_to_len(*message, message.instructions@.len() as int);
            assert forall|i: int| 0 <= i <= message.instructions@.len() implies refs_before(
                r.spec_ix_metadata(),
                i,
            ) == accounts_before(message.instructions@, i) by {
                lemma_refs_before_of_projection(*message, i);
            }
            lemma_accounts_before_nonneg(
                message.instructions@,
                message.instructions@.len() as int,
            );
        }
        r
    }

    /// The account-reference entries of the currently selected instruction:
    /// the slice of the reference array that the current descriptor's
    /// `ix_accounts` field delimits.
    pub open spec fn spec_current_refs(&self) -> Seq<GuestInstructionAccount>
        recommends
            self.wf(),
            self.spec_context().instruction_idx < self.spec_ix_metadata().len(),
    {
        let descs = self.spec_ix_metadata();
        let cur = self.spec_context().instruction_idx as int;
        let start = refs_before(descs, cur);
        self.spec_ix_accounts().subrange(start, start + descs[cur].ix_accounts.length)
    }

    /// The logical context record, as currently serialized in the buffer.
    pub fn context(&self) -> (c: GuestTransactionContext)
        ensures
            c == self.spec_context(),
    {
        self.context
    }

    /// The `k`-th account descriptor of the table.
    pub fn account_descriptor(&self, k: usize) -> (d: GuestTransactionAccount)
        requires
            k < self.spec_account_descriptors().len(),
        ensures
            d == self.spec_account_descriptors()[k as int],
    {
        self.account_descriptors[k]
    }

    /// The instruction descriptor selected by the context's current
    /// instruction index.
    pub fn retrieve_instruction(&self) -> (r: &GuestInstruction)
        requires
            self.wf(),
            self.spec_context().instruction_idx < self.spec_ix_metadata().len(),
        ensures
            *r == self.spec_ix_metadata()[self.spec_context().instruction_idx as int],
    {
        let n = self.ix_metadata.len();
        let ix_idx = self.context.instruction_idx;
        proof {
            assert(ix_idx < n);
        }
        &self.ix_metadata[ix_idx as usize]
    }

    /// The raw context buffer: the context record followed by the
    /// account-descriptor table.
    pub fn as_slice(&self) -> (r: &[u8])
        ensures
            r@ == self.spec_bytes(),
    {
        self.tx_raw_metadata.as_slice()
    }

    /// Selects the instruction about to be dispatched: the context's
    /// `instruction_idx` becomes `index`, the eight bytes recording it in
    /// the buffer are rewritten, and every other byte and component stays as
    /// it was.
    pub fn set_instruction_index(&mut self, index: usize)
        requires
            old(self).wf(),
        ensures
            final(self).wf(),
            final(self).spec_context() == (GuestTransactionContext {
                instruction_idx: index as u64,
                ..old(self).spec_context()
            }),
            final(self).spec_bytes() == old(self).spec_bytes().subrange(
                0,
                INSTRUCTION_IDX_OFFSET as int,
            ) + spec_u64_to_le_bytes(index as u64) + old(self).spec_bytes().subrange(
                INSTRUCTION_IDX_OFFSET as int + 8,
                old(self).spec_bytes().len() as int,
            ),
            final(self).spec_account_descriptors() == old(self).spec_account_descriptors(),
            final(self).spec_ix_metadata() == old(self).spec_ix_metadata(),
            final(self).spec_ix_accounts() == old(self).spec_ix_accounts(),
            final(self).spec_account_data() == old(self).spec_account_data(),
            final(self).spec_ix_payloads() == old(self).spec_ix_payloads(),
    {
        proof {
            let old_ctx = old(self).spec_context();
            lemma_context_bytes_len(old_ctx);
            lemma_account_descs_bytes_len(self.account_descriptors@);
            lemma_auto_spec_u64_to_from_le_bytes();
            lemma_slice_bytes_len(old_ctx.return_data_scratchpad.slice);
            lemma_slice_bytes_len(old_ctx.cpi_scratchpad);
        }
        self.context.instruction_idx = index as u64;
        let idx_bytes = u64_to_le_bytes(index as u64);
        let mut tail = self.tx_raw_metadata.split_off(72);
        self.tx_raw_metadata.truncate(64);
        self.tx_raw_metadata.extend_from_slice(idx_bytes.as_slice());
        self.tx_raw_metadata.append(&mut tail);
        proof {
            let old_ctx = old(self).spec_context();
            let new_ctx = self.context;
            lemma_context_bytes_len(new_ctx);
            assert(self.tx_raw_metadata@ =~= old(self).spec_bytes().subrange(0, 64)
                + spec_u64_to_le_bytes(index as u64) + old(self).spec_bytes().subrange(
                72,
                old(self).spec_bytes().len() as int,
            ));
            assert(self.tx_raw_metadata@ =~= spec_context_bytes(new_ctx)
                + spec_account_descs_bytes(self.account_descriptors@));
        }
    }

    /// Emits, in order, the regions the sandbox installs before dispatching
    /// the current instruction: the context buffer read-only at its base,
    /// the two instruction arrays read-only at theirs, one region per
    /// distinct account the instruction references — in first-appearance
    /// order, writable exactly when some reference to it carries the
    /// writable bit — and finally every instruction's payload region,
    /// read-only, in instruction order. The layout itself is unchanged:
    /// writable regions alias the retained payload buffers.
    ///
    /// The structural invariant that every referenced account index is in
    /// range is the caller's to establish, as the transaction validator
    /// does.
    #[verifier::rlimit(30)]
    pub fn prepare_regions(&mut self) -> (r: Vec<MemoryRegion>)
        requires
            old(self).wf(),
            old(self).spec_context().instruction_idx < old(self).spec_ix_metadata().len(),
            forall|q: int|
                0 <= q < old(self).spec_current_refs().len() ==> (#[trigger] old(
                    self,
                ).spec_current_refs()[q]).tx_acc_idx < old(self).spec_account_descriptors().len(),
        ensures
            final(self).wf(),
            final(self).spec_context() == old(self).spec_context(),
            final(self).spec_bytes() == old(self).spec_bytes(),
            final(self).spec_account_descriptors() == old(self).spec_account_descriptors(),
            final(self).spec_ix_metadata() == old(self).spec_ix_metadata(),
            final(self).spec_ix_accounts() == old(self).spec_ix_accounts(),
            final(self).spec_ix_metadata_wire() == old(self).spec_ix_metadata_wire(),
            final(self).spec_ix_accounts_wire() == old(self).spec_ix_accounts_wire(),
            final(self).spec_account_data() == old(self).spec_account_data(),
            final(self).spec_ix_payloads() == old(self).spec_ix_payloads(),
            r@.len() == 3 + spec_unique_accounts(old(self).spec_current_refs()).len() + old(
                self,
            ).spec_ix_metadata().len(),
            r@[0].vm_addr == TX_CTX_BASE && r@[0].len == old(self).spec_bytes().len() && !r@[0].writable,
            r@[1].vm_addr == IX_META_BASE && r@[1].len == GUEST_INSTRUCTION_SIZE * old(
                self,
            ).spec_ix_metadata().len() && !r@[1].writable,
            r@[2].vm_addr == IX_ACC_META_BASE && r@[2].len == GUEST_INSTRUCTION_ACCOUNT_SIZE * old(
                self,
            ).spec_ix_accounts().len() && !r@[2].writable,
            forall|u: int|
                0 <= u < spec_unique_accounts(old(self).spec_current_refs()).len() ==> {
                    let a = #[trigger] spec_unique_accounts(old(self).spec_current_refs())[u];
                    &&& r@[3 + u].vm_addr == sat64(ACCOUNTS_BASE + a * REGION_SIZE)
                    &&& r@[3 + u].len == old(self).spec_account_data()[a as int].len()
                    &&& r@[3 + u].writable == spec_any_writable(old(self).spec_current_refs(), a)
                },
            forall|i: int|
                0 <= i < old(self).spec_ix_metadata().len() ==> {
                    let offset = 3 + spec_unique_accounts(old(self).spec_current_refs()).len();
                    &&& r@[offset + i].vm_addr == sat64(IX_PAYLOAD_BASE + i * REGION_SIZE)
                    &&& r@[offset + i].len == (#[trigger] old(self).spec_ix_payloads()[i]).len()
                    &&& !r@[offset + i].writable
                },
    {
        let ghost cur_refs = self.spec_current_refs();
        let cur = self.context.instruction_idx;
        let n_ix = self.ix_metadata.len();
        let total_refs = self.ix_accounts.len();
        let cur_idx = cur as usize;
        let mut start: usize = 0;
        for j in 0..cur_idx
            invariant
                self == old(self),
                old(self).wf(),
                cur_idx < n_ix,
                n_ix == self.spec_ix_metadata().len(),
                total_refs == self.spec_ix_accounts().len(),
                start == refs_before(self.spec_ix_metadata(), j as int),
                start <= total_refs,
        {
            proof {
                lemma_refs_before_monotonic(self.spec_ix_metadata(), 0, j as int);
                lemma_refs_before_monotonic(self.spec_ix_metadata(), j as int + 1, n_ix as int);
            }
            let len_j = self.ix_metadata[j].ix_accounts.length;
            start = start + (len_j as usize);
        }
        let m64 = self.ix_metadata[cur_idx].ix_accounts.length;
        proof {
            lemma_refs_before_monotonic(self.spec_ix_metadata(), 0, cur_idx as int);
            lemma_refs_before_monotonic(self.spec_ix_metadata(), cur_idx as int + 1, n_ix as int);
            assert(start as int + m64 == refs_before(self.spec_ix_metadata(), cur_idx as int + 1));
            assert(cur_refs =~= self.spec_ix_accounts().subrange(
                start as int,
                start as int + m64,
            ));
        }
        let m = m64 as usize;
        let mut uniq: Vec<u16> = Vec::new();
        let mut writ: Vec<bool> = Vec::new();
        for p in 0..m
            invariant
                self == old(self),
                old(self).wf(),
                start + m <= total_refs,
                total_refs == self.spec_ix_accounts().len(),
                cur_refs == self.spec_ix_accounts().subrange(start as int, start as int + m),
                cur_refs.len() == m,
                uniq@ == spec_unique_accounts(cur_refs.take(p as int)),
                writ@.len() == uniq@.len(),
                forall|u: int|
                    0 <= u < writ@.len() ==> writ@[u] == spec_any_writable(
                        cur_refs.take(p as int),
                        (#[trigger] uniq@[u]),
                    ),
        {
            let e = self.ix_accounts[start + p];
            let w = e.flags & 2 == 2;
            proof {
                assert(cur_refs[p as int] == e);
                lemma_unique_accounts_step(cur_refs, p as int);
                lemma_unique_accounts_props(cur_refs.take(p as int));
            }
            let mut found: bool = false;
            let mut pos: usize = 0;
            for q in 0..uniq.len()
                invariant
                    found ==> pos < uniq@.len() && uniq@[pos as int] == e.tx_acc_idx,
                    !found ==> forall|t: int| 0 <= t < q ==> uniq@[t] != e.tx_acc_idx,
            {
                if uniq[q] == e.tx_acc_idx {
                    found = true;
                    pos = q;
                }
            }
            if found {
                proof {
                    assert(uniq@.contains(e.tx_acc_idx));
                    assert forall|u: int|
                        0 <= u < writ@.len() && u != pos implies uniq@[u] != e.tx_acc_idx by {
                        lemma_unique_accounts_props(cur_refs.take(p as int));
                    }
                }
                let updated = writ[pos] || w;
                writ[pos] = updated;
            } else {
                proof {
                    assert(!uniq@.contains(e.tx_acc_idx));
                    assert(!spec_any_writable(cur_refs.take(p as int), e.tx_acc_idx)) by {
                        if spec_any_writable(cur_refs.take(p as int), e.tx_acc_idx) {
                            let q = choose|q: int|
                                0 <= q < cur_refs.take(p as int).len() && (#[trigger] cur_refs.take(
                                    p as int,
                                )[q]).tx_acc_idx == e.tx_acc_idx && spec_flag_writable(
                                    cur_refs.take(p as int)[q].flags,
                                );
                            assert(uniq@.contains(e.tx_acc_idx));
                        }
                    }
                }
                uniq.push(e.tx_acc_idx);
                writ.push(w);
            }
        }
        proof {
            assert(cur_refs.take(m as int) =~= cur_refs);
            lemma_unique_accounts_props(cur_refs);
        }
        let mut regions: Vec<MemoryRegion> = Vec::new();
        regions.push(region_readonly(self.tx_raw_metadata.as_slice(), TX_CTX_BASE));
        regions.push(region_readonly(self.ix_metadata_bytes.as_slice(), IX_META_BASE));
        regions.push(region_readonly(self.ix_accounts_bytes.as_slice(), IX_ACC_META_BASE));
        proof {
            lemma_instructions_bytes_len(self.spec_ix_metadata());
            lemma_ix_accounts_bytes_len(self.spec_ix_accounts());
        }
        let n_uniq = uniq.len();
        for u in 0..n_uniq
            invariant
                old(self).wf(),
                self.spec_context() == old(self).spec_context(),
                self.spec_bytes() == old(self).spec_bytes(),
                self.spec_account_descriptors() == old(self).spec_account_descriptors(),
                self.spec_ix_metadata() == old(self).spec_ix_metadata(),
                self.spec_ix_accounts() == old(self).spec_ix_accounts(),
                self.spec_ix_metadata_wire() == old(self).spec_ix_metadata_wire(),
                self.spec_ix_accounts_wire() == old(self).spec_ix_accounts_wire(),
                self.spec_account_data() == old(self).spec_account_data(),
                self.spec_ix_payloads() == old(self).spec_ix_payloads(),
                self.account_data@.len() == old(self).spec_account_data().len(),
                n_uniq == uniq@.len(),
                writ@.len() == uniq@.len(),
                uniq@ == spec_unique_accounts(cur_refs),
                cur_refs == old(self).spec_current_refs(),
                forall|t: int|
                    0 <= t < writ@.len() ==> writ@[t] == spec_any_writable(
                        cur_refs,
                        (#[trigger] uniq@[t]),
                    ),
                forall|a: u16|
                    uniq@.contains(a) <==> exists|q: int|
                        0 <= q < cur_refs.len() && (#[trigger] cur_refs[q]).tx_acc_idx == a,
                forall|q: int|
                    0 <= q < cur_refs.len() ==> (#[trigger] cur_refs[q]).tx_acc_idx < old(
                        self,
                    ).spec_account_descriptors().len(),
                regions@.len() == 3 + u,
                regions@[0].vm_addr == TX_CTX_BASE && regions@[0].len == old(
                    self,
                ).spec_bytes().len() && !regions@[0].writable,
                regions@[1].vm_addr == IX_META_BASE && regions@[1].len == GUEST_INSTRUCTION_SIZE
                    * old(self).spec_ix_metadata().len() && !regions@[1].writable,
                regions@[2].vm_addr == IX_ACC_META_BASE && regions@[2].len
                    == GUEST_INSTRUCTION_ACCOUNT_SIZE * old(self).spec_ix_accounts().len()
                    && !regions@[2].writable,
                forall|t: int|
                    0 <= t < u ==> {
                        let a = #[trigger] uniq@[t];
                        &&& regions@[3 + t].vm_addr == sat64(ACCOUNTS_BASE + a * REGION_SIZE)
                        &&& regions@[3 + t].len == old(self).spec_account_data()[a as int].len()
                        &&& regions@[3 + t].writable == spec_any_writable(cur_refs, a)
                    },
        {
            let a = uniq[u];
            proof {
                assert(uniq@.contains(uniq@[u as int]));
                let q = choose|q: int|
                    0 <= q < cur_refs.len() && (#[trigger] cur_refs[q]).tx_acc_idx == uniq@[
                        u as int
                    ];
                assert(a < old(self).spec_account_descriptors().len());
            }
            let addr = region_slot_address(ACCOUNTS_BASE, a as usize);
            if writ[u] {
                let ghost data_before = self.spec_account_data();
                let reg = region_writable(&mut self.account_data[a as usize], addr);
                proof {
                    assert(self.spec_account_data() =~= data_before);
                }
                regions.push(reg);
            } else {
                regions.push(
                    region_readonly(self.account_data[a as usize].as_slice(), addr),
                );
            }
        }
        let n_payloads = self.ix_payloads.len();
        for i in 0..n_payloads
            invariant
                n_payloads == old(self).spec_ix_payloads().len(),
                n_payloads == self.ix_payloads@.len(),
                self.spec_ix_payloads() == old(self).spec_ix_payloads(),
                n_uniq == spec_unique_accounts(cur_refs).len(),
                cur_refs == old(self).spec_current_refs(),
                uniq@ == spec_unique_accounts(cur_refs),
                writ@.len() == uniq@.len(),
                regions@.len() == 3 + n_uniq + i,
                regions@[0].vm_addr == TX_CTX_BASE && regions@[0].len == old(
                    self,
                ).spec_bytes().len() && !regions@[0].writable,
                regions@[1].vm_addr == IX_META_BASE && regions@[1].len == GUEST_INSTRUCTION_SIZE
                    * old(self).spec_ix_metadata().len() && !regions@[1].writable,
                regions@[2].vm_addr == IX_ACC_META_BASE && regions@[2].len
                    == GUEST_INSTRUCTION_ACCOUNT_SIZE * old(self).spec_ix_accounts().len()
                    && !regions@[2].writable,
                forall|t: int|
                    0 <= t < n_uniq ==> {
                        let a = #[trigger] uniq@[t];
                        &&& regions@[3 + t].vm_addr == sat64(ACCOUNTS_BASE + a * REGION_SIZE)
                        &&& regions@[3 + t].len == old(self).spec_account_data()[a as int].len()
                        &&& regions@[3 + t].writable == spec_any_writable(cur_refs, a)
                    },
                forall|j: int|
                    0 <= j < i ==> {
                        &&& (#[trigger] regions@[3 + n_uniq + j]).vm_addr == sat64(
                            IX_PAYLOAD_BASE + j * REGION_SIZE,
                        )
                        &&& regions@[3 + n_uniq + j].len == old(self).spec_ix_payloads()[j].len()
                        &&& !regions@[3 + n_uniq + j].writable
                    },
        {
            let addr = region_slot_address(IX_PAYLOAD_BASE, i);
            regions.push(region_readonly(self.ix_payloads[i].as_slice(), addr));
        }
        regions
    }
}

} // verus!
