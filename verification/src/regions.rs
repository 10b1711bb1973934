//! The memory-region boundary: the sandbox consumes `(host buffer, guest
//! base address, writable?)` descriptors built here, and the helpers that
//! decide which accounts of an instruction get a region, with which
//! writability.

use vstd::prelude::*;
use solana_sbpf::memory_region::MemoryRegion;
use crate::guest_instruction::GuestInstructionAccount;

verus! {

#[verifier::external_type_specification]
pub struct ExMemoryRegion(MemoryRegion);

/// Relies on solana_sbpf's `MemoryRegion::new_readonly`: the returned region
/// maps `data`'s bytes at guest address `vm_addr`, records their length, and
/// is not writable.
#[verifier::external_body]
pub(crate) fn region_readonly(data: &[u8], vm_addr: u64) -> (r: MemoryRegion)
    ensures
        r.vm_addr == vm_addr,
        r.len == data@.len(),
        r.writable == false,
{
    MemoryRegion::new_readonly(data, vm_addr)
}

/// Relies on solana_sbpf's `MemoryRegion::new_writable`: the returned region
/// maps `data`'s bytes at guest address `vm_addr`, records their length, and
/// is writable; the buffer itself is only aliased, never changed.
#[verifier::external_body]
pub(crate) fn region_writable(data: &mut Vec<u8>, vm_addr: u64) -> (r: MemoryRegion)
    ensures
        final(data)@ == old(data)@,
        r.vm_addr == vm_addr,
        r.len == old(data)@.len(),
        r.writable == true,
{
    MemoryRegion::new_writable(data.as_mut_slice(), vm_addr)
}

/// Whether a reference entry's flag word has the writable bit (bit 1) set.
pub open spec fn spec_flag_writable(flags: u16) -> bool {
    flags & 2 == 2
}

/// The distinct transaction-account indices referenced by the entries, in
/// first-appearance order.
pub open spec fn spec_unique_accounts(refs: Seq<GuestInstructionAccount>) -> Seq<u16>
    decreases refs.len(),
{
    if refs.len() == 0 {
        Seq::empty()
    } else {
        let prev = spec_unique_accounts(refs.drop_last());
        if prev.contains(refs.last().tx_acc_idx) {
            prev
        } else {
            prev.push(refs.last().tx_acc_idx)
        }
    }
}

/// Whether any entry referencing account `a` has its writable bit set.
pub open spec fn spec_any_writable(refs: Seq<GuestInstructionAccount>, a: u16) -> bool {
    exists|q: int|
        0 <= q < refs.len() && (#[trigger] refs[q]).tx_acc_idx == a && spec_flag_writable(
            refs[q].flags,
        )
}

/// The distinct-account list holds an index exactly when some entry
/// references it, and holds no index twice.
pub proof fn lemma_unique_accounts_props(refs: Seq<GuestInstructionAccount>)
    ensures
        forall|a: u16|
            spec_unique_accounts(refs).contains(a) <==> exists|q: int|
                0 <= q < refs.len() && (#[trigger] refs[q]).tx_acc_idx == a,
        forall|u1: int, u2: int|
            0 <= u1 < u2 < spec_unique_accounts(refs).len() ==> spec_unique_accounts(refs)[u1]
                != spec_unique_accounts(refs)[u2],
    decreases refs.len(),
{
    if refs.len() == 0 {
    } else {
        lemma_unique_accounts_props(refs.drop_last());
        let prev = spec_unique_accounts(refs.drop_last());
        let cur = spec_unique_accounts(refs);
        assert forall|a: u16| cur.contains(a) implies exists|q: int|
            0 <= q < refs.len() && (#[trigger] refs[q]).tx_acc_idx == a by {
            if prev.contains(a) {
                let q = choose|q: int|
                    0 <= q < refs.drop_last().len() && (#[trigger] refs.drop_last()[q]).tx_acc_idx
                        == a;
                assert(refs[q].tx_acc_idx == a);
            } else {
                assert(refs[refs.len() - 1].tx_acc_idx == a);
            }
        }
        assert forall|a: u16|
            (exists|q: int| 0 <= q < refs.len() && (#[trigger] refs[q]).tx_acc_idx == a) implies cur
            .contains(a) by {
            let q = choose|q: int| 0 <= q < refs.len() && (#[trigger] refs[q]).tx_acc_idx == a;
            if q < refs.len() - 1 {
                assert(refs.drop_last()[q].tx_acc_idx == a);
                assert(prev.contains(a));
                if !prev.contains(refs.last().tx_acc_idx) {
                    let w = choose|w: int| 0 <= w < prev.len() && prev[w] == a;
                    assert(cur[w] == a);
                }
            } else {
                if prev.contains(refs.last().tx_acc_idx) {
                } else {
                    assert(cur[cur.len() - 1] == a);
                }
            }
        }
        if !prev.contains(refs.last().tx_acc_idx) {
            assert forall|u1: int, u2: int| 0 <= u1 < u2 < cur.len() implies cur[u1]
                != cur[u2] by {
                if u2 == cur.len() - 1 {
                    assert(prev[u1] == cur[u1]);
                    assert(prev.contains(prev[u1]));
                }
            }
        }
    }
}

/// Extending the entry prefix by one either repeats a known account or
/// appends a new one, and its effect on per-account writability is exactly
/// the new entry's writable bit.
pub proof fn lemma_unique_accounts_step(refs: Seq<GuestInstructionAccount>, p: int)
    requires
        0 <= p < refs.len(),
    ensures
        spec_unique_accounts(refs.take(p + 1)) == if spec_unique_accounts(
            refs.take(p),
        ).contains(refs[p].tx_acc_idx) {
            spec_unique_accounts(refs.take(p))
        } else {
            spec_unique_accounts(refs.take(p)).push(refs[p].tx_acc_idx)
        },
        forall|a: u16|
            spec_any_writable(refs.take(p + 1), a) == (spec_any_writable(refs.take(p), a) || (
            refs[p].tx_acc_idx == a && spec_flag_writable(refs[p].flags))),
{
    assert(refs.take(p + 1).drop_last() =~= refs.take(p));
    assert(refs.take(p + 1).last() == refs[p]);
    assert forall|a: u16|
        spec_any_writable(refs.take(p + 1), a) == (spec_any_writable(refs.take(p), a) || (
        refs[p].tx_acc_idx == a && spec_flag_writable(refs[p].flags))) by {
        if spec_any_writable(refs.take(p + 1), a) {
            let q = choose|q: int|
                0 <= q < refs.take(p + 1).len() && (#[trigger] refs.take(p + 1)[q]).tx_acc_idx == a
                    && spec_flag_writable(refs.take(p + 1)[q].flags);
            if q < p {
                assert(refs.take(p)[q].tx_acc_idx == a && spec_flag_writable(
                    refs.take(p)[q].flags,
                ));
            }
        }
        if spec_any_writable(refs.take(p), a) {
            let q = choose|q: int|
                0 <= q < refs.take(p).len() && (#[trigger] refs.take(p)[q]).tx_acc_idx == a
                    && spec_flag_writable(refs.take(p)[q].flags);
            assert(refs.take(p + 1)[q].tx_acc_idx == a && spec_flag_writable(
                refs.take(p + 1)[q].flags,
            ));
        }
        if refs[p].tx_acc_idx == a && spec_flag_writable(refs[p].flags) {
            assert(refs.take(p + 1)[p].tx_acc_idx == a && spec_flag_writable(
                refs.take(p + 1)[p].flags,
            ));
        }
    }
}

} // verus!
