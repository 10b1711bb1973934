//! The address map: named constants partitioning the guest virtual address
//! space into fixed, non-overlapping regions of uniform stride.
//!
//! Every pointer that appears in a guest-visible record is an address inside
//! this partition, never a host pointer. All address arithmetic in this crate
//! saturates: overflowing a computation is a correctness fault and must pin to
//! the address-space cap rather than wrap around.

use vstd::prelude::*;

verus! {

/// Uniform stride of the partition: every named region spans this many bytes
/// of guest virtual address space.
pub const REGION_SIZE: u64 = 0x1_0000_0000;

/// Base of the region holding the transaction context record, immediately
/// followed by the account-descriptor table.
pub const TX_CTX_BASE: u64 = 5 * REGION_SIZE;

/// Base of the region holding the instruction-descriptor array.
pub const IX_META_BASE: u64 = 6 * REGION_SIZE;

/// Base of the region holding the per-instruction account-reference entries;
/// it is also the base against which each descriptor's `ix_accounts.pointer`
/// is computed.
pub const IX_ACC_META_BASE: u64 = 7 * REGION_SIZE;

/// Base of the return-data scratchpad region.
pub const RETURN_DATA_BASE: u64 = 8 * REGION_SIZE;

/// Base of the per-account payload regions: the `k`-th account's payload
/// lives at `ACCOUNTS_BASE + k * REGION_SIZE`.
pub const ACCOUNTS_BASE: u64 = 16 * REGION_SIZE;

/// Base of the per-instruction opaque data regions: the `i`-th instruction's
/// data lives at `IX_PAYLOAD_BASE + i * REGION_SIZE`; the cross-program
/// scratchpad is reserved directly after the last instruction's region.
pub const IX_PAYLOAD_BASE: u64 = 512 * REGION_SIZE;

/// The value a saturating guest-address computation yields for the
/// mathematical result `x`.
pub open spec fn sat64(x: int) -> u64 {
    if x > u64::MAX {
        u64::MAX as u64
    } else if x < 0 {
        0u64
    } else {
        x as u64
    }
}

/// Saturating addition distributes over already-saturated non-negative
/// summands.
pub proof fn lemma_sat64_add(a: int, b: int)
    requires
        a >= 0,
        b >= 0,
    ensures
        sat64(sat64(a) as int + sat64(b) as int) == sat64(a + b),
{
}

/// Guest address of a slot of uniform stride: `base + index * REGION_SIZE`,
/// saturating at the top of the address space.
pub fn region_slot_address(base: u64, index: usize) -> (r: u64)
    ensures
        r == sat64(base + index * REGION_SIZE),
{
    let offset: u64 = match REGION_SIZE.checked_mul(index as u64) {
        Some(o) => o,
        None => u64::MAX,
    };
    proof {
        assert(offset == sat64(index * REGION_SIZE));
    }
    base.saturating_add(offset)
}

} // verus!
