//! The slice descriptor embedded in guest-visible records: a guest pointer
//! and a length, serialized as two little-endian 64-bit fields.

use vstd::prelude::*;
use vstd::bytes::{spec_u64_to_le_bytes, u64_to_le_bytes, lemma_auto_spec_u64_to_from_le_bytes};

verus! {

/// A `(guest pointer, length)` pair as it appears inside larger guest
/// records. It never holds a host pointer. On the wire it is exactly 16
/// bytes: the pointer, then the length, both little-endian.
#[derive(Clone, Copy, Debug, PartialEq, Eq, Structural)]
pub struct GuestSliceReference {
    /// A guest virtual address inside the address-map partition.
    pub pointer: u64,
    /// The length in bytes of the guest slice.
    pub length: u64,
}

/// The 16 wire bytes of a slice descriptor.
pub open spec fn spec_slice_bytes(s: GuestSliceReference) -> Seq<u8> {
    spec_u64_to_le_bytes(s.pointer) + spec_u64_to_le_bytes(s.length)
}

/// The wire size of a slice descriptor is fixed at 16 bytes.
pub proof fn lemma_slice_bytes_len(s: GuestSliceReference)
    ensures
        spec_slice_bytes(s).len() == 16,
{
    lemma_auto_spec_u64_to_from_le_bytes();
}

/// Appends the 16 wire bytes of `s` to `out`.
pub fn push_slice_bytes(out: &mut Vec<u8>, s: &GuestSliceReference)
    ensures
        final(out)@ == old(out)@ + spec_slice_bytes(*s),
{
    let pointer_bytes = u64_to_le_bytes(s.pointer);
    let length_bytes = u64_to_le_bytes(s.length);
    out.extend_from_slice(pointer_bytes.as_slice());
    out.extend_from_slice(length_bytes.as_slice());
    proof {
        assert(out@ =~= old(out)@ + spec_slice_bytes(*s));
    }
}

} // verus!
