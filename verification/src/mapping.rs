//! The mapping validator: checks mmap/munmap requests for permission-bit
//! legality and page alignment at the syscall boundary, then delegates to
//! the address-space mapping manager. Checks run in order, first failure
//! wins, and no kernel state changes on any failure.

use vstd::prelude::*;
use crate::addr::{is_aligned, aligned};
use crate::address_space::{
    AddressSpace,
    region_free,
    region_mapped,
    page_count,
    range_set,
    region_added,
};
use crate::page_table::perm_valid;

verus! {

/// Why an mmap request was rejected.
#[derive(Clone, Copy, PartialEq, Eq, Structural, Debug)]
pub enum MmapError {
    /// The permission mask has undefined bits set or no meaningful bit set.
    InvalidPermission,
    /// The start address is not page-aligned.
    MisalignedAddress,
    /// The mapping manager rejected the request (overlap or exhaustion).
    DelegationFailure,
}

/// Why a munmap request was rejected.
#[derive(Clone, Copy, PartialEq, Eq, Structural, Debug)]
pub enum MunmapError {
    /// The start address is not page-aligned.
    MisalignedAddress,
    /// The mapping manager rejected the request (region not fully mapped).
    DelegationFailure,
}

/// The exact condition under which an mmap request goes through: a valid
/// permission mask, a page-aligned start, a free region, and enough frames.
pub open spec fn mmap_allowed(s: AddressSpace, start: usize, len: usize, port: usize) -> bool {
    &&& perm_valid(port)
    &&& is_aligned(start)
    &&& region_free(s@, start, len)
    &&& s.next_frame + page_count(start, len) <= usize::MAX
}

/// The exact condition under which a munmap request goes through: a
/// page-aligned start and a fully mapped region.
pub open spec fn munmap_allowed(s: AddressSpace, start: usize, len: usize) -> bool {
    &&& is_aligned(start)
    &&& region_mapped(s@, start, len)
}

/// Validated creation of an anonymous mapping: rejects undefined or empty
/// permission bits, then a misaligned start, then delegates to the manager.
pub fn mmap(space: &mut AddressSpace, start: usize, len: usize, port: usize) -> (r: Result<
    (),
    MmapError,
>)
    requires
        old(space).wf(),
        start + len <= usize::MAX,
    ensures
        final(space).wf(),
        (r matches Err(MmapError::InvalidPermission)) <==> !perm_valid(port),
        (r matches Err(MmapError::MisalignedAddress)) <==> perm_valid(port) && !is_aligned(start),
        (r matches Err(MmapError::DelegationFailure)) <==> perm_valid(port) && is_aligned(start)
            && !(region_free(old(space)@, start, len) && old(space).next_frame + page_count(
            start,
            len,
        ) <= usize::MAX),
        r is Ok <==> mmap_allowed(*old(space), start, len, port),
        r is Err ==> *final(space) == *old(space),
        r is Ok ==> final(space)@ == region_added(
            old(space)@,
            old(space).next_frame,
            start,
            len,
            port,
        ) && final(space).next_frame == old(space).next_frame + page_count(start, len),
{
    if (port & !0x7 != 0) || (port & 0x7 == 0) {
        return Err(MmapError::InvalidPermission);
    }
    if !aligned(start) {
        return Err(MmapError::MisalignedAddress);
    }
    match space.create_mapping(start, len, port) {
        Ok(u) => Ok(u),
        Err(_) => Err(MmapError::DelegationFailure),
    }
}

/// Validated removal of a mapping: rejects a misaligned start, then
/// delegates to the manager.
pub fn munmap(space: &mut AddressSpace, start: usize, len: usize) -> (r: Result<(), MunmapError>)
    requires
        old(space).wf(),
        start + len <= usize::MAX,
    ensures
        final(space).wf(),
        (r matches Err(MunmapError::MisalignedAddress)) <==> !is_aligned(start),
        (r matches Err(MunmapError::DelegationFailure)) <==> is_aligned(start) && !region_mapped(
            old(space)@,
            start,
            len,
        ),
        r is Ok <==> munmap_allowed(*old(space), start, len),
        r is Err ==> *final(space) == *old(space),
        r is Ok ==> final(space)@ == old(space)@.remove_keys(range_set(start, len))
            && final(space).next_frame == old(space).next_frame,
{
    if !aligned(start) {
        return Err(MunmapError::MisalignedAddress);
    }
    match space.remove_mapping(start, len) {
        Ok(u) => Ok(u),
        Err(_) => Err(MunmapError::DelegationFailure),
    }
}

} // verus!
