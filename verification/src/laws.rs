//! The properties this core promises, stated and proved once over the spec
//! functions the syscall contracts use.

use vstd::prelude::*;
use crate::addr::{PAGE_SIZE, vpn_of, offset_of, is_aligned};
use crate::address_space::{
    AddressSpace,
    vpn_lo,
    vpn_hi,
    page_count,
    range_set,
    region_free,
    region_mapped,
    region_added,
};
use crate::mapping::{mmap_allowed, munmap_allowed};
use crate::page_table::{Pte, perm_valid};
use crate::syscall::spec_translate;

verus! {

/// For every page-aligned start and permission mask with some of its three
/// low bits set and no other bits, an mmap of a free region succeeds
/// (provided frames remain for it): `sys_mmap` returns 0 on exactly this
/// condition.
pub proof fn lemma_mmap_accepts_valid_request(
    s: AddressSpace,
    start: usize,
    len: usize,
    port: usize,
)
    requires
        is_aligned(start),
        perm_valid(port),
        region_free(s@, start, len),
        s.next_frame + page_count(start, len) <= usize::MAX,
    ensures
        mmap_allowed(s, start, len, port),
{
}

/// For every start that is not page-aligned, both mmap and munmap are
/// rejected, whatever the rest of the request: with the contracts of
/// `sys_mmap` and `sys_munmap`, the calls return -1 and leave the address
/// space unchanged.
pub proof fn lemma_misaligned_requests_fail(
    s: AddressSpace,
    start: usize,
    len: usize,
    port: usize,
)
    requires
        !is_aligned(start),
    ensures
        !mmap_allowed(s, start, len, port),
        !munmap_allowed(s, start, len),
{
}

/// For every permission mask with some bit above position 2 set, or with
/// all of bits 0-2 clear, mmap is rejected: with the contract of
/// `sys_mmap`, the call returns -1.
pub proof fn lemma_invalid_permission_fails(s: AddressSpace, start: usize, len: usize, port: usize)
    requires
        port & !0x7 != 0 || port & 0x7 == 0,
    ensures
        !mmap_allowed(s, start, len, port),
{
}

/// Removing a region right after mapping it succeeds and leaves the
/// address space with no mapping covering any address of
/// `[start, start+len)`: after a successful mmap the whole region is
/// mapped, the matching munmap is therefore accepted, and it removes every
/// page the region touches.
pub proof fn lemma_munmap_after_mmap(s: AddressSpace, start: usize, len: usize, port: usize)
    requires
        mmap_allowed(s, start, len, port),
        start + len <= usize::MAX,
    ensures
        region_mapped(region_added(s@, s.next_frame, start, len, port), start, len),
        forall|a: usize|
            start <= a < start + len ==> !(#[trigger] region_added(
                s@,
                s.next_frame,
                start,
                len,
                port,
            ).remove_keys(range_set(start, len)).contains_key(vpn_of(a))),
{
    assert forall|a: usize| start <= a < start + len implies !(#[trigger] region_added(
        s@,
        s.next_frame,
        start,
        len,
        port,
    ).remove_keys(range_set(start, len)).contains_key(vpn_of(a))) by {
        lemma_vpn_in_range(start, len, a);
    }
}

/// Every address of a region has its page number inside the page range the
/// region covers.
pub proof fn lemma_vpn_in_range(start: usize, len: usize, a: usize)
    requires
        start <= a < start + len,
        start + len <= usize::MAX,
    ensures
        vpn_lo(start) <= vpn_of(a),
        (vpn_of(a) as int) < vpn_hi(start, len),
{
    vstd::arithmetic::div_mod::lemma_div_is_ordered(
        start as int,
        a as int,
        PAGE_SIZE as int,
    );
    vstd::arithmetic::div_mod::lemma_div_is_ordered(
        (a + 1) as int,
        (start + len) as int,
        PAGE_SIZE as int,
    );
    vstd::arithmetic::div_mod::lemma_fundamental_div_mod(a as int, PAGE_SIZE as int);
    vstd::arithmetic::div_mod::lemma_fundamental_div_mod(
        (start + len + PAGE_SIZE - 1) as int,
        PAGE_SIZE as int,
    );
}

/// Neither call disturbs pages outside the requested region: a successful
/// mmap keeps every existing entry exactly as it was, and a successful
/// munmap keeps every entry whose page the region does not cover.
pub proof fn lemma_mapping_calls_are_local(s: AddressSpace, start: usize, len: usize, port: usize)
    requires
        mmap_allowed(s, start, len, port),
    ensures
        forall|u: usize| #[trigger] s@.contains_key(u) ==> region_added(
            s@,
            s.next_frame,
            start,
            len,
            port,
        ).contains_key(u) && region_added(s@, s.next_frame, start, len, port)[u] == s@[u],
        forall|u: usize|
            s@.contains_key(u) && !range_set(start, len).contains(u)
                ==> #[trigger] s@.remove_keys(range_set(start, len)).contains_key(u)
                && s@.remove_keys(range_set(start, len))[u] == s@[u],
{
}

/// Translation round-trip: a virtual address whose page is mapped to frame
/// `f` translates to `f` scaled by the page size plus the address's own
/// page offset — the offset survives translation unchanged, and it is
/// exactly the low part of the address's unique (page, offset)
/// decomposition.
pub proof fn lemma_translate_round_trip(m: Map<usize, Pte>, v: usize, f: usize, o: usize)
    requires
        m.contains_key(vpn_of(v)),
        m[vpn_of(v)].ppn == f,
        offset_of(v) == o,
    ensures
        spec_translate(m, v) == f * PAGE_SIZE + o,
        v == vpn_of(v) * PAGE_SIZE + o,
{
    crate::addr::lemma_addr_decomposition(v);
}

} // verus!
