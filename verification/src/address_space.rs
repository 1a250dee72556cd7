//! The address-space mapping manager: reserves and releases page-aligned
//! regions of a task's virtual address space, allocating a fresh physical
//! frame for every page it maps.
//!
//! The manager assumes, as preconditions, that requests are already
//! well-formed: validation happens at the syscall boundary, so the manager
//! never observes a misaligned start or a malformed permission mask.

use vstd::prelude::*;
use crate::addr::{PAGE_SIZE, vpn_of, is_aligned, floor_vpn};
use crate::page_table::{Pte, PageTable, perm_valid};

verus! {

/// Why the mapping manager rejected a request to create a mapping.
#[derive(Clone, Copy, PartialEq, Eq, Structural, Debug)]
pub enum MapError {
    /// Some page of the requested region is already mapped.
    Overlap,
    /// No physical frames are left for the requested region.
    FrameExhausted,
}

/// Why the mapping manager rejected a request to remove a mapping.
#[derive(Clone, Copy, PartialEq, Eq, Structural, Debug)]
pub enum UnmapError {
    /// Some page of the requested region is not mapped.
    NotMapped,
}

/// First virtual page number of the region starting at `start`.
pub open spec fn vpn_lo(start: usize) -> usize {
    vpn_of(start)
}

/// One past the last virtual page number of the region `[start, start+len)`:
/// the end of the region rounded up to a page boundary.
pub open spec fn vpn_hi(start: usize, len: usize) -> int {
    (start + len + PAGE_SIZE - 1) / (PAGE_SIZE as int)
}

/// How many pages the region `[start, start+len)` covers.
pub open spec fn page_count(start: usize, len: usize) -> int {
    vpn_hi(start, len) - vpn_lo(start)
}

/// The virtual page numbers covered by the region `[start, start+len)`.
pub open spec fn range_set(start: usize, len: usize) -> Set<usize> {
    Set::new(|v: usize| vpn_lo(start) <= v && (v as int) < vpn_hi(start, len))
}

/// No page of the region is mapped in `m`.
pub open spec fn region_free(m: Map<usize, Pte>, start: usize, len: usize) -> bool {
    forall|v: usize|
        vpn_lo(start) <= v && (v as int) < vpn_hi(start, len) ==> !(#[trigger] m.contains_key(v))
}

/// Every page of the region is mapped in `m`.
pub open spec fn region_mapped(m: Map<usize, Pte>, start: usize, len: usize) -> bool {
    forall|v: usize|
        vpn_lo(start) <= v && (v as int) < vpn_hi(start, len) ==> #[trigger] m.contains_key(v)
}

/// The entry a fresh mapping of page `v` receives when the allocator stands
/// at frame `nf` and the region starts at `start`: consecutive fresh frames,
/// one per page, all carrying `perm`.
pub open spec fn fresh_pte(nf: usize, start: usize, v: usize, perm: usize) -> Pte {
    Pte { ppn: (nf + v - vpn_lo(start)) as usize, perm }
}

/// The page table after mapping the region `[start, start+len)` with fresh
/// frames from `nf` on: the old entries plus one fresh entry per page.
pub open spec fn region_added(
    m: Map<usize, Pte>,
    nf: usize,
    start: usize,
    len: usize,
    perm: usize,
) -> Map<usize, Pte> {
    m.union_prefer_right(
        Map::new(
            |v: usize| vpn_lo(start) <= v && (v as int) < vpn_hi(start, len),
            |v: usize| fresh_pte(nf, start, v, perm),
        ),
    )
}

/// The page range a region covers: its first virtual page number and one
/// past its last, the region's end rounded up to a page boundary.
pub fn page_range(start: usize, len: usize) -> (b: (usize, usize))
    requires
        start + len <= usize::MAX,
    ensures
        b.0 == vpn_lo(start),
        b.1 as int == vpn_hi(start, len),
        b.0 <= b.1,
{
    let vl = floor_vpn(start);
    let end = start + len;
    let vh = end / PAGE_SIZE + if end % PAGE_SIZE != 0 {
        1
    } else {
        0
    };
    proof {
        vstd::arithmetic::div_mod::lemma_fundamental_div_mod(end as int, PAGE_SIZE as int);
        assert(vh == vpn_hi(start, len)) by {
            vstd::arithmetic::div_mod::lemma_fundamental_div_mod_converse(
                (end + PAGE_SIZE - 1) as int,
                PAGE_SIZE as int,
                vh as int,
                if end % PAGE_SIZE != 0 {
                    (end % PAGE_SIZE - 1) as int
                } else {
                    (PAGE_SIZE - 1) as int
                },
            );
        }
        vstd::arithmetic::div_mod::lemma_div_is_ordered(
            start as int,
            (end + PAGE_SIZE - 1) as int,
            PAGE_SIZE as int,
        );
    }
    (vl, vh)
}

/// One task's address space: its page table plus the synthetic frame
/// allocator that backs anonymous mappings. Frames are handed out in
/// sequence, so a frame number below `next_frame` is in use or retired and a
/// frame number at or above it is untouched.
pub struct AddressSpace {
    /// The page table recording the current mappings.
    pub table: PageTable,
    /// The next physical frame number the allocator will hand out.
    pub next_frame: usize,
}

impl View for AddressSpace {
    type V = Map<usize, Pte>;

    open spec fn view(&self) -> Map<usize, Pte> {
        self.table@
    }
}

impl AddressSpace {
    /// Well-formedness: every mapped frame was handed out by the allocator,
    /// so freshly allocated frames never collide with live mappings.
    pub open spec fn wf(self) -> bool {
        forall|v: usize| #[trigger] self@.contains_key(v) ==> self@[v].ppn < self.next_frame
    }

    /// An empty address space: nothing mapped, no frame handed out.
    pub fn new() -> (s: AddressSpace)
        ensures
            s@ == Map::<usize, Pte>::empty(),
            s.next_frame == 0,
            s.wf(),
    {
        AddressSpace { table: PageTable::new(), next_frame: 0 }
    }

    /// Reserve the region `[start, start+len)` with permission `perm`,
    /// allocating one fresh frame per page. Fails, leaving the address space
    /// unchanged, when some page of the region is already mapped or when the
    /// frame allocator is exhausted.
    #[verifier::loop_isolation(false)]
    pub fn create_mapping(&mut self, start: usize, len: usize, perm: usize) -> (r: Result<
        (),
        MapError,
    >)
        requires
            old(self).wf(),
            is_aligned(start),
            perm_valid(perm),
            start + len <= usize::MAX,
        ensures
            final(self).wf(),
            r matches Err(MapError::Overlap) <==> !region_free(old(self)@, start, len),
            r matches Err(MapError::FrameExhausted) <==> region_free(old(self)@, start, len)
                && old(self).next_frame + page_count(start, len) > usize::MAX,
            r is Err ==> *final(self) == *old(self),
            r is Ok <==> region_free(old(self)@, start, len) && old(self).next_frame + page_count(
                start,
                len,
            ) <= usize::MAX,
            r is Ok ==> final(self)@ == region_added(
                old(self)@,
                old(self).next_frame,
                start,
                len,
                perm,
            ) && final(self).next_frame == old(self).next_frame + page_count(start, len),
        {
        let (vl, vh) = page_range(start, len);
        let mut v: usize = vl;
        while v < vh
            invariant
                vl <= v <= vh,
                forall|u: usize| vl <= u < v ==> !(#[trigger] self@.contains_key(u)),
            decreases vh - v,
        {
            if self.table.find_pte(v).is_some() {
                return Err(MapError::Overlap);
            }
            v = v + 1;
        }
        let count = vh - vl;
        if self.next_frame > usize::MAX - count {
            return Err(MapError::FrameExhausted);
        }
        let nf = self.next_frame;
        let ghost m0 = self@;
        let mut v: usize = vl;
        while v < vh
            invariant
                vl <= v <= vh,
                self.next_frame == nf,
                self@ == m0.union_prefer_right(
                    Map::new(
                        |u: usize| vl <= u && u < v,
                        |u: usize| fresh_pte(nf, start, u, perm),
                    ),
                ),
            decreases vh - v,
        {
            self.table.map_page(v, Pte { ppn: nf + (v - vl), perm });
            v = v + 1;
            proof {
                assert(self@ =~= m0.union_prefer_right(
                    Map::new(
                        |u: usize| vl <= u && u < v,
                        |u: usize| fresh_pte(nf, start, u, perm),
                    ),
                ));
            }
        }
        self.next_frame = nf + count;
        proof {
            assert(self@ =~= region_added(m0, nf, start, len, perm));
            assert forall|u: usize| #[trigger] self@.contains_key(u) implies self@[u].ppn
                < self.next_frame by {
                if !m0.contains_key(u) {
                    assert(vl <= u && (u as int) < vpn_hi(start, len));
                }
            }
        }
        Ok(())
    }

    /// Release the region `[start, start+len)`. Fails, leaving the address
    /// space unchanged, when some page of the region is not mapped; on
    /// success exactly the pages of the region are removed.
    #[verifier::loop_isolation(false)]
    pub fn remove_mapping(&mut self, start: usize, len: usize) -> (r: Result<(), UnmapError>)
        requires
            old(self).wf(),
            is_aligned(start),
            start + len <= usize::MAX,
        ensures
            final(self).wf(),
            (r matches Err(UnmapError::NotMapped)) <==> !region_mapped(old(self)@, start, len),
            r is Err ==> *final(self) == *old(self),
            r is Ok <==> region_mapped(old(self)@, start, len),
            r is Ok ==> final(self)@ == old(self)@.remove_keys(range_set(start, len))
                && final(self).next_frame == old(self).next_frame,
        {
        let (vl, vh) = page_range(start, len);
        let mut v: usize = vl;
        while v < vh
            invariant
                vl <= v <= vh,
                forall|u: usize| vl <= u < v ==> #[trigger] self@.contains_key(u),
            decreases vh - v,
        {
            if self.table.find_pte(v).is_none() {
                return Err(UnmapError::NotMapped);
            }
            v = v + 1;
        }
        let ghost m0 = self@;
        let ghost nf0 = self.next_frame;
        let mut v: usize = vl;
        while v < vh
            invariant
                vl <= v <= vh,
                self.next_frame == nf0,
                self@ == m0.remove_keys(Set::new(|u: usize| vl <= u && u < v)),
            decreases vh - v,
        {
            self.table.unmap_page(v);
            v = v + 1;
            proof {
                assert(self@ =~= m0.remove_keys(Set::new(|u: usize| vl <= u && u < v)));
            }
        }
        proof {
            assert(self@ =~= m0.remove_keys(range_set(start, len)));
            assert forall|u: usize| #[trigger] self@.contains_key(u) implies self@[u].ppn
                < self.next_frame by {
                assert(m0.contains_key(u));
            }
        }
        Ok(())
    }
}

} // verus!
