//! A synthetic page table: the per-address-space structure mapping virtual
//! page numbers to physical page frames, abstracted as a `Map` from page
//! number to entry.

use vstd::prelude::*;
use std::collections::HashMap;

verus! {

broadcast use vstd::std_specs::hash::group_hash_axioms;

/// A page-table entry: the physical page frame a virtual page maps to, and
/// the permission bits the mapping was created with.
#[derive(Clone, Copy, PartialEq, Eq, Structural, Debug)]
pub struct Pte {
    pub ppn: usize,
    pub perm: usize,
}

/// A permission mask is valid when it has no bits above position 2 and at
/// least one of the three meaningful bits (Readable, Writable, Executable)
/// set.
pub open spec fn perm_valid(perm: usize) -> bool {
    perm & !0x7 == 0 && perm & 0x7 != 0
}

/// The valid permission masks are exactly the integers 1 through 7: some
/// low bit set, nothing above.
pub proof fn lemma_perm_valid_range(perm: usize)
    ensures
        perm_valid(perm) <==> 1 <= perm <= 7,
{
    assert((perm & !0x7 == 0 && perm & 0x7 != 0) <==> (1 <= perm <= 7)) by (bit_vector);
}

/// A page table, owned by one address space. Lookups key on the virtual
/// page number.
pub struct PageTable {
    entries: HashMap<usize, Pte>,
}

impl View for PageTable {
    type V = Map<usize, Pte>;

    closed spec fn view(&self) -> Map<usize, Pte> {
        self.entries@
    }
}

impl PageTable {
    /// An empty page table: no virtual page is mapped.
    pub fn new() -> (pt: PageTable)
        ensures
            pt@ == Map::<usize, Pte>::empty(),
    {
        PageTable { entries: HashMap::new() }
    }

    /// Page Table Lookup: the entry mapping `vpn`, or `None` when `vpn` is
    /// unmapped.
    pub fn find_pte(&self, vpn: usize) -> (r: Option<Pte>)
        ensures
            r matches Some(pte) ==> self@.contains_key(vpn) && self@[vpn] == pte,
            r is None ==> !self@.contains_key(vpn),
    {
        match self.entries.get(&vpn) {
            Some(pte) => Some(*pte),
            None => None,
        }
    }

    /// Install a mapping for an unmapped virtual page.
    pub fn map_page(&mut self, vpn: usize, pte: Pte)
        requires
            !old(self)@.contains_key(vpn),
        ensures
            final(self)@ == old(self)@.insert(vpn, pte),
    {
        self.entries.insert(vpn, pte);
    }

    /// Remove the mapping of a mapped virtual page.
    pub fn unmap_page(&mut self, vpn: usize)
        requires
            old(self)@.contains_key(vpn),
        ensures
            final(self)@ == old(self)@.remove(vpn),
    {
        self.entries.remove(&vpn);
    }
}

} // verus!
