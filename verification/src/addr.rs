//! Page-size constants and the decomposition of a virtual address into its
//! virtual page number and page offset.

use vstd::prelude::*;

verus! {

/// Size of one page in bytes.
pub const PAGE_SIZE: usize = 4096;

/// The virtual page number of an address: the address floored to pages.
pub open spec fn vpn_of(addr: usize) -> usize {
    addr / PAGE_SIZE
}

/// The offset of an address inside its page.
pub open spec fn offset_of(addr: usize) -> usize {
    addr % PAGE_SIZE
}

/// An address is page-aligned when its page offset is zero.
pub open spec fn is_aligned(addr: usize) -> bool {
    offset_of(addr) == 0
}

/// Every address decomposes uniquely into page number and offset.
pub proof fn lemma_addr_decomposition(addr: usize)
    ensures
        addr == vpn_of(addr) * PAGE_SIZE + offset_of(addr),
        offset_of(addr) < PAGE_SIZE,
{
    vstd::arithmetic::div_mod::lemma_fundamental_div_mod(addr as int, PAGE_SIZE as int);
}

/// Executable form of `vpn_of`.
pub fn floor_vpn(addr: usize) -> (vpn: usize)
    ensures
        vpn == vpn_of(addr),
{
    addr / PAGE_SIZE
}

/// Executable form of `offset_of`.
pub fn page_offset(addr: usize) -> (off: usize)
    ensures
        off == offset_of(addr),
        off < PAGE_SIZE,
{
    addr % PAGE_SIZE
}

/// Executable form of `is_aligned`.
pub fn aligned(addr: usize) -> (r: bool)
    ensures
        r == is_aligned(addr),
{
    addr % PAGE_SIZE == 0
}

} // verus!
