//! Pages of the virtual address space, as the four-level page-table walk
//! sees them: the page number of a canonical address and its index at each
//! table level.  The tables themselves belong to the memory subsystem; this
//! kernel core only needs the index arithmetic, surfaced on a page fault.

use vstd::prelude::*;
use crate::VirtualAddress;

verus! {

/// Bytes per page.
pub const PAGE_SIZE: u64 = 4096;

/// A virtual page, identified by its page number.
#[derive(Clone, Copy, PartialEq, Eq, Structural, Debug)]
pub struct Page {
    number: u64,
}

impl Page {
    /// The page's number: its start address divided by the page size.
    pub closed spec fn page_number(self) -> u64 {
        self.number
    }

    /// Page numbers of canonical addresses fit in 52 bits.
    pub open spec fn wf(self) -> bool {
        self.page_number() < 0x10_0000_0000_0000
    }

    /// The page containing `address`.  Only canonical addresses name a
    /// page: the hole between the two halves of the address space maps to
    /// nothing.
    pub fn containing_address(address: VirtualAddress) -> (p: Page)
        requires
            address < 0x0000_8000_0000_0000 || address >= 0xffff_8000_0000_0000,
        ensures
            p.wf(),
            p.page_number() == address / PAGE_SIZE,
    {
        Page { number: address / PAGE_SIZE }
    }

    /// The first address of the page.
    pub fn start_address(&self) -> (a: VirtualAddress)
        requires
            self.wf(),
        ensures
            a == self.page_number() * PAGE_SIZE,
    {
        self.number * PAGE_SIZE
    }

    /// Index into the fourth-level table.
    pub fn p4_index(&self) -> (i: u64)
        ensures
            i == (self.page_number() >> 27) & 0o777,
            i < 512,
    {
        let i: u64 = (self.number >> 27) & 0o777;
        proof {
            let n = self.number;
            assert((n >> 27) & 0o777 < 512) by (bit_vector);
        }
        i
    }

    /// Index into the third-level table.
    pub fn p3_index(&self) -> (i: u64)
        ensures
            i == (self.page_number() >> 18) & 0o777,
            i < 512,
    {
        let i: u64 = (self.number >> 18) & 0o777;
        proof {
            let n = self.number;
            assert((n >> 18) & 0o777 < 512) by (bit_vector);
        }
        i
    }

    /// Index into the second-level table.
    pub fn p2_index(&self) -> (i: u64)
        ensures
            i == (self.page_number() >> 9) & 0o777,
            i < 512,
    {
        let i: u64 = (self.number >> 9) & 0o777;
        proof {
            let n = self.number;
            assert((n >> 9) & 0o777 < 512) by (bit_vector);
        }
        i
    }

    /// Index into the first-level table.
    pub fn p1_index(&self) -> (i: u64)
        ensures
            i == self.page_number() & 0o777,
            i < 512,
    {
        let i: u64 = self.number & 0o777;
        proof {
            let n = self.number;
            assert(n & 0o777 < 512) by (bit_vector);
        }
        i
    }
}

} // verus!
