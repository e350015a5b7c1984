//! A platform that hands out DMA regions from two address counters, one for the
//! cpu's view and one for the device's, and keeps a record of every call.
use vstd::prelude::*;
use crate::device::KernelFunc;
use crate::ring::PAGE_SIZE;

verus! {

/// Hands out consecutive regions from `next_vaddr` and `next_paddr`; an
/// allocation that would run past the end of the address space fails.
pub struct SimPlatform {
    next_vaddr: usize,
    next_paddr: usize,
    allocs: Vec<(usize, (usize, usize))>,
    frees: Vec<(usize, usize)>,
}

impl SimPlatform {
    /// A platform whose first region starts at `vaddr` for the cpu and `paddr`
    /// for the device.
    pub fn new(vaddr: usize, paddr: usize) -> (r: SimPlatform)
        ensures
            r.allocations() == Seq::<(usize, (usize, usize))>::empty(),
            r.releases() == Seq::<(usize, usize)>::empty(),
    {
        SimPlatform { next_vaddr: vaddr, next_paddr: paddr, allocs: Vec::new(), frees: Vec::new() }
    }

    /// The allocations made so far.
    pub fn allocation_log(&self) -> (r: &Vec<(usize, (usize, usize))>)
        ensures
            r@ == self.allocations(),
    {
        &self.allocs
    }

    /// The releases made so far.
    pub fn release_log(&self) -> (r: &Vec<(usize, usize)>)
        ensures
            r@ == self.releases(),
    {
        &self.frees
    }
}

impl KernelFunc for SimPlatform {
    closed spec fn allocations(&self) -> Seq<(usize, (usize, usize))> {
        self.allocs@
    }

    closed spec fn releases(&self) -> Seq<(usize, usize)> {
        self.frees@
    }

    /// The next `pages` pages of both address ranges, or (0, 0) when they would
    /// run past the end of the address space.
    fn dma_alloc_coherent(&mut self, pages: usize) -> (r: (usize, usize)) {
        let limit = usize::MAX / PAGE_SIZE;
        if pages > limit || pages * PAGE_SIZE > usize::MAX - self.next_vaddr || pages * PAGE_SIZE
            > usize::MAX - self.next_paddr {
            self.allocs.push((pages, (0, 0)));
            return (0, 0);
        }
        let r = (self.next_vaddr, self.next_paddr);
        self.next_vaddr = self.next_vaddr + pages * PAGE_SIZE;
        self.next_paddr = self.next_paddr + pages * PAGE_SIZE;
        self.allocs.push((pages, r));
        r
    }

    /// Records the release.
    fn dma_free_coherent(&mut self, vaddr: usize, pages: usize) {
        self.frees.push((vaddr, pages));
    }
}

} // verus!
