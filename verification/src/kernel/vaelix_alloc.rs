//! Basic memory allocation: a bump allocator over a fixed heap region.

use vstd::prelude::*;

verus! {

/// Bump allocator state: a heap region and the offset of the next free
/// byte.  Freeing individual allocations is not supported.
pub struct VaelixAllocator {
    /// First address of the heap.
    pub heap_start: usize,
    /// Size of the heap in bytes.
    pub heap_size: usize,
    /// Offset of the next free byte.
    pub next: usize,
}

impl VaelixAllocator {
    /// The bump pointer stays inside the heap and the region does not
    /// wrap the address space.
    pub open spec fn wf(self) -> bool {
        self.next <= self.heap_size && self.heap_start + self.heap_size <= usize::MAX
    }

    /// Allocate `size` bytes and return their address, or 0 when the heap
    /// is exhausted.
    pub fn vaelix_alloc(&mut self, size: usize) -> (r: usize)
        requires
            old(self).wf(),
        ensures
            final(self).wf(),
            final(self).heap_start == old(self).heap_start,
            final(self).heap_size == old(self).heap_size,
            size <= old(self).heap_size - old(self).next ==> {
                &&& r == old(self).heap_start + old(self).next
                &&& final(self).next == old(self).next + size
            },
            size > old(self).heap_size - old(self).next ==> r == 0 && final(self).next == old(self).next,
    {
        if size > self.heap_size - self.next {
            return 0;
        }
        let addr = self.heap_start + self.next;
        self.next = self.next + size;
        addr
    }

    /// Release an allocation.  The bump allocator keeps no per-block
    /// bookkeeping, so this reclaims nothing.
    pub fn vaelix_free(&mut self, address: usize)
        ensures
            *final(self) == *old(self),
    {
    }
}

/// Initialize the global kernel allocator over the given heap region.
pub fn init_global(heap_start: usize, heap_size: usize) -> (a: VaelixAllocator)
    requires
        heap_start + heap_size <= usize::MAX,
    ensures
        a.wf(),
        a.heap_start == heap_start,
        a.heap_size == heap_size,
        a.next == 0,
{
    VaelixAllocator { heap_start, heap_size, next: 0 }
}

} // verus!
