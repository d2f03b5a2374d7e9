//! The general purpose allocator: every allocation goes to mimalloc's
//! process-wide heap, always zeroed.

use vstd::prelude::*;
use vstd::arithmetic::power2::is_pow2;
use vstd::layout::valid_layout;
use crate::api::BlockPtr;
use crate::mimalloc::{AllocRequest, AnyPtr, MiCall};

verus! {

/// Whether `n` is a power of two.
pub fn is_power_of_two(n: usize) -> (r: bool)
    ensures
        r == is_pow2(n as int),
{
    reveal(is_pow2);
    let mut m = n;
    while m > 1
        invariant
            is_pow2(n as int) == is_pow2(m as int),
        decreases m,
    {
        proof {
            reveal(is_pow2);
        }
        if m % 2 != 0 {
            return false;
        }
        m = m / 2;
    }
    m == 1
}

/// The size and alignment of a block of memory: the alignment is a power of
/// two, and the size rounded up to the alignment does not exceed `isize::MAX`.
#[derive(Debug, Clone, Copy, PartialEq, Eq)]
pub struct Layout {
    size: usize,
    align: usize,
}

impl View for Layout {
    /// `(size, alignment)`.
    type V = (usize, usize);

    closed spec fn view(&self) -> (usize, usize) {
        (self.size, self.align)
    }
}

impl Layout {
    #[verifier::type_invariant]
    spec fn valid(self) -> bool {
        valid_layout(self.size, self.align)
    }

    /// The layout of `size` bytes aligned to `align`; `None` when `align` is
    /// not a power of two or the rounded-up size exceeds `isize::MAX`.
    pub fn from_size_align(size: usize, align: usize) -> (r: Option<Layout>)
        ensures
            match r {
                Some(l) => valid_layout(size, align) && l@ == (size, align),
                None => !valid_layout(size, align),
            },
    {
        if !is_power_of_two(align) {
            return None;
        }
        assert(align > 0) by {
            reveal(is_pow2);
        }
        let max = isize::MAX as usize;
        assert(max % align <= max) by (nonlinear_arith)
            requires
                align > 0,
        ;
        if size <= max - max % align {
            Some(Layout { size, align })
        } else {
            None
        }
    }

    /// The layout of `size` bytes aligned to `align`, which must make a valid
    /// layout.
    pub fn new_valid(size: usize, align: usize) -> (r: Layout)
        requires
            valid_layout(size, align),
        ensures
            r@ == (size, align),
    {
        Layout { size, align }
    }

    pub fn size(&self) -> (r: usize)
        ensures
            r == self@.0,
    {
        self.size
    }

    /// The alignment; always a power of two.
    pub fn align(&self) -> (r: usize)
        ensures
            r == self@.1,
            is_pow2(r as int),
    {
        proof {
            use_type_invariant(self);
        }
        self.align
    }
}

/// The next step of an allocation: a call into mimalloc, or an answer that
/// needs none.
#[derive(Debug, Clone, Copy, PartialEq, Eq)]
pub enum AllocStep {
    Call(AllocRequest),
    Done(BlockPtr),
}

/// `mi_calloc_aligned(1, size, align)` on the process-wide heap; the block
/// covers `size` bytes.
pub open spec fn zeroed_request(size: usize, align: usize) -> AllocRequest {
    AllocRequest::spec_new(None, MiCall::CallocAligned { count: 1, size, align }, 1, size)
}

/// `mi_recalloc_aligned(ptr, 1, size, align)` on the process-wide heap; the
/// block covers `size` bytes.
pub open spec fn rezeroed_request(ptr: usize, size: usize, align: usize) -> AllocRequest {
    AllocRequest::spec_new(None, MiCall::RecallocAligned { ptr, new_count: 1, size, align }, 1, size)
}

/// The general purpose allocator asks the process-wide heap for one zeroed
/// element of the layout's size and alignment, and a successful allocation
/// yields a block of exactly that size; resizing asks for one zeroed element
/// of the new size at the block's address, yielding a block of the new size.
pub proof fn lemma_gpa_requests(ptr: usize, size: usize, align: usize)
    ensures
        zeroed_request(size, align).heap is None,
        zeroed_request(size, align).call == (MiCall::CallocAligned { count: 1, size, align }),
        zeroed_request(size, align).span_count * zeroed_request(size, align).span_size == size,
        rezeroed_request(ptr, size, align).heap is None,
        rezeroed_request(ptr, size, align).call == (MiCall::RecallocAligned { ptr, new_count: 1, size, align }),
        rezeroed_request(ptr, size, align).span_count * rezeroed_request(ptr, size, align).span_size == size,
{
}

/// `r` is what allocating `layout` takes: a zeroed block of `layout`'s size
/// and alignment from mimalloc, or, for a zero-sized layout, the empty block
/// at the address equal to the alignment (the first non-null address aligned
/// for it) without calling mimalloc.
pub open spec fn is_allocation_of(r: AllocStep, layout: Layout) -> bool {
    if layout@.0 > 0 {
        r == AllocStep::Call(zeroed_request(layout@.0, layout@.1))
    } else {
        r matches AllocStep::Done(b) && b@ == (layout@.1, 0usize)
    }
}

/// The empty block answered for a zero-sized layout is non-null and aligned
/// as the layout asks.
pub proof fn lemma_empty_allocation_aligned(r: AllocStep, layout: Layout)
    requires
        is_allocation_of(r, layout),
        layout@.0 == 0,
        is_pow2(layout@.1 as int),
    ensures
        r matches AllocStep::Done(b) && b@.0 != 0 && b@.0 % layout@.1 == 0 && b@.1 == 0,
{
    assert(layout@.1 > 0) by {
        reveal(is_pow2);
    }
}

/// The general purpose allocator backed by mimalloc.
#[derive(Debug, Clone, Copy, Default)]
pub struct MiMallocator;

impl MiMallocator {
    /// Allocates `layout`: a zeroed block from mimalloc, or, for a zero-sized
    /// layout, an empty block aligned for the layout (at the address equal to
    /// its alignment) without calling mimalloc.
    pub fn allocate(&self, layout: Layout) -> (r: AllocStep)
        ensures
            is_allocation_of(r, layout),
    {
        let size = layout.size();
        let align = layout.align();
        if size > 0 {
            AllocStep::Call(crate::mimalloc::calloc_aligned(1, size, align))
        } else {
            assert(align > 0) by {
                reveal(is_pow2);
            }
            AllocStep::Done(BlockPtr::new_non_null(align, 0))
        }
    }

    /// The same as [MiMallocator::allocate]: every allocation is zeroed.
    pub fn allocate_zeroed(&self, layout: Layout) -> (r: AllocStep)
        ensures
            is_allocation_of(r, layout),
    {
        self.allocate(layout)
    }

    /// The block to hand to `mi_free`: `ptr` for a non-empty layout, nothing
    /// for a zero-sized one (which was never allocated).
    pub fn deallocate(&self, ptr: AnyPtr, layout: Layout) -> (r: Option<usize>)
        ensures
            r == (if layout@.0 > 0 { Some(ptr@) } else { None::<usize> }),
    {
        if layout.size() > 0 {
            Some(ptr.addr())
        } else {
            None
        }
    }

    /// Grows the block at `ptr` to `new_layout`, zeroing the new bytes:
    /// `mi_recalloc_aligned(ptr, 1, new size, new align)`.
    pub fn grow(&self, ptr: AnyPtr, old_layout: Layout, new_layout: Layout) -> (r: AllocRequest)
        requires
            new_layout@.0 >= old_layout@.0,
        ensures
            r == rezeroed_request(ptr@, new_layout@.0, new_layout@.1),
    {
        crate::mimalloc::recalloc_aligned(ptr, 1, new_layout.size(), new_layout.align())
    }

    /// The same as [MiMallocator::grow].
    pub fn grow_zeroed(&self, ptr: AnyPtr, old_layout: Layout, new_layout: Layout) -> (r: AllocRequest)
        requires
            new_layout@.0 >= old_layout@.0,
        ensures
            r == rezeroed_request(ptr@, new_layout@.0, new_layout@.1),
    {
        self.grow(ptr, old_layout, new_layout)
    }

    /// Shrinks the block at `ptr` to `new_layout`:
    /// `mi_recalloc_aligned(ptr, 1, new size, new align)`.
    pub fn shrink(&self, ptr: AnyPtr, old_layout: Layout, new_layout: Layout) -> (r: AllocRequest)
        requires
            new_layout@.0 <= old_layout@.0,
        ensures
            r == rezeroed_request(ptr@, new_layout@.0, new_layout@.1),
    {
        crate::mimalloc::recalloc_aligned(ptr, 1, new_layout.size(), new_layout.align())
    }

    /// The global allocation of `layout`: as [MiMallocator::allocate]; a
    /// failed allocation aborts through the allocation error handler.
    pub fn global_alloc(&self, layout: Layout) -> (r: AllocStep)
        ensures
            is_allocation_of(r, layout),
    {
        self.allocate(layout)
    }

    /// The same as [MiMallocator::global_alloc].
    pub fn alloc_zeroed(&self, layout: Layout) -> (r: AllocStep)
        ensures
            is_allocation_of(r, layout),
    {
        self.global_alloc(layout)
    }

    /// The block to hand to `mi_free` when the global allocator releases the
    /// address `ptr`: nothing for a null address or a zero-sized layout.
    pub fn dealloc(&self, ptr: usize, layout: Layout) -> (r: Option<usize>)
        ensures
            r == (if ptr != 0 && layout@.0 > 0 { Some(ptr) } else { None::<usize> }),
    {
        match AnyPtr::new(ptr) {
            Some(p) => self.deallocate(p, layout),
            None => None,
        }
    }

    /// The global reallocation of the block at address `ptr` to `new_size`
    /// bytes: `mi_recalloc_aligned(ptr, 1, new_size, align)`; `None` for a
    /// null address, which aborts through the allocation error handler, as
    /// does a failed reallocation.
    pub fn realloc(&self, ptr: usize, layout: Layout, new_size: usize) -> (r: Option<AllocRequest>)
        ensures
            r == (if ptr != 0 { Some(rezeroed_request(ptr, new_size, layout@.1)) } else { None::<AllocRequest> }),
    {
        match AnyPtr::new(ptr) {
            Some(p) => Some(crate::mimalloc::recalloc_aligned(p, 1, new_size, layout.align())),
            None => None,
        }
    }
}

} // verus!
