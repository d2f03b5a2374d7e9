//! Borrowed handles to mimalloc heaps.

use vstd::prelude::*;
use vstd::arithmetic::power2::is_pow2;
use crate::api::SmallAllocError;
use crate::heap::InnerHeap;
use crate::heap::inner::{
    calloc_aligned_request, calloc_request, malloc_aligned_request, malloc_request, malloc_small_request,
    realloc_aligned_request, realloc_request, recalloc_aligned_request, recalloc_request,
    try_malloc_small_request,
};
use crate::gpa::Layout;
use crate::mimalloc::{AllocRequest, AnyPtr};

verus! {

/// A handle to a mimalloc heap owned elsewhere (a [crate::heap::owned::Heap]
/// or mimalloc's backing heap). Handles are plain copies of the heap's
/// address; they make the same calls as the heap itself.
#[derive(Debug, Clone, Copy, PartialEq, Eq, PartialOrd, Ord, Hash)]
pub struct HeapHandle {
    ptr: InnerHeap,
}

impl HeapHandle {
    /// The heap's address.
    pub closed spec fn spec_handle(self) -> usize {
        self.ptr@
    }

    /// The handle of the heap at the non-null address `handle`.
    pub fn from_handle(handle: usize) -> (r: Self)
        requires
            handle != 0,
        ensures
            r.spec_handle() == handle,
    {
        HeapHandle { ptr: InnerHeap::from_address(handle) }
    }

    /// The handle of the heap `inner`.
    pub fn from_inner(inner: InnerHeap) -> (r: Self)
        ensures
            r.spec_handle() == inner@,
    {
        HeapHandle { ptr: inner }
    }

    /// The heap this handle refers to.
    pub fn inner(&self) -> (r: &InnerHeap)
        ensures
            r@ == self.spec_handle(),
    {
        &self.ptr
    }

    pub fn malloc(&self, size: usize) -> (r: AllocRequest)
        ensures
            r == malloc_request(self.spec_handle(), size),
    {
        self.inner().malloc(size)
    }

    /// The alignment must be a power of two.
    pub fn malloc_aligned(&self, size: usize, align: usize) -> (r: AllocRequest)
        requires
            is_pow2(align as int),
        ensures
            r == malloc_aligned_request(self.spec_handle(), size, align),
    {
        self.inner().malloc_aligned(size, align)
    }

    pub fn malloc_small(&self, size: usize) -> (r: Option<AllocRequest>)
        ensures
            r == malloc_small_request(self.spec_handle(), size),
    {
        self.inner().malloc_small(size)
    }

    pub fn try_malloc_small(&self, size: usize) -> (r: Result<AllocRequest, SmallAllocError>)
        ensures
            r == try_malloc_small_request(self.spec_handle(), size),
    {
        self.inner().try_malloc_small(size)
    }

    pub fn calloc(&self, count: usize, size: usize) -> (r: AllocRequest)
        ensures
            r == calloc_request(self.spec_handle(), count, size),
    {
        self.inner().calloc(count, size)
    }

    /// The alignment must be a power of two.
    pub fn calloc_aligned(&self, count: usize, size: usize, align: usize) -> (r: AllocRequest)
        requires
            is_pow2(align as int),
        ensures
            r == calloc_aligned_request(self.spec_handle(), count, size, align),
    {
        self.inner().calloc_aligned(count, size, align)
    }

    pub fn recalloc(&self, ptr: AnyPtr, new_count: usize, size: usize) -> (r: AllocRequest)
        ensures
            r == recalloc_request(self.spec_handle(), ptr@, new_count, size),
    {
        self.inner().recalloc(ptr, new_count, size)
    }

    pub fn recalloc_aligned(&self, ptr: AnyPtr, new_count: usize, size: usize, align: usize) -> (r: AllocRequest)
        ensures
            r == recalloc_aligned_request(self.spec_handle(), ptr@, new_count, size, align),
    {
        self.inner().recalloc_aligned(ptr, new_count, size, align)
    }

    pub fn realloc(&self, ptr: AnyPtr, new_size: usize) -> (r: AllocRequest)
        ensures
            r == realloc_request(self.spec_handle(), ptr@, new_size),
    {
        self.inner().realloc(ptr, new_size)
    }

    pub fn realloc_aligned(&self, ptr: AnyPtr, new_size: usize, align: usize) -> (r: AllocRequest)
        ensures
            r == realloc_aligned_request(self.spec_handle(), ptr@, new_size, align),
    {
        self.inner().realloc_aligned(ptr, new_size, align)
    }

    /// `calloc(1, size)`.
    pub fn zalloc(&self, size: usize) -> (r: AllocRequest)
        ensures
            r == calloc_request(self.spec_handle(), 1, size),
    {
        self.inner().calloc(1, size)
    }

    /// `calloc_aligned(1, size, align)`; the alignment must be a power of two.
    pub fn zalloc_aligned(&self, size: usize, align: usize) -> (r: AllocRequest)
        requires
            is_pow2(align as int),
        ensures
            r == calloc_aligned_request(self.spec_handle(), 1, size, align),
    {
        self.inner().zalloc_aligned(size, align)
    }

    /// `recalloc(ptr, 1, new_size)`.
    pub fn rezalloc(&self, ptr: AnyPtr, new_size: usize) -> (r: AllocRequest)
        ensures
            r == recalloc_request(self.spec_handle(), ptr@, 1, new_size),
    {
        self.inner().recalloc(ptr, 1, new_size)
    }

    /// `recalloc_aligned(ptr, 1, new_size, align)`.
    pub fn rezalloc_aligned(&self, ptr: AnyPtr, new_size: usize, align: usize) -> (r: AllocRequest)
        ensures
            r == recalloc_aligned_request(self.spec_handle(), ptr@, 1, new_size, align),
    {
        self.inner().recalloc_aligned(ptr, 1, new_size, align)
    }

    /// Allocating `layout` as an allocator: `malloc_aligned(size, align)`.
    pub fn allocate(&self, layout: Layout) -> (r: AllocRequest)
        ensures
            r == malloc_aligned_request(self.spec_handle(), layout@.0, layout@.1),
    {
        self.inner().malloc_aligned(layout.size(), layout.align())
    }

    /// Allocating zeroed `layout` as an allocator: `calloc_aligned(1, size, align)`.
    pub fn allocate_zeroed(&self, layout: Layout) -> (r: AllocRequest)
        ensures
            r == calloc_aligned_request(self.spec_handle(), 1, layout@.0, layout@.1),
    {
        self.inner().calloc_aligned(1, layout.size(), layout.align())
    }

    /// Growing the block at `ptr` as an allocator: `realloc_aligned(ptr, new
    /// size, new align)`.
    pub fn grow(&self, ptr: AnyPtr, old_layout: Layout, new_layout: Layout) -> (r: AllocRequest)
        requires
            new_layout@.0 >= old_layout@.0,
        ensures
            r == realloc_aligned_request(self.spec_handle(), ptr@, new_layout@.0, new_layout@.1),
    {
        self.inner().realloc_aligned(ptr, new_layout.size(), new_layout.align())
    }

    /// Growing the block at `ptr` with zeroed new bytes as an allocator:
    /// `recalloc_aligned(ptr, 1, new size, new align)`.
    pub fn grow_zeroed(&self, ptr: AnyPtr, old_layout: Layout, new_layout: Layout) -> (r: AllocRequest)
        requires
            new_layout@.0 >= old_layout@.0,
        ensures
            r == recalloc_aligned_request(self.spec_handle(), ptr@, 1, new_layout@.0, new_layout@.1),
    {
        self.inner().recalloc_aligned(ptr, 1, new_layout.size(), new_layout.align())
    }

    /// Shrinking the block at `ptr` as an allocator:
    /// `recalloc_aligned(ptr, 1, new size, new align)`.
    pub fn shrink(&self, ptr: AnyPtr, old_layout: Layout, new_layout: Layout) -> (r: AllocRequest)
        requires
            new_layout@.0 <= old_layout@.0,
        ensures
            r == recalloc_aligned_request(self.spec_handle(), ptr@, 1, new_layout@.0, new_layout@.1),
    {
        self.inner().recalloc_aligned(ptr, 1, new_layout.size(), new_layout.align())
    }
}

} // verus!
