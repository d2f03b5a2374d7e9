//! The allocation calls made on a mimalloc heap.

use vstd::prelude::*;
use vstd::arithmetic::power2::is_pow2;
use crate::api::SmallAllocError;
use crate::heap::InnerHeap;
use crate::mimalloc::{AllocRequest, AnyPtr, MiCall, MIMALLOC_SMALL_SIZE_MAX, is_small};

verus! {

/// `mi_heap_malloc(heap, size)`; the block covers `size` bytes.
pub open spec fn malloc_request(heap: usize, size: usize) -> AllocRequest {
    AllocRequest::spec_new(Some(heap), MiCall::Malloc { size }, 1, size)
}

/// `mi_heap_malloc_aligned(heap, size, align)`; the block covers `size` bytes.
pub open spec fn malloc_aligned_request(heap: usize, size: usize, align: usize) -> AllocRequest {
    AllocRequest::spec_new(Some(heap), MiCall::MallocAligned { size, align }, 1, size)
}

/// `mi_heap_malloc_small(heap, size)` when `size` is small enough, else the
/// refusal [SmallAllocError::TooLarge].
pub open spec fn try_malloc_small_request(heap: usize, size: usize) -> Result<AllocRequest, SmallAllocError> {
    if is_small(size) {
        Ok(AllocRequest::spec_new(Some(heap), MiCall::MallocSmall { size }, 1, size))
    } else {
        Err(SmallAllocError::TooLarge)
    }
}

/// [try_malloc_small_request] with the reason of a refusal dropped.
pub open spec fn malloc_small_request(heap: usize, size: usize) -> Option<AllocRequest> {
    match try_malloc_small_request(heap, size) {
        Ok(q) => Some(q),
        Err(_) => None,
    }
}

/// `mi_heap_calloc(heap, count, size)`. The block is said to cover `size`
/// bytes, the size of one element, not `count * size`.
pub open spec fn calloc_request(heap: usize, count: usize, size: usize) -> AllocRequest {
    AllocRequest::spec_new(Some(heap), MiCall::Calloc { count, size }, 1, size)
}

/// `mi_heap_calloc_aligned(heap, count, size, align)`. The block is said to
/// cover `size` bytes, the size of one element, not `count * size`.
pub open spec fn calloc_aligned_request(heap: usize, count: usize, size: usize, align: usize) -> AllocRequest {
    AllocRequest::spec_new(Some(heap), MiCall::CallocAligned { count, size, align }, 1, size)
}

/// `mi_heap_recalloc(heap, ptr, new_count, size)`; the block covers
/// `new_count * size` bytes.
pub open spec fn recalloc_request(heap: usize, ptr: usize, new_count: usize, size: usize) -> AllocRequest {
    AllocRequest::spec_new(Some(heap), MiCall::Recalloc { ptr, new_count, size }, new_count, size)
}

/// `mi_heap_recalloc_aligned(heap, ptr, new_count, size, align)`; the block
/// covers `new_count * size` bytes.
pub open spec fn recalloc_aligned_request(heap: usize, ptr: usize, new_count: usize, size: usize, align: usize) -> AllocRequest {
    AllocRequest::spec_new(Some(heap), MiCall::RecallocAligned { ptr, new_count, size, align }, new_count, size)
}

/// `mi_heap_realloc(heap, ptr, new_size)`; the block covers `new_size` bytes.
pub open spec fn realloc_request(heap: usize, ptr: usize, new_size: usize) -> AllocRequest {
    AllocRequest::spec_new(Some(heap), MiCall::Realloc { ptr, new_size }, 1, new_size)
}

/// `mi_heap_realloc_aligned(heap, ptr, new_size, align)`; the block covers
/// `new_size` bytes.
pub open spec fn realloc_aligned_request(heap: usize, ptr: usize, new_size: usize, align: usize) -> AllocRequest {
    AllocRequest::spec_new(Some(heap), MiCall::ReallocAligned { ptr, new_size, align }, 1, new_size)
}

/// Every allocation call on a heap goes to that heap with the arguments it
/// was given, and a successful one yields a block of the bytes the call
/// promises: `size` for malloc, malloc_aligned and malloc_small, `size` (one
/// element) for calloc and calloc_aligned, `new_count * size` for recalloc and
/// recalloc_aligned, and `new_size` for realloc and realloc_aligned. A small
/// allocation is refused exactly when it is over the small-object limit.
pub proof fn lemma_heap_requests(heap: usize, ptr: usize, count: usize, size: usize, align: usize)
    ensures
        malloc_request(heap, size).heap == Some(heap) && malloc_request(heap, size).call == (MiCall::Malloc { size })
            && malloc_request(heap, size).span_count * malloc_request(heap, size).span_size == size,
        malloc_aligned_request(heap, size, align).heap == Some(heap)
            && malloc_aligned_request(heap, size, align).call == (MiCall::MallocAligned { size, align })
            && malloc_aligned_request(heap, size, align).span_count * malloc_aligned_request(heap, size, align).span_size
            == size,
        try_malloc_small_request(heap, size) is Err <==> size > MIMALLOC_SMALL_SIZE_MAX,
        try_malloc_small_request(heap, size) matches Err(e) ==> e == SmallAllocError::TooLarge,
        try_malloc_small_request(heap, size) matches Ok(q) ==> q.heap == Some(heap) && q.call == (MiCall::MallocSmall {
            size,
        }) && q.span_count * q.span_size == size,
        malloc_small_request(heap, size) is None <==> size > MIMALLOC_SMALL_SIZE_MAX,
        malloc_small_request(heap, size) matches Some(q) ==> try_malloc_small_request(heap, size) == Ok::<
            AllocRequest,
            SmallAllocError,
        >(q),
        calloc_request(heap, count, size).heap == Some(heap)
            && calloc_request(heap, count, size).call == (MiCall::Calloc { count, size })
            && calloc_request(heap, count, size).span_count * calloc_request(heap, count, size).span_size == size,
        calloc_aligned_request(heap, count, size, align).heap == Some(heap)
            && calloc_aligned_request(heap, count, size, align).call == (MiCall::CallocAligned { count, size, align })
            && calloc_aligned_request(heap, count, size, align).span_count * calloc_aligned_request(
            heap,
            count,
            size,
            align,
        ).span_size == size,
        recalloc_request(heap, ptr, count, size).heap == Some(heap)
            && recalloc_request(heap, ptr, count, size).call == (MiCall::Recalloc { ptr, new_count: count, size })
            && recalloc_request(heap, ptr, count, size).span_count * recalloc_request(heap, ptr, count, size).span_size
            == count * size,
        recalloc_aligned_request(heap, ptr, count, size, align).heap == Some(heap)
            && recalloc_aligned_request(heap, ptr, count, size, align).call == (MiCall::RecallocAligned {
                ptr,
                new_count: count,
                size,
                align,
            }) && recalloc_aligned_request(heap, ptr, count, size, align).span_count * recalloc_aligned_request(
            heap,
            ptr,
            count,
            size,
            align,
        ).span_size == count * size,
        realloc_request(heap, ptr, size).heap == Some(heap)
            && realloc_request(heap, ptr, size).call == (MiCall::Realloc { ptr, new_size: size })
            && realloc_request(heap, ptr, size).span_count * realloc_request(heap, ptr, size).span_size == size,
        realloc_aligned_request(heap, ptr, size, align).heap == Some(heap)
            && realloc_aligned_request(heap, ptr, size, align).call == (MiCall::ReallocAligned {
                ptr,
                new_size: size,
                align,
            }) && realloc_aligned_request(heap, ptr, size, align).span_count * realloc_aligned_request(
            heap,
            ptr,
            size,
            align,
        ).span_size == size,
{
}

impl InnerHeap {
    /// The heap's address.
    pub fn handle(&self) -> (r: usize)
        ensures
            r == self@,
            r != 0,
    {
        proof {
            use_type_invariant(self);
        }
        self.handle
    }

    /// The heap's address, as handed to mimalloc.
    pub fn handle_ptr(&self) -> (r: usize)
        ensures
            r == self@,
            r != 0,
    {
        self.handle()
    }

    pub fn malloc(&self, size: usize) -> (r: AllocRequest)
        ensures
            r == malloc_request(self@, size),
    {
        AllocRequest { heap: Some(self.handle_ptr()), call: MiCall::Malloc { size }, span_count: 1, span_size: size }
    }

    /// The alignment must be a power of two.
    pub fn malloc_aligned(&self, size: usize, align: usize) -> (r: AllocRequest)
        requires
            is_pow2(align as int),
        ensures
            r == malloc_aligned_request(self@, size, align),
    {
        AllocRequest {
            heap: Some(self.handle_ptr()),
            call: MiCall::MallocAligned { size, align },
            span_count: 1,
            span_size: size,
        }
    }

    pub fn malloc_small(&self, size: usize) -> (r: Option<AllocRequest>)
        ensures
            r == malloc_small_request(self@, size),
    {
        match self.try_malloc_small(size) {
            Ok(q) => Some(q),
            Err(_) => None,
        }
    }

    pub fn try_malloc_small(&self, size: usize) -> (r: Result<AllocRequest, SmallAllocError>)
        ensures
            r == try_malloc_small_request(self@, size),
    {
        if size <= MIMALLOC_SMALL_SIZE_MAX {
            Ok(AllocRequest { heap: Some(self.handle_ptr()), call: MiCall::MallocSmall { size }, span_count: 1, span_size: size })
        } else {
            Err(SmallAllocError::TooLarge)
        }
    }

    pub fn calloc(&self, count: usize, size: usize) -> (r: AllocRequest)
        ensures
            r == calloc_request(self@, count, size),
    {
        AllocRequest { heap: Some(self.handle_ptr()), call: MiCall::Calloc { count, size }, span_count: 1, span_size: size }
    }

    /// The alignment must be a power of two.
    pub fn calloc_aligned(&self, count: usize, size: usize, align: usize) -> (r: AllocRequest)
        requires
            is_pow2(align as int),
        ensures
            r == calloc_aligned_request(self@, count, size, align),
    {
        AllocRequest {
            heap: Some(self.handle_ptr()),
            call: MiCall::CallocAligned { count, size, align },
            span_count: 1,
            span_size: size,
        }
    }

    pub fn recalloc(&self, ptr: AnyPtr, new_count: usize, size: usize) -> (r: AllocRequest)
        ensures
            r == recalloc_request(self@, ptr@, new_count, size),
    {
        AllocRequest {
            heap: Some(self.handle_ptr()),
            call: MiCall::Recalloc { ptr: ptr.addr(), new_count, size },
            span_count: new_count,
            span_size: size,
        }
    }

    pub fn recalloc_aligned(&self, ptr: AnyPtr, new_count: usize, size: usize, align: usize) -> (r: AllocRequest)
        ensures
            r == recalloc_aligned_request(self@, ptr@, new_count, size, align),
    {
        AllocRequest {
            heap: Some(self.handle_ptr()),
            call: MiCall::RecallocAligned { ptr: ptr.addr(), new_count, size, align },
            span_count: new_count,
            span_size: size,
        }
    }

    pub fn realloc(&self, ptr: AnyPtr, new_size: usize) -> (r: AllocRequest)
        ensures
            r == realloc_request(self@, ptr@, new_size),
    {
        AllocRequest {
            heap: Some(self.handle_ptr()),
            call: MiCall::Realloc { ptr: ptr.addr(), new_size },
            span_count: 1,
            span_size: new_size,
        }
    }

    pub fn realloc_aligned(&self, ptr: AnyPtr, new_size: usize, align: usize) -> (r: AllocRequest)
        ensures
            r == realloc_aligned_request(self@, ptr@, new_size, align),
    {
        AllocRequest {
            heap: Some(self.handle_ptr()),
            call: MiCall::ReallocAligned { ptr: ptr.addr(), new_size, align },
            span_count: 1,
            span_size: new_size,
        }
    }

    /// `calloc(1, size)`.
    pub fn zalloc(&self, size: usize) -> (r: AllocRequest)
        ensures
            r == calloc_request(self@, 1, size),
    {
        self.calloc(1, size)
    }

    /// `calloc_aligned(1, size, align)`; the alignment must be a power of two.
    pub fn zalloc_aligned(&self, size: usize, align: usize) -> (r: AllocRequest)
        requires
            is_pow2(align as int),
        ensures
            r == calloc_aligned_request(self@, 1, size, align),
    {
        self.calloc_aligned(1, size, align)
    }

    /// `recalloc(ptr, 1, new_size)`.
    pub fn rezalloc(&self, ptr: AnyPtr, new_size: usize) -> (r: AllocRequest)
        ensures
            r == recalloc_request(self@, ptr@, 1, new_size),
    {
        self.recalloc(ptr, 1, new_size)
    }

    /// `recalloc_aligned(ptr, 1, new_size, align)`.
    pub fn rezalloc_aligned(&self, ptr: AnyPtr, new_size: usize, align: usize) -> (r: AllocRequest)
        ensures
            r == recalloc_aligned_request(self@, ptr@, 1, new_size, align),
    {
        self.recalloc_aligned(ptr, 1, new_size, align)
    }
}

} // verus!
