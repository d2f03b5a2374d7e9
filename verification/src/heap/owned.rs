//! Owned mimalloc heaps and their tags.

use vstd::prelude::*;
use vstd::arithmetic::power2::is_pow2;
use crate::api::SmallAllocError;
use crate::heap::InnerHeap;
use crate::heap::handle::HeapHandle;
use crate::heap::inner::{
    calloc_aligned_request, calloc_request, malloc_aligned_request, malloc_request, malloc_small_request,
    realloc_aligned_request, realloc_request, recalloc_aligned_request, recalloc_request,
    try_malloc_small_request,
};
use crate::gpa::Layout;
use crate::mimalloc::{AllocRequest, AnyPtr};

verus! {

/// The tag of a mimalloc heap: heaps with the same tag can reclaim memory from
/// one another. The first eight tags are numbered 0 to 7; any other number is
/// an extended tag.
#[derive(Default, Debug, Clone, Copy, PartialEq, Eq, PartialOrd, Ord, Hash)]
pub enum HeapTag {
    #[default]
    Default,
    String,
    Object,
    Constant,
    BlockA,
    BlockB,
    BlockC,
    BlockD,
    Extended(i32),
}

impl HeapTag {
    /// The tag numbered `val`.
    pub open spec fn spec_new(val: i32) -> HeapTag {
        if val == 0 {
            HeapTag::Default
        } else if val == 1 {
            HeapTag::String
        } else if val == 2 {
            HeapTag::Object
        } else if val == 3 {
            HeapTag::Constant
        } else if val == 4 {
            HeapTag::BlockA
        } else if val == 5 {
            HeapTag::BlockB
        } else if val == 6 {
            HeapTag::BlockC
        } else if val == 7 {
            HeapTag::BlockD
        } else {
            HeapTag::Extended(val)
        }
    }

    /// The number of the tag.
    pub open spec fn spec_as_i32(self) -> i32 {
        match self {
            HeapTag::Default => 0,
            HeapTag::String => 1,
            HeapTag::Object => 2,
            HeapTag::Constant => 3,
            HeapTag::BlockA => 4,
            HeapTag::BlockB => 5,
            HeapTag::BlockC => 6,
            HeapTag::BlockD => 7,
            HeapTag::Extended(n) => n,
        }
    }

    /// The tag numbered `val`: one of the eight named tags for 0 to 7, else
    /// `Extended(val)`.
    pub fn new(val: i32) -> (r: Self)
        ensures
            r == Self::spec_new(val),
    {
        match val {
            0 => HeapTag::Default,
            1 => HeapTag::String,
            2 => HeapTag::Object,
            3 => HeapTag::Constant,
            4 => HeapTag::BlockA,
            5 => HeapTag::BlockB,
            6 => HeapTag::BlockC,
            7 => HeapTag::BlockD,
            _ => HeapTag::Extended(val),
        }
    }

    /// The number of the tag.
    pub fn as_i32(&self) -> (r: i32)
        ensures
            r == self.spec_as_i32(),
    {
        match self {
            HeapTag::Default => 0,
            HeapTag::String => 1,
            HeapTag::Object => 2,
            HeapTag::Constant => 3,
            HeapTag::BlockA => 4,
            HeapTag::BlockB => 5,
            HeapTag::BlockC => 6,
            HeapTag::BlockD => 7,
            HeapTag::Extended(n) => *n,
        }
    }

    /// A tag as `new` builds it: an extended tag never carries one of the
    /// numbers 0 to 7.
    pub open spec fn is_canonical(self) -> bool {
        match self {
            HeapTag::Extended(n) => !(0 <= n <= 7),
            _ => true,
        }
    }
}

/// Numbering a tag undoes building it: `new(v).as_i32() == v` for every `v`,
/// and what `new` builds is canonical.
pub proof fn lemma_tag_number_roundtrip(val: i32)
    ensures
        HeapTag::spec_new(val).spec_as_i32() == val,
        HeapTag::spec_new(val).is_canonical(),
{
}

/// Building a tag from its number gives the tag back, for every canonical tag
/// (an `Extended(n)` with `n` in 0..=7 comes back as the named tag `n`).
pub proof fn lemma_tag_rebuild(tag: HeapTag)
    requires
        tag.is_canonical(),
    ensures
        HeapTag::spec_new(tag.spec_as_i32()) == tag,
{
}

/// What happens to a heap when it is dropped.
#[derive(Debug, Default, Clone, Copy, PartialEq, Eq, PartialOrd, Ord, Hash)]
enum HeapCleanup {
    /// `mi_heap_delete`: blocks still in use move to the backing heap.
    #[default]
    Recycle,
    /// `mi_heap_destroy`: every block of the heap is freed at once.
    Destroy,
}

/// The mimalloc call that creates a heap.
#[derive(Debug, Clone, Copy, PartialEq, Eq)]
pub enum HeapNewCall {
    /// `mi_heap_new()`
    New,
    /// `mi_heap_new_ex(tag, allow_destroy, no arena)`
    NewEx { tag: i32, allow_destroy: bool },
}

/// A heap to create: the call to make, and the tag and drop behaviour of the
/// heap it yields.
#[derive(Debug, Clone, Copy)]
pub struct NewHeap {
    call: HeapNewCall,
    tag: HeapTag,
    ty: HeapCleanup,
}

impl NewHeap {
    pub closed spec fn spec_call(self) -> HeapNewCall {
        self.call
    }

    pub closed spec fn spec_tag(self) -> HeapTag {
        self.tag
    }

    /// Whether the heap is destroyed (rather than recycled) when dropped.
    pub closed spec fn spec_destroys(self) -> bool {
        self.ty == HeapCleanup::Destroy
    }

    /// The mimalloc call to make.
    pub fn call(&self) -> (r: HeapNewCall)
        ensures
            r == self.spec_call(),
    {
        self.call
    }

    /// The heap at the address `raw` that the creating call returned; mimalloc
    /// answers null only when it cannot create a heap.
    pub fn finish(self, raw: usize) -> (r: Heap)
        requires
            raw != 0,
        ensures
            r.spec_handle() == raw,
            r.spec_tag() == self.spec_tag(),
            r.spec_destroys() == self.spec_destroys(),
    {
        Heap { ty: self.ty, inner: InnerHeap::from_address(raw), tag: self.tag }
    }
}

/// The mimalloc call that releases a heap.
#[derive(Debug, Clone, Copy, PartialEq, Eq)]
pub enum HeapRelease {
    /// `mi_heap_destroy(heap)`
    Destroy { heap: usize },
    /// `mi_heap_delete(heap)`
    Delete { heap: usize },
}

/// An owned mimalloc heap, with its tag and what happens to it when dropped.
#[derive(Debug, PartialEq, Eq, PartialOrd, Ord, Hash)]
pub struct Heap {
    ty: HeapCleanup,
    inner: InnerHeap,
    tag: HeapTag,
}

impl Heap {
    /// The heap's address.
    pub closed spec fn spec_handle(self) -> usize {
        self.inner@
    }

    pub closed spec fn spec_tag(self) -> HeapTag {
        self.tag
    }

    /// Whether the heap is destroyed (rather than recycled) when dropped.
    pub closed spec fn spec_destroys(self) -> bool {
        self.ty == HeapCleanup::Destroy
    }

    /// A plain recycled heap with the default tag: `mi_heap_new()`.
    pub fn new() -> (r: NewHeap)
        ensures
            r.spec_call() == HeapNewCall::New,
            r.spec_tag() == HeapTag::Default,
            !r.spec_destroys(),
    {
        NewHeap { call: HeapNewCall::New, tag: HeapTag::Default, ty: HeapCleanup::Recycle }
    }

    /// A heap with `tag` whose blocks still in use move to the backing heap
    /// when it is dropped: `mi_heap_new_ex(tag, false, no arena)`.
    pub fn recycle_with(tag: HeapTag) -> (r: NewHeap)
        ensures
            r.spec_call() == (HeapNewCall::NewEx { tag: tag.spec_as_i32(), allow_destroy: false }),
            r.spec_tag() == tag,
            !r.spec_destroys(),
    {
        Self::inner_new_ex(tag, HeapCleanup::Recycle)
    }

    /// A heap with `tag` whose blocks are all freed when it is dropped:
    /// `mi_heap_new_ex(tag, true, no arena)`. The default tag is refused, since
    /// destroying it would destroy the backing heap.
    pub fn destroy_with(tag: HeapTag) -> (r: NewHeap)
        requires
            tag != HeapTag::Default,
        ensures
            r.spec_call() == (HeapNewCall::NewEx { tag: tag.spec_as_i32(), allow_destroy: true }),
            r.spec_tag() == tag,
            r.spec_destroys(),
    {
        Self::inner_new_ex(tag, HeapCleanup::Destroy)
    }

    fn inner_new_ex(tag: HeapTag, ty: HeapCleanup) -> (r: NewHeap)
        ensures
            r.spec_call() == (HeapNewCall::NewEx { tag: tag.spec_as_i32(), allow_destroy: ty == HeapCleanup::Destroy }),
            r.spec_tag() == tag,
            r.spec_destroys() == (ty == HeapCleanup::Destroy),
    {
        let allow_destroy = match ty {
            HeapCleanup::Destroy => true,
            HeapCleanup::Recycle => false,
        };
        NewHeap { call: HeapNewCall::NewEx { tag: tag.as_i32(), allow_destroy }, tag, ty }
    }

    pub fn is_recycle(&self) -> (r: bool)
        ensures
            r == !self.spec_destroys(),
    {
        matches!(self.ty, HeapCleanup::Recycle)
    }

    /// The same as [Heap::is_recycle]: the heap is deleted (not destroyed)
    /// when dropped.
    pub fn is_delete(&self) -> (r: bool)
        ensures
            r == !self.spec_destroys(),
    {
        self.is_recycle()
    }

    pub fn is_destroy(&self) -> (r: bool)
        ensures
            r == self.spec_destroys(),
    {
        matches!(self.ty, HeapCleanup::Destroy)
    }

    /// The thread's backing heap, at the address `raw` that
    /// `mi_heap_get_backing()` returned; mimalloc keeps a backing heap for
    /// every thread, so the address is never null.
    pub fn get_backing(raw: usize) -> (r: HeapHandle)
        requires
            raw != 0,
        ensures
            r.spec_handle() == raw,
    {
        HeapHandle::from_handle(raw)
    }

    /// A handle to this heap.
    pub fn as_handle(&self) -> (r: HeapHandle)
        ensures
            r.spec_handle() == self.spec_handle(),
    {
        HeapHandle::from_inner(self.inner)
    }

    /// The call that releases the heap when it is dropped.
    pub fn release_call(&self) -> (r: HeapRelease)
        ensures
            r == (if self.spec_destroys() {
                HeapRelease::Destroy { heap: self.spec_handle() }
            } else {
                HeapRelease::Delete { heap: self.spec_handle() }
            }),
    {
        match self.ty {
            HeapCleanup::Destroy => HeapRelease::Destroy { heap: self.inner.handle_ptr() },
            HeapCleanup::Recycle => HeapRelease::Delete { heap: self.inner.handle_ptr() },
        }
    }

    pub fn malloc(&self, size: usize) -> (r: AllocRequest)
        ensures
            r == malloc_request(self.spec_handle(), size),
    {
        self.inner.malloc(size)
    }

    /// The alignment must be a power of two.
    pub fn malloc_aligned(&self, size: usize, align: usize) -> (r: AllocRequest)
        requires
            is_pow2(align as int),
        ensures
            r == malloc_aligned_request(self.spec_handle(), size, align),
    {
        self.inner.malloc_aligned(size, align)
    }

    pub fn malloc_small(&self, size: usize) -> (r: Option<AllocRequest>)
        ensures
            r == malloc_small_request(self.spec_handle(), size),
    {
        self.inner.malloc_small(size)
    }

    pub fn try_malloc_small(&self, size: usize) -> (r: Result<AllocRequest, SmallAllocError>)
        ensures
            r == try_malloc_small_request(self.spec_handle(), size),
    {
        self.inner.try_malloc_small(size)
    }

    pub fn calloc(&self, count: usize, size: usize) -> (r: AllocRequest)
        ensures
            r == calloc_request(self.spec_handle(), count, size),
    {
        self.inner.calloc(count, size)
    }

    /// The alignment must be a power of two.
    pub fn calloc_aligned(&self, count: usize, size: usize, align: usize) -> (r: AllocRequest)
        requires
            is_pow2(align as int),
        ensures
            r == calloc_aligned_request(self.spec_handle(), count, size, align),
    {
        self.inner.calloc_aligned(count, size, align)
    }

    pub fn recalloc(&self, ptr: AnyPtr, new_count: usize, size: usize) -> (r: AllocRequest)
        ensures
            r == recalloc_request(self.spec_handle(), ptr@, new_count, size),
    {
        self.inner.recalloc(ptr, new_count, size)
    }

    pub fn recalloc_aligned(&self, ptr: AnyPtr, new_count: usize, size: usize, align: usize) -> (r: AllocRequest)
        ensures
            r == recalloc_aligned_request(self.spec_handle(), ptr@, new_count, size, align),
    {
        self.inner.recalloc_aligned(ptr, new_count, size, align)
    }

    pub fn realloc(&self, ptr: AnyPtr, new_size: usize) -> (r: AllocRequest)
        ensures
            r == realloc_request(self.spec_handle(), ptr@, new_size),
    {
        self.inner.realloc(ptr, new_size)
    }

    pub fn realloc_aligned(&self, ptr: AnyPtr, new_size: usize, align: usize) -> (r: AllocRequest)
        ensures
            r == realloc_aligned_request(self.spec_handle(), ptr@, new_size, align),
    {
        self.inner.realloc_aligned(ptr, new_size, align)
    }

    /// `calloc(1, size)`.
    pub fn zalloc(&self, size: usize) -> (r: AllocRequest)
        ensures
            r == calloc_request(self.spec_handle(), 1, size),
    {
        self.inner.calloc(1, size)
    }

    /// `calloc_aligned(1, size, align)`; the alignment must be a power of two.
    pub fn zalloc_aligned(&self, size: usize, align: usize) -> (r: AllocRequest)
        requires
            is_pow2(align as int),
        ensures
            r == calloc_aligned_request(self.spec_handle(), 1, size, align),
    {
        self.inner.zalloc_aligned(size, align)
    }

    /// `recalloc(ptr, 1, new_size)`.
    pub fn rezalloc(&self, ptr: AnyPtr, new_size: usize) -> (r: AllocRequest)
        ensures
            r == recalloc_request(self.spec_handle(), ptr@, 1, new_size),
    {
        self.inner.recalloc(ptr, 1, new_size)
    }

    /// `recalloc_aligned(ptr, 1, new_size, align)`.
    pub fn rezalloc_aligned(&self, ptr: AnyPtr, new_size: usize, align: usize) -> (r: AllocRequest)
        ensures
            r == recalloc_aligned_request(self.spec_handle(), ptr@, 1, new_size, align),
    {
        self.inner.recalloc_aligned(ptr, 1, new_size, align)
    }

    /// Allocating `layout` as an allocator: `malloc_aligned(size, align)`.
    pub fn allocate(&self, layout: Layout) -> (r: AllocRequest)
        ensures
            r == malloc_aligned_request(self.spec_handle(), layout@.0, layout@.1),
    {
        self.inner.malloc_aligned(layout.size(), layout.align())
    }

    /// Allocating zeroed `layout` as an allocator: `calloc_aligned(1, size, align)`.
    pub fn allocate_zeroed(&self, layout: Layout) -> (r: AllocRequest)
        ensures
            r == calloc_aligned_request(self.spec_handle(), 1, layout@.0, layout@.1),
    {
        self.inner.calloc_aligned(1, layout.size(), layout.align())
    }

    /// Growing the block at `ptr` as an allocator: `realloc_aligned(ptr, new
    /// size, new align)`.
    pub fn grow(&self, ptr: AnyPtr, old_layout: Layout, new_layout: Layout) -> (r: AllocRequest)
        requires
            new_layout@.0 >= old_layout@.0,
        ensures
            r == realloc_aligned_request(self.spec_handle(), ptr@, new_layout@.0, new_layout@.1),
    {
        self.inner.realloc_aligned(ptr, new_layout.size(), new_layout.align())
    }

    /// Growing the block at `ptr` with zeroed new bytes as an allocator:
    /// `recalloc_aligned(ptr, 1, new size, new align)`.
    pub fn grow_zeroed(&self, ptr: AnyPtr, old_layout: Layout, new_layout: Layout) -> (r: AllocRequest)
        requires
            new_layout@.0 >= old_layout@.0,
        ensures
            r == recalloc_aligned_request(self.spec_handle(), ptr@, 1, new_layout@.0, new_layout@.1),
    {
        self.inner.recalloc_aligned(ptr, 1, new_layout.size(), new_layout.align())
    }

    /// Shrinking the block at `ptr` as an allocator:
    /// `recalloc_aligned(ptr, 1, new size, new align)`.
    pub fn shrink(&self, ptr: AnyPtr, old_layout: Layout, new_layout: Layout) -> (r: AllocRequest)
        requires
            new_layout@.0 <= old_layout@.0,
        ensures
            r == recalloc_aligned_request(self.spec_handle(), ptr@, 1, new_layout@.0, new_layout@.1),
    {
        self.inner.recalloc_aligned(ptr, 1, new_layout.size(), new_layout.align())
    }
}

} // verus!
