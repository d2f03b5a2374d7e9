//! Blocks of an arena allocator: a header followed by the block's storage,
//! carved out of one allocation from a heap.

use vstd::prelude::*;
use vstd::layout::{size_of, valid_layout};
use crate::api::BlockPtr;
use crate::gpa::Layout;
use crate::heap::inner::malloc_aligned_request;
use crate::heap::owned::Heap;
use crate::mimalloc::AllocRequest;

verus! {

/// Bytes in front of an arena block's storage: the link to the previous block
/// and the count of used bytes.
pub open spec fn arena_header_size() -> nat {
    size_of::<Option<Box<[u8]>>>() + size_of::<i32>()
}

/// Alignment of every arena block.
pub const ARENA_BLOCK_ALIGN: usize = 8;

/// One block of an arena: the link to the block before it, the count of bytes
/// of its storage in use, and its storage.
#[derive(Debug)]
pub struct ArenaBlock {
    prev: Option<Box<ArenaBlock>>,
    used: i32,
    storage: BlockPtr,
}

/// An arena block to allocate: its layout and the heap call that yields it.
#[derive(Debug, Clone, Copy)]
pub struct NewArenaBlock {
    layout: Layout,
    request: AllocRequest,
    storage_size: usize,
}

impl NewArenaBlock {
    pub closed spec fn spec_layout(self) -> Layout {
        self.layout
    }

    pub closed spec fn spec_request(self) -> AllocRequest {
        self.request
    }

    pub closed spec fn spec_storage_size(self) -> usize {
        self.storage_size
    }

    /// The heap call to make.
    pub fn request(&self) -> (r: AllocRequest)
        ensures
            r == self.spec_request(),
    {
        self.request
    }

    /// The layout of the whole block.
    pub fn layout(&self) -> (r: Layout)
        ensures
            r == self.spec_layout(),
    {
        self.layout
    }

    /// The block at the address `raw` that the heap returned: its storage
    /// follows the header; nothing is in use yet and there is no previous
    /// block. A null answer is a failed allocation, which the caller reports.
    pub fn finish(self, raw: usize) -> (r: ArenaBlock)
        requires
            raw != 0,
            raw + arena_header_size() <= usize::MAX,
        ensures
            r.spec_storage()@ == ((raw + arena_header_size()) as usize, self.spec_storage_size()),
            r.spec_used() == 0,
            r.spec_prev() is None,
    {
        let header = arena_header_bytes();
        ArenaBlock { prev: None, used: 0, storage: BlockPtr::new_non_null(raw + header, self.storage_size) }
    }
}

/// [arena_header_size] as a machine integer.
fn arena_header_bytes() -> (r: usize)
    ensures
        r == arena_header_size(),
{
    vstd::layout::layout_for_type_is_valid::<Option<Box<[u8]>>>();
    vstd::layout::layout_for_type_is_valid::<i32>();
    core::mem::size_of::<Option<Box<[u8]>>>() + core::mem::size_of::<i32>()
}

impl ArenaBlock {
    pub closed spec fn spec_storage(self) -> BlockPtr {
        self.storage
    }

    pub closed spec fn spec_used(self) -> i32 {
        self.used
    }

    pub closed spec fn spec_prev(self) -> Option<Box<ArenaBlock>> {
        self.prev
    }

    /// A block with `storage_size` bytes of storage from `heap`: one
    /// allocation of the header plus the storage, aligned to
    /// [ARENA_BLOCK_ALIGN]. The whole size must make a valid layout.
    pub fn new(storage_size: usize, heap: &Heap) -> (r: NewArenaBlock)
        requires
            arena_header_size() + storage_size <= usize::MAX,
            valid_layout((arena_header_size() + storage_size) as usize, ARENA_BLOCK_ALIGN),
        ensures
            r.spec_layout()@ == ((arena_header_size() + storage_size) as usize, ARENA_BLOCK_ALIGN),
            r.spec_request() == malloc_aligned_request(
                heap.spec_handle(),
                (arena_header_size() + storage_size) as usize,
                ARENA_BLOCK_ALIGN,
            ),
            r.spec_storage_size() == storage_size,
    {
        let total = arena_header_bytes() + storage_size;
        let layout = Layout::new_valid(total, ARENA_BLOCK_ALIGN);
        let request = heap.allocate(layout);
        NewArenaBlock { layout, request, storage_size }
    }

    /// The block's storage.
    pub fn storage(&self) -> (r: BlockPtr)
        ensures
            r == self.spec_storage(),
    {
        self.storage
    }
}

} // verus!
