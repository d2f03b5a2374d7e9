//! Memory chunk descriptors handed out by the blight system allocators.
//!
//! A pointer to a block of memory is described by its start address and its
//! length in bytes ([BlockPtr]); the address is never zero.

use vstd::prelude::*;
use vstd::arithmetic::power2::is_pow2;
use crate::mimalloc::AnyPtr;

verus! {

/// A non-null pointer to a run of bytes: the start address and the length.
#[derive(Debug, Clone, Copy, PartialEq, Eq)]
pub struct BlockPtr {
    addr: usize,
    len: usize,
}

impl View for BlockPtr {
    /// `(start address, length in bytes)`.
    type V = (usize, usize);

    closed spec fn view(&self) -> (usize, usize) {
        (self.addr, self.len)
    }
}

/// `r` is what building a block pointer from the raw address `raw` and the
/// length `len` gives: nothing for a null address, else that block.
pub open spec fn block_from_raw(r: Option<BlockPtr>, raw: usize, len: int) -> bool {
    match r {
        Some(b) => raw != 0 && b@.0 == raw && b@.1 == len,
        None => raw == 0,
    }
}

impl BlockPtr {
    #[verifier::type_invariant]
    spec fn non_null(self) -> bool {
        self.addr != 0
    }

    /// Builds a pointer to `len` bytes at `addr`; `None` when `addr` is null.
    pub fn from_raw_parts(addr: usize, len: usize) -> (r: Option<BlockPtr>)
        ensures
            block_from_raw(r, addr, len as int),
    {
        if addr == 0 {
            None
        } else {
            Some(BlockPtr { addr, len })
        }
    }

    /// The pointer to `len` bytes at the non-null address `addr`.
    pub fn new_non_null(addr: usize, len: usize) -> (r: BlockPtr)
        requires
            addr != 0,
        ensures
            r@ == (addr, len),
    {
        BlockPtr { addr, len }
    }

    /// The well-aligned, never-dereferenced pointer to an empty run of bytes
    /// (address 1, length 0).
    pub fn dangling() -> (r: BlockPtr)
        ensures
            r@ == (1usize, 0usize),
    {
        BlockPtr { addr: 1, len: 0 }
    }

    /// Start address; never zero.
    pub fn addr(&self) -> (r: usize)
        ensures
            r == self@.0,
            r != 0,
    {
        proof {
            use_type_invariant(self);
        }
        self.addr
    }

    /// Length in bytes.
    pub fn len(&self) -> (r: usize)
        ensures
            r == self@.1,
    {
        self.len
    }
}

/// The view of an optional block pointer.
pub open spec fn opt_view(r: Option<BlockPtr>) -> Option<(usize, usize)> {
    match r {
        Some(b) => Some(b@),
        None => None,
    }
}

/// Whether a block of `block_size` bytes that starts at `p` can be handed out
/// once aligned to `align`: it is empty, or its aligned start still lies inside
/// it.
pub open spec fn block_fits(p: int, align: int, block_size: int) -> bool {
    block_size == 0 || align_gap(p, align) < block_size
}

/// Bytes that must be skipped from address `p` to reach a multiple of `align`.
pub open spec fn align_gap(p: int, align: int) -> int {
    if p % align == 0 {
        0
    } else {
        align - p % align
    }
}

/// A chunk of memory returned by a blight system allocator: either one scalar
/// block, or `count` blocks of `block_size` bytes each.
///
/// The chunk does not own its memory: releasing it is up to the user.
#[derive(Debug, Clone, Copy)]
pub enum MemoryChunk {
    Scalar {
        /// The whole chunk.
        ptr: BlockPtr,
        /// Alignment of the chunk (1 when none was asked for).
        alignment: usize,
    },
    Blocks {
        /// The whole chunk, its blocks included.
        ptr: BlockPtr,
        /// Size in bytes of each block.
        block_size: usize,
        /// Number of blocks.
        count: usize,
        /// Alignment of the blocks (1 when none was asked for).
        alignment: usize,
    },
}

impl MemoryChunk {
    /// The pointer of the whole chunk.
    pub open spec fn spec_block_ptr(self) -> BlockPtr {
        match self {
            MemoryChunk::Scalar { ptr, .. } => ptr,
            MemoryChunk::Blocks { ptr, .. } => ptr,
        }
    }

    /// Block size; 0 for a scalar chunk.
    pub open spec fn spec_block_size(self) -> usize {
        match self {
            MemoryChunk::Scalar { .. } => 0,
            MemoryChunk::Blocks { block_size, .. } => block_size,
        }
    }

    /// Block count; 0 for a scalar chunk.
    pub open spec fn spec_count(self) -> usize {
        match self {
            MemoryChunk::Scalar { .. } => 0,
            MemoryChunk::Blocks { count, .. } => count,
        }
    }

    pub open spec fn spec_alignment(self) -> usize {
        match self {
            MemoryChunk::Scalar { alignment, .. } => alignment,
            MemoryChunk::Blocks { alignment, .. } => alignment,
        }
    }

    /// A scalar chunk of bytes with no alignment requirement.
    pub fn bytes(ptr: BlockPtr) -> (r: Self)
        ensures
            r == (MemoryChunk::Scalar { ptr, alignment: 1 }),
    {
        MemoryChunk::Scalar { ptr, alignment: 1 }
    }

    /// A scalar chunk of bytes aligned to `alignment`.
    pub fn bytes_aligned(ptr: BlockPtr, alignment: usize) -> (r: Self)
        ensures
            r == (MemoryChunk::Scalar { ptr, alignment }),
    {
        MemoryChunk::Scalar { ptr, alignment }
    }

    /// `count` blocks of `block_size` bytes with no alignment requirement.
    pub fn blocks_bytes(ptr: BlockPtr, block_size: usize, count: usize) -> (r: Self)
        ensures
            r == (MemoryChunk::Blocks { ptr, block_size, count, alignment: 1 }),
    {
        MemoryChunk::Blocks { ptr, block_size, count, alignment: 1 }
    }

    /// `count` blocks of `block_size` bytes aligned to `alignment`.
    pub fn blocks_bytes_aligned(ptr: BlockPtr, block_size: usize, count: usize, alignment: usize) -> (r: Self)
        ensures
            r == (MemoryChunk::Blocks { ptr, block_size, count, alignment }),
    {
        MemoryChunk::Blocks { ptr, block_size, count, alignment }
    }

    /// `count` blocks sized and aligned for values of `T`.
    pub fn blocks<T>(ptr: BlockPtr, count: usize) -> (r: Self)
        ensures
            r == (MemoryChunk::Blocks {
                ptr,
                block_size: vstd::layout::size_of::<T>() as usize,
                count,
                alignment: vstd::layout::align_of::<T>() as usize,
            }),
    {
        MemoryChunk::Blocks {
            ptr,
            block_size: core::mem::size_of::<T>(),
            count,
            alignment: core::mem::align_of::<T>(),
        }
    }

    /// A scalar chunk holding exactly one value of `T`; the pointer must be
    /// exactly as long as `T`.
    pub fn scalar<T>(ptr: BlockPtr) -> (r: Self)
        requires
            ptr@.1 == vstd::layout::size_of::<T>(),
        ensures
            r == (MemoryChunk::Scalar { ptr, alignment: vstd::layout::align_of::<T>() as usize }),
    {
        MemoryChunk::Scalar { ptr, alignment: core::mem::align_of::<T>() }
    }

    /// Size of each block; 0 for a scalar chunk.
    pub fn block_size(&self) -> (r: usize)
        ensures
            r == self.spec_block_size(),
    {
        match self {
            MemoryChunk::Scalar { .. } => 0,
            MemoryChunk::Blocks { block_size, .. } => *block_size,
        }
    }

    /// The pointer of the whole chunk.
    pub fn block_ptr(&self) -> (r: BlockPtr)
        ensures
            r == self.spec_block_ptr(),
    {
        match self {
            MemoryChunk::Scalar { ptr, .. } => *ptr,
            MemoryChunk::Blocks { ptr, .. } => *ptr,
        }
    }

    /// Start address of the chunk.
    pub fn ptr(&self) -> (r: usize)
        ensures
            r == self.spec_block_ptr()@.0,
            r != 0,
    {
        self.block_ptr().addr()
    }

    /// Number of blocks; 0 for a scalar chunk.
    pub fn count(&self) -> (r: usize)
        ensures
            r == self.spec_count(),
    {
        match self {
            MemoryChunk::Scalar { .. } => 0,
            MemoryChunk::Blocks { count, .. } => *count,
        }
    }

    /// Alignment of the chunk.
    pub fn alignment(&self) -> (r: usize)
        ensures
            r == self.spec_alignment(),
    {
        match self {
            MemoryChunk::Scalar { alignment, .. } => *alignment,
            MemoryChunk::Blocks { alignment, .. } => *alignment,
        }
    }

    pub fn is_scalar(&self) -> (r: bool)
        ensures
            r == (*self is Scalar),
    {
        matches!(self, MemoryChunk::Scalar { .. })
    }

    pub fn is_blocks(&self) -> (r: bool)
        ensures
            r == (*self is Blocks),
    {
        !self.is_scalar()
    }

    /// Start address of block `index`, before aligning it.
    pub open spec fn raw_block_start(self, index: usize) -> int {
        self.spec_block_ptr()@.0 + index * self.spec_block_size()
    }

    /// What `block_at(index)` needs: an alignment that is a power of two and
    /// block addresses that stay inside the address space.
    pub open spec fn block_at_ok(self, index: usize) -> bool {
        match self {
            MemoryChunk::Scalar { .. } => true,
            MemoryChunk::Blocks { block_size, count, alignment, .. } => index < count ==> {
                let p = self.raw_block_start(index);
                &&& is_pow2(alignment as int)
                &&& p <= usize::MAX
                &&& block_fits(p, alignment as int, block_size as int) ==> p + align_gap(p, alignment as int) <= usize::MAX
            },
        }
    }

    /// The view of what `block_at(index)` returns: `(start address, length)`.
    pub open spec fn block_at_view(self, index: usize) -> Option<(usize, usize)> {
        match self {
            MemoryChunk::Scalar { ptr, .. } => Some(ptr@),
            MemoryChunk::Blocks { block_size, count, alignment, .. } => {
                let p = self.raw_block_start(index);
                let gap = align_gap(p, alignment as int);
                if index < count && block_fits(p, alignment as int, block_size as int) {
                    Some(((p + gap) as usize, block_size))
                } else {
                    None
                }
            },
        }
    }

    /// The pointer to block `index`.
    ///
    /// For a scalar chunk this is the whole chunk, whatever `index` is. For a
    /// chunk of blocks it is the block that starts at `ptr + index * block_size`,
    /// moved forward to the next multiple of the alignment. A zero-sized block
    /// is always handed out (empty, at that aligned address); a non-empty one
    /// only when its aligned start still lies inside it. `None` when it does
    /// not, or when `index >= count`.
    pub fn block_at(&self, index: usize) -> (r: Option<BlockPtr>)
        requires
            self.block_at_ok(index),
        ensures
            opt_view(r) == self.block_at_view(index),
            *self is Scalar ==> r == Some(self.spec_block_ptr()),
    {
        match self {
            MemoryChunk::Scalar { ptr, .. } => Some(*ptr),
            MemoryChunk::Blocks { ptr, block_size, count, alignment } => {
                if index < *count {
                    let base = ptr.addr();
                    let block_size = *block_size;
                    let alignment = *alignment;
                    assert(alignment > 0) by {
                        reveal(is_pow2);
                    }
                    assert(index * block_size <= usize::MAX - base);
                    let p = base + index * block_size;
                    let rem = p % alignment;
                    let gap = if rem == 0 { 0 } else { alignment - rem };
                    if gap < block_size || block_size == 0 {
                        BlockPtr::from_raw_parts(p + gap, block_size)
                    } else {
                        None
                    }
                } else {
                    None
                }
            },
        }
    }
}


/// Moving forward by `align_gap` lands on a multiple of `align`, and the gap is
/// always less than `align`.
pub proof fn lemma_align_gap(p: int, align: int)
    requires
        0 <= p,
        0 < align,
    ensures
        0 <= align_gap(p, align) < align,
        (p + align_gap(p, align)) % align == 0,
{
    vstd::arithmetic::div_mod::lemma_fundamental_div_mod(p, align);
    vstd::arithmetic::div_mod::lemma_mod_pos_bound(p, align);
    let q = p / align;
    if p % align == 0 {
        assert(p == align * q);
        vstd::arithmetic::mul::lemma_mul_is_commutative(align, q);
        vstd::arithmetic::div_mod::lemma_mod_multiples_basic(q, align);
    } else {
        assert(p + align_gap(p, align) == align * q + align);
        assert(align * q + align == (q + 1) * align) by (nonlinear_arith);
        vstd::arithmetic::div_mod::lemma_mod_multiples_basic(q + 1, align);
    }
}

/// A block that `block_at` hands out from a chunk of blocks starts at a
/// multiple of the chunk's alignment, less than one alignment past the
/// unaligned start of block `index` and, for a non-empty block, before its
/// end; it is exactly `block_size` bytes long. Every in-range zero-sized block
/// is handed out; past the last block there is none.
pub proof fn lemma_block_at_aligned(chunk: MemoryChunk, index: usize)
    requires
        chunk is Blocks,
        chunk.block_at_ok(index),
    ensures
        chunk.block_at_view(index) matches Some((a, l)) ==> {
            &&& a as int % chunk.spec_alignment() as int == 0
            &&& chunk.raw_block_start(index) <= a < chunk.raw_block_start(index) + chunk.spec_alignment()
            &&& chunk.spec_block_size() > 0 ==> a < chunk.raw_block_start(index) + chunk.spec_block_size()
            &&& l == chunk.spec_block_size()
        },
        index < chunk.spec_count() && chunk.spec_block_size() == 0 ==> chunk.block_at_view(index) is Some,
        index >= chunk.spec_count() ==> chunk.block_at_view(index) is None,
{
    if index < chunk.spec_count() {
        let align = chunk.spec_alignment() as int;
        assert(align > 0) by {
            reveal(is_pow2);
        }
        let p = chunk.raw_block_start(index);
        assert(0 <= index * chunk.spec_block_size()) by (nonlinear_arith);
        lemma_align_gap(p, align);
    }
}

/// Whether `q` is a multiple of `m`.
pub open spec fn is_multiple_of(q: int, m: int) -> bool {
    q % m == 0
}

/// Any multiple of `align` at or after `p` lies at least `align_gap(p, align)`
/// past `p`: the gap leads to the first such multiple.
pub proof fn lemma_first_multiple(p: int, align: int, q: int)
    requires
        0 <= p <= q,
        0 < align,
        is_multiple_of(q, align),
    ensures
        q >= p + align_gap(p, align),
{
    vstd::arithmetic::div_mod::lemma_fundamental_div_mod(p, align);
    vstd::arithmetic::div_mod::lemma_fundamental_div_mod(q, align);
    vstd::arithmetic::div_mod::lemma_mod_pos_bound(p, align);
    let m = p / align;
    let k = q / align;
    let r = p % align;
    if r != 0 {
        assert(q == align * k);
        assert(p == align * m + r);
        assert(k > m) by (nonlinear_arith)
            requires
                align * k >= align * m + r,
                r > 0,
                align > 0,
        ;
        assert(align * k >= align * m + align) by (nonlinear_arith)
            requires
                k >= m + 1,
                align > 0,
        ;
    }
}

/// Block `index` of a chunk of blocks, when in range, is handed out exactly
/// when it is empty or some multiple of the alignment lies inside it, and then
/// at the first multiple of the alignment at or after its start, with the
/// block's length. In particular a block whose start is already aligned is
/// handed out at its start.
pub proof fn lemma_block_at_exact(chunk: MemoryChunk, index: usize)
    requires
        chunk is Blocks,
        chunk.block_at_ok(index),
        index < chunk.spec_count(),
    ensures
        ({
            let p = chunk.spec_block_ptr()@.0 + index * chunk.spec_block_size();
            let bs = chunk.spec_block_size() as int;
            let al = chunk.spec_alignment() as int;
            &&& chunk.block_at_view(index) is Some <==> (bs == 0 || exists|q: int|
                p <= q < p + bs && #[trigger] is_multiple_of(q, al))
            &&& is_multiple_of(p, al) ==> chunk.block_at_view(index) == Some((p as usize, bs as usize))
            &&& chunk.block_at_view(index) matches Some((a, l)) ==> {
                &&& is_multiple_of(a as int, al)
                &&& p <= a
                &&& forall|q: int| p <= q < a ==> !#[trigger] is_multiple_of(q, al)
                &&& l == bs
            }
        }),
{
    let p = chunk.spec_block_ptr()@.0 + index * chunk.spec_block_size();
    let bs = chunk.spec_block_size() as int;
    let al = chunk.spec_alignment() as int;
    assert(al > 0) by {
        reveal(is_pow2);
    }
    assert(0 <= index * chunk.spec_block_size()) by (nonlinear_arith);
    assert(p == chunk.raw_block_start(index));
    lemma_align_gap(p, al);
    let gap = align_gap(p, al);
    if bs > 0 && gap < bs {
        assert(is_multiple_of(p + gap, al));
    }
    if exists|q: int| p <= q < p + bs && #[trigger] is_multiple_of(q, al) {
        let q = choose|q: int| p <= q < p + bs && #[trigger] is_multiple_of(q, al);
        lemma_first_multiple(p, al, q);
    }
    assert forall|q: int| p <= q < p + gap implies !#[trigger] is_multiple_of(q, al) by {
        if is_multiple_of(q, al) {
            lemma_first_multiple(p, al, q);
        }
    }
    if is_multiple_of(p, al) {
        assert(gap == 0);
    }
}

/// When the block size is a multiple of the alignment, every block needs the
/// same alignment gap: either no block `block_at` can hand out fits, or the
/// blocks it hands out lie exactly `block_size` bytes apart, so they never
/// overlap.
pub proof fn lemma_blocks_evenly_spaced(chunk: MemoryChunk, i: usize, j: usize)
    requires
        chunk is Blocks,
        chunk.block_at_ok(i),
        chunk.block_at_ok(j),
        i <= j < chunk.spec_count(),
        chunk.spec_block_size() as int % chunk.spec_alignment() as int == 0,
    ensures
        chunk.block_at_view(i) is Some <==> chunk.block_at_view(j) is Some,
        chunk.block_at_view(i) matches Some((ai, _)) ==> (chunk.block_at_view(j) matches Some((aj, _))
            && aj - ai == (j - i) * chunk.spec_block_size()),
{
    let a = chunk.spec_alignment() as int;
    let bs = chunk.spec_block_size() as int;
    assert(a > 0) by {
        reveal(is_pow2);
    }
    let pi = chunk.raw_block_start(i);
    let pj = chunk.raw_block_start(j);
    vstd::arithmetic::div_mod::lemma_fundamental_div_mod(bs, a);
    let t = bs / a;
    assert(bs == a * t);
    let k = (j - i) as int;
    assert(pj == pi + k * bs) by (nonlinear_arith)
        requires
            pi == chunk.spec_block_ptr()@.0 + i * bs,
            pj == chunk.spec_block_ptr()@.0 + j * bs,
            k == j - i,
    ;
    assert(k * bs == a * (k * t)) by (nonlinear_arith)
        requires
            bs == a * t,
    ;
    assert(0 <= i * bs) by (nonlinear_arith)
        requires
            0 <= i,
            0 <= bs,
    ;
    vstd::arithmetic::div_mod::lemma_mod_multiples_vanish(k * t, pi, a);
    assert(pj % a == pi % a);
}

/// The constructors and the getters agree: every field put in comes back out,
/// scalar chunks report no blocks, and a chunk is exactly one of scalar or blocks.
pub proof fn lemma_chunk_fields(ptr: BlockPtr, block_size: usize, count: usize, alignment: usize)
    ensures
        ({
            let c = MemoryChunk::Blocks { ptr, block_size, count, alignment };
            &&& c.spec_block_ptr() == ptr
            &&& c.spec_block_size() == block_size
            &&& c.spec_count() == count
            &&& c.spec_alignment() == alignment
        }),
        ({
            let c = MemoryChunk::Scalar { ptr, alignment };
            &&& c.spec_block_ptr() == ptr
            &&& c.spec_block_size() == 0
            &&& c.spec_count() == 0
            &&& c.spec_alignment() == alignment
        }),
{
}

/// The address of an optional pointer: `Some(address)` or `None`.
pub open spec fn opt_addr(p: Option<AnyPtr>) -> Option<usize> {
    match p {
        Some(q) => Some(q@),
        None => None,
    }
}

/// An answer to an allocation of `count` elements of `size` bytes: none when
/// `count * size` overflows, and otherwise, if any, a chunk of at least
/// `count * size` bytes.
pub open spec fn covers_request(count: usize, size: usize, r: Option<MemoryChunk>) -> bool {
    &&& count * size > usize::MAX ==> r is None
    &&& r matches Some(c) ==> c.spec_block_ptr()@.1 >= count * size
}

/// A system allocator with a C-style malloc/calloc, realloc/recalloc and free
/// API. Every allocation is funnelled through the four required
/// `(z)allocate_chunk(_aligned)` methods; the others pass their request on.
///
/// Like C's `reallocarray`, each allocation is of `count` elements of `size`
/// bytes, resizes the block at the given address when there is one, and
/// answers `None` when it fails; a successful answer covers at least
/// `count * size` bytes, and a `count * size` that overflows always fails.
/// The `free` methods give the address to hand to mimalloc's `mi_free`.
pub trait SystemAllocator {
    /// Whether `r` is an answer this allocator may give to an allocation of
    /// `count` elements of `size` bytes, zeroed or not, resizing the block at
    /// `resize` if there is one, aligned to `align` if one is given; each
    /// implementation says which answers it gives.
    spec fn chunk_answer(
        &self,
        zeroed: bool,
        resize: Option<usize>,
        count: usize,
        size: usize,
        align: Option<usize>,
        r: Option<MemoryChunk>,
    ) -> bool;

    fn allocate_chunk(&self, resize_ptr: Option<AnyPtr>, block_count: usize, size: usize) -> (r: Option<MemoryChunk>)
        ensures
            self.chunk_answer(false, opt_addr(resize_ptr), block_count, size, None, r),
            covers_request(block_count, size, r),
    ;

    fn zallocate_chunk(&self, resize_ptr: Option<AnyPtr>, block_count: usize, size: usize) -> (r: Option<MemoryChunk>)
        ensures
            self.chunk_answer(true, opt_addr(resize_ptr), block_count, size, None, r),
            covers_request(block_count, size, r),
    ;

    fn allocate_chunk_aligned(
        &self,
        resize_ptr: Option<AnyPtr>,
        block_count: usize,
        size: usize,
        align: usize,
    ) -> (r: Option<MemoryChunk>)
        ensures
            self.chunk_answer(false, opt_addr(resize_ptr), block_count, size, Some(align), r),
            covers_request(block_count, size, r),
    ;

    fn zallocate_chunk_aligned(&self, ptr: Option<AnyPtr>, count: usize, size: usize, align: usize)
        -> (r: Option<MemoryChunk>)
        ensures
            self.chunk_answer(true, opt_addr(ptr), count, size, Some(align), r),
            covers_request(count, size, r),
    ;

    /// `allocate_chunk(None, 1, size)`.
    fn malloc(&self, size: usize) -> (r: Option<MemoryChunk>)
        ensures
            self.chunk_answer(false, None, 1, size, None, r),
            covers_request(1, size, r),
    {
        self.allocate_chunk(None, 1, size)
    }

    /// `allocate_chunk_aligned(None, 1, size, align)`.
    fn malloc_aligned(&self, size: usize, align: usize) -> (r: Option<MemoryChunk>)
        ensures
            self.chunk_answer(false, None, 1, size, Some(align), r),
            covers_request(1, size, r),
    {
        self.allocate_chunk_aligned(None, 1, size, align)
    }

    /// `zallocate_chunk(None, count, size)`.
    fn calloc(&self, count: usize, size: usize) -> (r: Option<MemoryChunk>)
        ensures
            self.chunk_answer(true, None, count, size, None, r),
            covers_request(count, size, r),
    {
        self.zallocate_chunk(None, count, size)
    }

    /// `zallocate_chunk_aligned(None, count, size, align)`.
    fn calloc_aligned(&self, count: usize, size: usize, align: usize) -> (r: Option<MemoryChunk>)
        ensures
            self.chunk_answer(true, None, count, size, Some(align), r),
            covers_request(count, size, r),
    {
        self.zallocate_chunk_aligned(None, count, size, align)
    }

    /// `zallocate_chunk(Some(ptr), new_count, size)`.
    fn recalloc(&self, ptr: AnyPtr, new_count: usize, size: usize) -> (r: Option<MemoryChunk>)
        ensures
            self.chunk_answer(true, Some(ptr@), new_count, size, None, r),
            covers_request(new_count, size, r),
    {
        self.zallocate_chunk(Some(ptr), new_count, size)
    }

    /// `zallocate_chunk_aligned(Some(ptr), new_count, size, align)`.
    fn recalloc_aligned(&self, ptr: AnyPtr, new_count: usize, size: usize, align: usize) -> (r: Option<MemoryChunk>)
        ensures
            self.chunk_answer(true, Some(ptr@), new_count, size, Some(align), r),
            covers_request(new_count, size, r),
    {
        self.zallocate_chunk_aligned(Some(ptr), new_count, size, align)
    }

    /// `allocate_chunk(Some(ptr), 1, new_size)`.
    fn realloc(&self, ptr: AnyPtr, new_size: usize) -> (r: Option<MemoryChunk>)
        ensures
            self.chunk_answer(false, Some(ptr@), 1, new_size, None, r),
            covers_request(1, new_size, r),
    {
        self.allocate_chunk(Some(ptr), 1, new_size)
    }

    /// `allocate_chunk_aligned(Some(ptr), 1, new_size, align)`.
    fn realloc_aligned(&self, ptr: AnyPtr, new_size: usize, align: usize) -> (r: Option<MemoryChunk>)
        ensures
            self.chunk_answer(false, Some(ptr@), 1, new_size, Some(align), r),
            covers_request(1, new_size, r),
    {
        self.allocate_chunk_aligned(Some(ptr), 1, new_size, align)
    }

    /// `calloc(1, size)`.
    fn zalloc(&self, size: usize) -> (r: Option<MemoryChunk>)
        ensures
            self.chunk_answer(true, None, 1, size, None, r),
            covers_request(1, size, r),
    {
        self.calloc(1, size)
    }

    /// `calloc_aligned(1, size, align)`.
    fn zalloc_aligned(&self, size: usize, align: usize) -> (r: Option<MemoryChunk>)
        ensures
            self.chunk_answer(true, None, 1, size, Some(align), r),
            covers_request(1, size, r),
    {
        self.calloc_aligned(1, size, align)
    }

    /// `recalloc(ptr, 1, new_size)`.
    fn rezalloc(&self, ptr: AnyPtr, new_size: usize) -> (r: Option<MemoryChunk>)
        ensures
            self.chunk_answer(true, Some(ptr@), 1, new_size, None, r),
            covers_request(1, new_size, r),
    {
        self.recalloc(ptr, 1, new_size)
    }

    /// `recalloc_aligned(ptr, 1, new_size, align)`.
    fn rezalloc_aligned(&self, ptr: AnyPtr, new_size: usize, align: usize) -> (r: Option<MemoryChunk>)
        ensures
            self.chunk_answer(true, Some(ptr@), 1, new_size, Some(align), r),
            covers_request(1, new_size, r),
    {
        self.recalloc_aligned(ptr, 1, new_size, align)
    }

    /// The address to hand to `mi_free` to release the block at `ptr`.
    fn free(&self, ptr: AnyPtr) -> (r: usize)
        ensures
            r == ptr@,
    {
        ptr.addr()
    }

    /// The address to hand to `mi_free` to release the block `ptr`: that of
    /// its first byte.
    fn free_array(&self, ptr: BlockPtr) -> (r: usize)
        ensures
            r == ptr@.0,
    {
        self.free(ptr.cast())
    }

    /// The address to hand to `mi_free` to release the whole chunk: that of
    /// its block pointer.
    fn free_chunk(&self, chunk: &MemoryChunk) -> (r: usize)
        ensures
            r == chunk.spec_block_ptr()@.0,
    {
        self.free_array(chunk.block_ptr())
    }
}

/// Why a small allocation failed.
#[derive(Debug, Clone, Copy, PartialEq, Eq)]
pub enum SmallAllocError {
    /// The size asked for is over the small-object limit.
    TooLarge,
    /// The allocator returned a null pointer.
    NullPointer,
}

/// An allocator with a dedicated path for small objects. What "small" means is
/// up to the implementation (mimalloc's limit is `MIMALLOC_SMALL_SIZE_MAX`).
pub trait SmallAllocator {
    /// Whether `r` is an answer that `try_malloc_small(size)` may give; each
    /// implementation says which answers it gives.
    spec fn small_answer(&self, size: usize, r: Result<MemoryChunk, SmallAllocError>) -> bool;

    /// The small allocation, or `None` where `try_malloc_small` fails: the
    /// answer of `try_malloc_small(size)` with the reason of a failure dropped.
    fn malloc_small(&self, size: usize) -> (r: Option<MemoryChunk>)
        ensures
            match r {
                Some(c) => self.small_answer(size, Ok(c)),
                None => exists|e: SmallAllocError| #[trigger] self.small_answer(size, Err(e)),
            },
    {
        match self.try_malloc_small(size) {
            Ok(c) => Some(c),
            Err(e) => {
                assert(self.small_answer(size, Err(e)));
                None
            },
        }
    }

    /// Allocates `size` bytes from the small-object path, saying why it failed.
    fn try_malloc_small(&self, size: usize) -> (r: Result<MemoryChunk, SmallAllocError>)
        ensures
            self.small_answer(size, r),
    ;
}

} // verus!
