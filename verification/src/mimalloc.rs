//! The calls into mimalloc, as plain values.
//!
//! Every allocation routine of this crate decides which mimalloc routine to
//! call and with which arguments (an [AllocRequest]); whoever holds the
//! mimalloc bindings performs that call and hands the returned address back to
//! [AllocRequest::complete], which says what the routine returns.

use vstd::prelude::*;
use vstd::arithmetic::power2::is_pow2;
use crate::api::{BlockPtr, SmallAllocError, block_from_raw};

verus! {

/// mimalloc's `MI_SMALL_WSIZE_MAX`: the small-object limit in machine words.
pub const MI_SMALL_WSIZE_MAX: usize = 128;

/// The small-object limit in bytes (1024 on 64-bit targets).
pub const MIMALLOC_SMALL_SIZE_MAX: usize = MI_SMALL_WSIZE_MAX * (usize::BITS as usize / 8);

/// A non-null address of a single byte.
#[derive(Debug, Clone, Copy, PartialEq, Eq)]
pub struct AnyPtr {
    addr: usize,
}

impl View for AnyPtr {
    type V = usize;

    closed spec fn view(&self) -> usize {
        self.addr
    }
}

impl AnyPtr {
    #[verifier::type_invariant]
    spec fn non_null(self) -> bool {
        self.addr != 0
    }

    /// The pointer at `addr`; `None` when `addr` is null.
    pub fn new(addr: usize) -> (r: Option<AnyPtr>)
        ensures
            match r {
                Some(p) => addr != 0 && p@ == addr,
                None => addr == 0,
            },
    {
        if addr == 0 {
            None
        } else {
            Some(AnyPtr { addr })
        }
    }

    /// The address; never zero.
    pub fn addr(&self) -> (r: usize)
        ensures
            r == self@,
            r != 0,
    {
        proof {
            use_type_invariant(self);
        }
        self.addr
    }
}

impl BlockPtr {
    /// The thin pointer to the first byte.
    pub fn cast(&self) -> (r: AnyPtr)
        ensures
            r@ == self@.0,
    {
        AnyPtr { addr: self.addr() }
    }
}

/// A mimalloc allocation routine together with its arguments. Addresses of
/// blocks to resize are given as plain integers.
#[derive(Debug, Clone, Copy, PartialEq, Eq)]
pub enum MiCall {
    /// `mi_malloc` / `mi_heap_malloc`
    Malloc { size: usize },
    /// `mi_malloc_aligned` / `mi_heap_malloc_aligned`
    MallocAligned { size: usize, align: usize },
    /// `mi_malloc_small` / `mi_heap_malloc_small`
    MallocSmall { size: usize },
    /// `mi_calloc` / `mi_heap_calloc`
    Calloc { count: usize, size: usize },
    /// `mi_calloc_aligned` / `mi_heap_calloc_aligned`
    CallocAligned { count: usize, size: usize, align: usize },
    /// `mi_realloc` / `mi_heap_realloc`
    Realloc { ptr: usize, new_size: usize },
    /// `mi_realloc_aligned` / `mi_heap_realloc_aligned`
    ReallocAligned { ptr: usize, new_size: usize, align: usize },
    /// `mi_recalloc` / `mi_heap_recalloc`
    Recalloc { ptr: usize, new_count: usize, size: usize },
    /// `mi_recalloc_aligned` / `mi_heap_recalloc_aligned`
    RecallocAligned { ptr: usize, new_count: usize, size: usize, align: usize },
}

/// One allocation to perform: the routine, the heap it runs on, and how long
/// the block that a successful call yields is said to be.
#[derive(Debug, Clone, Copy, PartialEq, Eq)]
pub struct AllocRequest {
    /// `Some(h)`: the `mi_heap_*` routine on the heap at address `h`;
    /// `None`: the process-wide `mi_*` routine.
    pub heap: Option<usize>,
    pub call: MiCall,
    /// On success the block covers `span_count * span_size` bytes.
    pub span_count: usize,
    pub span_size: usize,
}

impl AllocRequest {
    /// Length of the block that a successful call yields.
    pub open spec fn span_len(self) -> int {
        self.span_count * self.span_size
    }

    /// The request `call` on `heap` whose block covers `count * size` bytes.
    pub open spec fn spec_new(heap: Option<usize>, call: MiCall, count: usize, size: usize) -> AllocRequest {
        AllocRequest { heap, call, span_count: count, span_size: size }
    }

    /// What the allocation routine returns once mimalloc has answered `raw`:
    /// `None` for a null address, else the block at `raw` of `span_len` bytes.
    ///
    /// mimalloc answers null when the byte count overflows, so a non-null
    /// answer always comes with a length that fits in a `usize`.
    pub fn complete(&self, raw: usize) -> (r: Option<BlockPtr>)
        requires
            raw == 0 || self.span_len() <= usize::MAX,
        ensures
            block_from_raw(r, raw, self.span_len()),
    {
        if raw == 0 {
            None
        } else {
            proof {
                vstd::arithmetic::mul::lemma_mul_nonnegative(self.span_count as int, self.span_size as int);
            }
            BlockPtr::from_raw_parts(raw, self.span_count * self.span_size)
        }
    }

    /// As [AllocRequest::complete], but a null answer is the error
    /// [SmallAllocError::NullPointer].
    pub fn complete_or_null_error(&self, raw: usize) -> (r: Result<BlockPtr, SmallAllocError>)
        requires
            raw == 0 || self.span_len() <= usize::MAX,
        ensures
            match r {
                Ok(b) => block_from_raw(Some(b), raw, self.span_len()),
                Err(e) => raw == 0 && e == SmallAllocError::NullPointer,
            },
    {
        match self.complete(raw) {
            Some(b) => Ok(b),
            None => Err(SmallAllocError::NullPointer),
        }
    }
}

/// `mi_malloc_small(size)` on the process-wide heap.
pub open spec fn small_request(size: usize) -> AllocRequest {
    AllocRequest::spec_new(None, MiCall::MallocSmall { size }, 1, size)
}

/// `mi_malloc(size)` on the process-wide heap.
pub open spec fn malloc_request(size: usize) -> AllocRequest {
    AllocRequest::spec_new(None, MiCall::Malloc { size }, 1, size)
}

/// `mi_malloc_aligned(size, align)` on the process-wide heap.
pub open spec fn malloc_aligned_request(size: usize, align: usize) -> AllocRequest {
    AllocRequest::spec_new(None, MiCall::MallocAligned { size, align }, 1, size)
}

/// `mi_calloc(count, size)` on the process-wide heap.
pub open spec fn calloc_request(count: usize, size: usize) -> AllocRequest {
    AllocRequest::spec_new(None, MiCall::Calloc { count, size }, count, size)
}

/// `mi_calloc_aligned(count, size, align)` on the process-wide heap.
pub open spec fn calloc_aligned_request(count: usize, size: usize, align: usize) -> AllocRequest {
    AllocRequest::spec_new(None, MiCall::CallocAligned { count, size, align }, count, size)
}

/// `mi_recalloc(ptr, new_count, size)` on the process-wide heap.
pub open spec fn recalloc_request(ptr: usize, new_count: usize, size: usize) -> AllocRequest {
    AllocRequest::spec_new(None, MiCall::Recalloc { ptr, new_count, size }, new_count, size)
}

/// `mi_recalloc_aligned(ptr, new_count, size, align)` on the process-wide heap.
pub open spec fn recalloc_aligned_request(ptr: usize, new_count: usize, size: usize, align: usize) -> AllocRequest {
    AllocRequest::spec_new(None, MiCall::RecallocAligned { ptr, new_count, size, align }, new_count, size)
}

/// `mi_realloc(ptr, new_size)` on the process-wide heap.
pub open spec fn realloc_request(ptr: usize, new_size: usize) -> AllocRequest {
    AllocRequest::spec_new(None, MiCall::Realloc { ptr, new_size }, 1, new_size)
}

/// `mi_realloc_aligned(ptr, new_size, align)` on the process-wide heap.
pub open spec fn realloc_aligned_request(ptr: usize, new_size: usize, align: usize) -> AllocRequest {
    AllocRequest::spec_new(None, MiCall::ReallocAligned { ptr, new_size, align }, 1, new_size)
}

/// Every process-wide allocation goes to the process-wide heap with the
/// arguments it was given, and a successful one yields a block of the bytes
/// asked for: `size` for malloc, malloc_aligned and malloc_small,
/// `count * size` for calloc and calloc_aligned, `new_count * size` for
/// recalloc and recalloc_aligned, and `new_size` for realloc and
/// realloc_aligned.
pub proof fn lemma_global_requests(ptr: usize, count: usize, size: usize, align: usize)
    ensures
        small_request(size).heap is None && small_request(size).call == (MiCall::MallocSmall { size })
            && small_request(size).span_len() == size,
        malloc_request(size).heap is None && malloc_request(size).call == (MiCall::Malloc { size })
            && malloc_request(size).span_len() == size,
        malloc_aligned_request(size, align).heap is None
            && malloc_aligned_request(size, align).call == (MiCall::MallocAligned { size, align })
            && malloc_aligned_request(size, align).span_len() == size,
        calloc_request(count, size).heap is None && calloc_request(count, size).call == (MiCall::Calloc { count, size })
            && calloc_request(count, size).span_len() == count * size,
        calloc_aligned_request(count, size, align).heap is None
            && calloc_aligned_request(count, size, align).call == (MiCall::CallocAligned { count, size, align })
            && calloc_aligned_request(count, size, align).span_len() == count * size,
        recalloc_request(ptr, count, size).heap is None
            && recalloc_request(ptr, count, size).call == (MiCall::Recalloc { ptr, new_count: count, size })
            && recalloc_request(ptr, count, size).span_len() == count * size,
        recalloc_aligned_request(ptr, count, size, align).heap is None
            && recalloc_aligned_request(ptr, count, size, align).call == (MiCall::RecallocAligned {
                ptr,
                new_count: count,
                size,
                align,
            }) && recalloc_aligned_request(ptr, count, size, align).span_len() == count * size,
        realloc_request(ptr, size).heap is None && realloc_request(ptr, size).call == (MiCall::Realloc {
            ptr,
            new_size: size,
        }) && realloc_request(ptr, size).span_len() == size,
        realloc_aligned_request(ptr, size, align).heap is None
            && realloc_aligned_request(ptr, size, align).call == (MiCall::ReallocAligned { ptr, new_size: size, align })
            && realloc_aligned_request(ptr, size, align).span_len() == size,
{
}

/// A small allocation is refused exactly when it is over the small-object
/// limit; otherwise it is `mi_malloc_small(size)` on the process-wide heap,
/// and a successful one yields a block of exactly `size` bytes.
pub proof fn lemma_small_requests(size: usize)
    ensures
        try_malloc_small_spec(size) is Err <==> size > MIMALLOC_SMALL_SIZE_MAX,
        try_malloc_small_spec(size) matches Err(e) ==> e == SmallAllocError::TooLarge,
        try_malloc_small_spec(size) matches Ok(q) ==> {
            &&& q.heap is None
            &&& q.call == (MiCall::MallocSmall { size })
            &&& q.span_count * q.span_size == size
        },
{
}

/// Completing a request gives nothing exactly for a null answer, and
/// otherwise the block at the answered address with the request's length.
pub proof fn lemma_completion(q: AllocRequest, raw: usize, r: Option<BlockPtr>)
    requires
        block_from_raw(r, raw, q.span_len()),
    ensures
        r is None <==> raw == 0,
        r matches Some(b) ==> b@.0 == raw && b@.1 == q.span_count * q.span_size,
{
}

/// Whether `size` bytes may go through the small-object path.
pub open spec fn is_small(size: usize) -> bool {
    size <= MIMALLOC_SMALL_SIZE_MAX
}

/// Small allocation from the process-wide heap: refused with
/// [SmallAllocError::TooLarge] when `size` is over [MIMALLOC_SMALL_SIZE_MAX],
/// else `mi_malloc_small(size)`, whose block is `size` bytes long.
pub fn try_malloc_small(size_bytes: usize) -> (r: Result<AllocRequest, SmallAllocError>)
    ensures
        r == try_malloc_small_spec(size_bytes),
{
    if size_bytes <= MIMALLOC_SMALL_SIZE_MAX {
        Ok(AllocRequest { heap: None, call: MiCall::MallocSmall { size: size_bytes }, span_count: 1, span_size: size_bytes })
    } else {
        Err(SmallAllocError::TooLarge)
    }
}

/// [try_malloc_small] with the reason of a refusal dropped.
pub fn malloc_small(size_bytes: usize) -> (r: Option<AllocRequest>)
    ensures
        r == (match try_malloc_small_spec(size_bytes) {
            Ok(q) => Some(q),
            Err(_) => None::<AllocRequest>,
        }),
{
    match try_malloc_small(size_bytes) {
        Ok(q) => Some(q),
        Err(_) => None,
    }
}

/// What [try_malloc_small] decides.
pub open spec fn try_malloc_small_spec(size_bytes: usize) -> Result<AllocRequest, SmallAllocError> {
    if is_small(size_bytes) {
        Ok(small_request(size_bytes))
    } else {
        Err(SmallAllocError::TooLarge)
    }
}

/// `mi_calloc(count, size_bytes)`; the block covers `count * size_bytes` bytes.
pub fn calloc(count: usize, size_bytes: usize) -> (r: AllocRequest)
    ensures
        r == calloc_request(count, size_bytes),
{
    AllocRequest { heap: None, call: MiCall::Calloc { count, size: size_bytes }, span_count: count, span_size: size_bytes }
}

/// `mi_malloc(size)`; the block covers `size` bytes.
pub fn malloc(size: usize) -> (r: AllocRequest)
    ensures
        r == malloc_request(size),
{
    AllocRequest { heap: None, call: MiCall::Malloc { size }, span_count: 1, span_size: size }
}

/// `mi_malloc_aligned(size, align)`; the block covers `size` bytes.
pub fn malloc_aligned(size: usize, align: usize) -> (r: AllocRequest)
    ensures
        r == malloc_aligned_request(size, align),
{
    AllocRequest { heap: None, call: MiCall::MallocAligned { size, align }, span_count: 1, span_size: size }
}

/// `mi_calloc_aligned(count, size_bytes, align)`; the block covers
/// `count * size_bytes` bytes. Every size is accepted, small or not: the
/// general purpose allocator routes all its allocations through here.
pub fn calloc_aligned(count: usize, size_bytes: usize, align: usize) -> (r: AllocRequest)
    ensures
        r == calloc_aligned_request(count, size_bytes, align),
{
    AllocRequest {
        heap: None,
        call: MiCall::CallocAligned { count, size: size_bytes, align },
        span_count: count,
        span_size: size_bytes,
    }
}

/// `mi_recalloc(ptr, new_count, size_bytes)`; the block covers
/// `new_count * size_bytes` bytes.
pub fn recalloc(ptr: AnyPtr, new_count: usize, size_bytes: usize) -> (r: AllocRequest)
    ensures
        r == recalloc_request(ptr@, new_count, size_bytes),
{
    AllocRequest {
        heap: None,
        call: MiCall::Recalloc { ptr: ptr.addr(), new_count, size: size_bytes },
        span_count: new_count,
        span_size: size_bytes,
    }
}

/// `mi_recalloc_aligned(ptr, new_count, size_bytes, align)`; the alignment
/// must be a power of two; the block covers `new_count * size_bytes` bytes.
pub fn recalloc_aligned(ptr: AnyPtr, new_count: usize, size_bytes: usize, align: usize) -> (r: AllocRequest)
    requires
        is_pow2(align as int),
    ensures
        r == recalloc_aligned_request(ptr@, new_count, size_bytes, align),
{
    AllocRequest {
        heap: None,
        call: MiCall::RecallocAligned { ptr: ptr.addr(), new_count, size: size_bytes, align },
        span_count: new_count,
        span_size: size_bytes,
    }
}

/// `mi_realloc_aligned(ptr, new_size, align)`; the alignment must be a power
/// of two; the block covers `new_size` bytes.
pub fn realloc_aligned(ptr: AnyPtr, new_size: usize, align: usize) -> (r: AllocRequest)
    requires
        is_pow2(align as int),
    ensures
        r == realloc_aligned_request(ptr@, new_size, align),
{
    AllocRequest { heap: None, call: MiCall::ReallocAligned { ptr: ptr.addr(), new_size, align }, span_count: 1, span_size: new_size }
}

/// `mi_realloc(ptr, size_bytes)`; the block covers `size_bytes` bytes.
pub fn realloc(ptr: AnyPtr, size_bytes: usize) -> (r: AllocRequest)
    ensures
        r == realloc_request(ptr@, size_bytes),
{
    AllocRequest { heap: None, call: MiCall::Realloc { ptr: ptr.addr(), new_size: size_bytes }, span_count: 1, span_size: size_bytes }
}

/// The mimalloc runtime options (numbered as in mimalloc 2's `mi_option_t`).
#[derive(Debug, Clone, Copy, PartialEq, Eq)]
pub enum MiOptionType {
    /// Print error messages.
    ShowErrors,
    /// Print statistics on termination.
    ShowStats,
    /// Print verbose messages.
    Verbose,
    /// Issue at most N error messages.
    MaxErrors,
    /// Issue at most N warning messages.
    MaxWarnings,
    /// Reserve N huge OS pages (1GiB pages) at startup.
    ReserveHugeOsPages,
    /// Reserve N huge OS pages at a specific NUMA node N.
    ReserveHugeOsPagesAt,
    /// Reserve the given amount of OS memory in an arena at startup (in KiB).
    ReserveOsMemory,
    /// Allow large (2 or 4 MiB) OS pages; implies eager commit.
    AllowLargeOsPages,
    /// Should a memory purge decommit? (=1)
    PurgeDecommits,
    /// Initial memory size for arena reservation (in KiB).
    ArenaReserve,
    /// Tag used for OS logging (macOS only for now).
    OsTag,
    /// Retry on out-of-memory for N milliseconds (Windows only).
    RetryOnOOM,
    /// Eager commit segments (after `eager_commit_delay` segments).
    EagerCommit,
    /// The first N segments per thread are not eagerly committed.
    EagerCommitDelay,
    /// Eager commit arenas (2 = only on overcommit systems).
    ArenaEagerCommit,
    /// Immediately purge delayed purges on thread termination.
    AbandonedPagePurge,
    /// Memory purging is delayed by N milliseconds (-1: never purge).
    PurgeDelay,
    /// 0 = use all available NUMA nodes, else at most N nodes.
    UseNumaNodes,
    /// 1 = do not use OS memory for allocation (only pre-reserved arenas).
    LimitOsAlloc,
    /// Release all memory on exit.
    DestroyOnExit,
    /// Multiplier of `purge_delay` for arenas.
    ArenaPurgeMultiplier,
    /// 1 = do not use arenas for allocation (except with specific arena ids).
    DisallowArenaAllow,
    /// Allow visiting heap blocks from abandoned threads.
    VisitAbandoned,
}

impl MiOptionType {
    /// mimalloc's number for the option.
    pub open spec fn spec_code(self) -> u32 {
        match self {
            MiOptionType::ShowErrors => 0,
            MiOptionType::ShowStats => 1,
            MiOptionType::Verbose => 2,
            MiOptionType::EagerCommit => 3,
            MiOptionType::ArenaEagerCommit => 4,
            MiOptionType::PurgeDecommits => 5,
            MiOptionType::AllowLargeOsPages => 6,
            MiOptionType::ReserveHugeOsPages => 7,
            MiOptionType::ReserveHugeOsPagesAt => 8,
            MiOptionType::ReserveOsMemory => 9,
            MiOptionType::AbandonedPagePurge => 12,
            MiOptionType::EagerCommitDelay => 14,
            MiOptionType::PurgeDelay => 15,
            MiOptionType::UseNumaNodes => 16,
            MiOptionType::LimitOsAlloc => 17,
            MiOptionType::OsTag => 18,
            MiOptionType::MaxErrors => 19,
            MiOptionType::MaxWarnings => 20,
            MiOptionType::DestroyOnExit => 22,
            MiOptionType::ArenaReserve => 23,
            MiOptionType::ArenaPurgeMultiplier => 24,
            MiOptionType::DisallowArenaAllow => 27,
            MiOptionType::RetryOnOOM => 28,
            MiOptionType::VisitAbandoned => 29,
        }
    }

    /// mimalloc's number for the option.
    pub fn as_inner(self) -> (r: u32)
        ensures
            r == self.spec_code(),
    {
        match self {
            MiOptionType::ShowErrors => 0,
            MiOptionType::ShowStats => 1,
            MiOptionType::Verbose => 2,
            MiOptionType::EagerCommit => 3,
            MiOptionType::ArenaEagerCommit => 4,
            MiOptionType::PurgeDecommits => 5,
            MiOptionType::AllowLargeOsPages => 6,
            MiOptionType::ReserveHugeOsPages => 7,
            MiOptionType::ReserveHugeOsPagesAt => 8,
            MiOptionType::ReserveOsMemory => 9,
            MiOptionType::AbandonedPagePurge => 12,
            MiOptionType::EagerCommitDelay => 14,
            MiOptionType::PurgeDelay => 15,
            MiOptionType::UseNumaNodes => 16,
            MiOptionType::LimitOsAlloc => 17,
            MiOptionType::OsTag => 18,
            MiOptionType::MaxErrors => 19,
            MiOptionType::MaxWarnings => 20,
            MiOptionType::DestroyOnExit => 22,
            MiOptionType::ArenaReserve => 23,
            MiOptionType::ArenaPurgeMultiplier => 24,
            MiOptionType::DisallowArenaAllow => 27,
            MiOptionType::RetryOnOOM => 28,
            MiOptionType::VisitAbandoned => 29,
        }
    }
}

/// Each option carries mimalloc 2's number for it in `mi_option_t`:
/// show_errors 0, show_stats 1, verbose 2, eager_commit 3,
/// arena_eager_commit 4, purge_decommits 5, allow_large_os_pages 6,
/// reserve_huge_os_pages 7, reserve_huge_os_pages_at 8, reserve_os_memory 9,
/// abandoned_page_purge 12, eager_commit_delay 14, purge_delay 15,
/// use_numa_nodes 16, limit_os_alloc (= disallow_os_alloc) 17, os_tag 18,
/// max_errors 19, max_warnings 20, destroy_on_exit 22, arena_reserve 23,
/// arena_purge_mult 24, disallow_arena_alloc 27, retry_on_oom 28,
/// visit_abandoned 29.
pub proof fn lemma_option_numbers()
    ensures
        MiOptionType::ShowErrors.spec_code() == 0,
        MiOptionType::ShowStats.spec_code() == 1,
        MiOptionType::Verbose.spec_code() == 2,
        MiOptionType::EagerCommit.spec_code() == 3,
        MiOptionType::ArenaEagerCommit.spec_code() == 4,
        MiOptionType::PurgeDecommits.spec_code() == 5,
        MiOptionType::AllowLargeOsPages.spec_code() == 6,
        MiOptionType::ReserveHugeOsPages.spec_code() == 7,
        MiOptionType::ReserveHugeOsPagesAt.spec_code() == 8,
        MiOptionType::ReserveOsMemory.spec_code() == 9,
        MiOptionType::AbandonedPagePurge.spec_code() == 12,
        MiOptionType::EagerCommitDelay.spec_code() == 14,
        MiOptionType::PurgeDelay.spec_code() == 15,
        MiOptionType::UseNumaNodes.spec_code() == 16,
        MiOptionType::LimitOsAlloc.spec_code() == 17,
        MiOptionType::OsTag.spec_code() == 18,
        MiOptionType::MaxErrors.spec_code() == 19,
        MiOptionType::MaxWarnings.spec_code() == 20,
        MiOptionType::DestroyOnExit.spec_code() == 22,
        MiOptionType::ArenaReserve.spec_code() == 23,
        MiOptionType::ArenaPurgeMultiplier.spec_code() == 24,
        MiOptionType::DisallowArenaAllow.spec_code() == 27,
        MiOptionType::RetryOnOOM.spec_code() == 28,
        MiOptionType::VisitAbandoned.spec_code() == 29,
{
}

/// Distinct options have distinct mimalloc numbers, all below mimalloc's 30
/// numbered options.
pub proof fn lemma_option_codes_distinct(a: MiOptionType, b: MiOptionType)
    ensures
        a.spec_code() == b.spec_code() ==> a == b,
        a.spec_code() < 30,
{
}

/// A call into mimalloc's option API, with the option given by its number.
#[derive(Debug, Clone, Copy, PartialEq, Eq)]
pub enum MiOptionCall {
    /// `mi_option_disable`
    Disable { option: u32 },
    /// `mi_option_enable`
    Enable { option: u32 },
    /// `mi_option_get`
    Get { option: u32 },
    /// `mi_option_get_clamp`
    GetClamp { option: u32, min: i64, max: i64 },
    /// `mi_option_get_size`
    GetSize { option: u32 },
    /// `mi_option_is_enabled`
    IsEnabled { option: u32 },
    /// `mi_option_set`
    SetValue { option: u32, value: i64 },
    /// `mi_option_set_default`
    SetDefault { option: u32, value: i64 },
    /// `mi_option_set_enabled`
    SetEnabled { option: u32, enable: bool },
    /// `mi_option_set_enabled_default`
    SetEnabledDefault { option: u32, enable: bool },
}

/// Access to mimalloc's runtime options. Each method names the option call
/// to make; its answer is what the method returns.
pub struct MiOption;

impl MiOption {
    pub fn disable(opt: MiOptionType) -> (r: MiOptionCall)
        ensures
            r == (MiOptionCall::Disable { option: opt.spec_code() }),
    {
        MiOptionCall::Disable { option: opt.as_inner() }
    }

    pub fn enable(opt: MiOptionType) -> (r: MiOptionCall)
        ensures
            r == (MiOptionCall::Enable { option: opt.spec_code() }),
    {
        MiOptionCall::Enable { option: opt.as_inner() }
    }

    pub fn get(opt: MiOptionType) -> (r: MiOptionCall)
        ensures
            r == (MiOptionCall::Get { option: opt.spec_code() }),
    {
        MiOptionCall::Get { option: opt.as_inner() }
    }

    pub fn get_clamp(opt: MiOptionType, min: i64, max: i64) -> (r: MiOptionCall)
        ensures
            r == (MiOptionCall::GetClamp { option: opt.spec_code(), min, max }),
    {
        MiOptionCall::GetClamp { option: opt.as_inner(), min, max }
    }

    pub fn get_size(opt: MiOptionType) -> (r: MiOptionCall)
        ensures
            r == (MiOptionCall::GetSize { option: opt.spec_code() }),
    {
        MiOptionCall::GetSize { option: opt.as_inner() }
    }

    pub fn is_enabled(opt: MiOptionType) -> (r: MiOptionCall)
        ensures
            r == (MiOptionCall::IsEnabled { option: opt.spec_code() }),
    {
        MiOptionCall::IsEnabled { option: opt.as_inner() }
    }

    pub fn set(opt: MiOptionType, val: i64) -> (r: MiOptionCall)
        ensures
            r == (MiOptionCall::SetValue { option: opt.spec_code(), value: val }),
    {
        MiOptionCall::SetValue { option: opt.as_inner(), value: val }
    }

    pub fn set_default(opt: MiOptionType, val: i64) -> (r: MiOptionCall)
        ensures
            r == (MiOptionCall::SetDefault { option: opt.spec_code(), value: val }),
    {
        MiOptionCall::SetDefault { option: opt.as_inner(), value: val }
    }

    pub fn set_enabled(opt: MiOptionType, enable: bool) -> (r: MiOptionCall)
        ensures
            r == (MiOptionCall::SetEnabled { option: opt.spec_code(), enable }),
    {
        MiOptionCall::SetEnabled { option: opt.as_inner(), enable }
    }

    pub fn set_enabled_default(opt: MiOptionType, enable: bool) -> (r: MiOptionCall)
        ensures
            r == (MiOptionCall::SetEnabledDefault { option: opt.spec_code(), enable }),
    {
        MiOptionCall::SetEnabledDefault { option: opt.as_inner(), enable }
    }
}

} // verus!
