use blight_rs::api::{BlockPtr, MemoryChunk, SmallAllocError, SystemAllocator};
use blight_rs::gpa::{is_power_of_two, AllocStep, Layout, MiMallocator};
use blight_rs::heap::handle::HeapHandle;
use blight_rs::heap::owned::{Heap, HeapNewCall, HeapRelease, HeapTag};
use blight_rs::mimalloc::{
    self as mi, AllocRequest, AnyPtr, MiCall, MiOption, MiOptionCall, MiOptionType, MIMALLOC_SMALL_SIZE_MAX,
};
use blight_rs::osarena::{ArenaError, OsArena, OsArenaOpts, ReserveCall};
use blight_rs::units::{gigabytes, kilobytes, megabytes, terabytes};

const HEAP: usize = 0x5000;
const RAW: usize = 0x9000;

fn block(addr: usize, len: usize) -> BlockPtr {
    BlockPtr::from_raw_parts(addr, len).unwrap()
}

#[test]
fn units_are_powers_of_1024() {
    assert_eq!(kilobytes(1), 1024);
    assert_eq!(kilobytes(3), 3072);
    assert_eq!(megabytes(1), 1_048_576);
    assert_eq!(gigabytes(2), 2_147_483_648);
    assert_eq!(terabytes(1), 1_099_511_627_776);
    assert_eq!(megabytes(5), kilobytes(kilobytes(5)));
    assert_eq!(kilobytes(0), 0);
}

#[test]
fn heap_tag_numbers_round_trip() {
    for v in [-3, 0, 1, 2, 3, 4, 5, 6, 7, 8, 100, i32::MIN, i32::MAX] {
        assert_eq!(HeapTag::new(v).as_i32(), v);
    }
    assert_eq!(HeapTag::new(0), HeapTag::Default);
    assert_eq!(HeapTag::new(2), HeapTag::Object);
    assert_eq!(HeapTag::new(7), HeapTag::BlockD);
    assert_eq!(HeapTag::new(8), HeapTag::Extended(8));
    assert_eq!(HeapTag::new(HeapTag::BlockB.as_i32()), HeapTag::BlockB);
    // An extended tag carrying a named number comes back as the named tag.
    assert_eq!(HeapTag::new(HeapTag::Extended(3).as_i32()), HeapTag::Constant);
    assert_eq!(HeapTag::default(), HeapTag::Default);
}

#[test]
fn block_ptr_is_never_null() {
    assert!(BlockPtr::from_raw_parts(0, 10).is_none());
    let b = block(RAW, 10);
    assert_eq!((b.addr(), b.len()), (RAW, 10));
    assert_eq!(b.cast().addr(), RAW);
    assert!(AnyPtr::new(0).is_none());
    let d = BlockPtr::dangling();
    assert_eq!((d.addr(), d.len()), (1, 0));
}

#[test]
fn chunk_constructors_and_getters() {
    let p = block(0x1000, 64);
    let s = MemoryChunk::bytes(p);
    assert!(s.is_scalar() && !s.is_blocks());
    assert_eq!((s.block_size(), s.count(), s.alignment(), s.ptr()), (0, 0, 1, 0x1000));
    let s = MemoryChunk::bytes_aligned(p, 16);
    assert_eq!(s.alignment(), 16);
    let b = MemoryChunk::blocks_bytes(p, 8, 8);
    assert!(b.is_blocks());
    assert_eq!((b.block_size(), b.count(), b.alignment()), (8, 8, 1));
    let b = MemoryChunk::blocks_bytes_aligned(p, 16, 4, 8);
    assert_eq!((b.block_size(), b.count(), b.alignment()), (16, 4, 8));
    assert_eq!(b.block_ptr(), p);
    let t = MemoryChunk::blocks::<u64>(p, 8);
    assert_eq!((t.block_size(), t.count(), t.alignment()), (8, 8, core::mem::align_of::<u64>()));
    let u = MemoryChunk::scalar::<u32>(block(0x2000, 4));
    assert_eq!((u.alignment(), u.ptr()), (core::mem::align_of::<u32>(), 0x2000));
}

#[test]
fn block_at_on_scalar_is_whole_chunk() {
    let p = block(0x1003, 64);
    let s = MemoryChunk::bytes(p);
    assert_eq!(s.block_at(0), Some(p));
    assert_eq!(s.block_at(57), Some(p));
}

#[test]
fn block_at_aligns_each_block() {
    // Blocks of 12 bytes from 0x1004, aligned to 8.
    let c = MemoryChunk::blocks_bytes_aligned(block(0x1004, 48), 12, 4, 8);
    // Block 0 starts at 0x1004; the next multiple of 8 is 0x1008.
    let b0 = c.block_at(0).unwrap();
    assert_eq!((b0.addr(), b0.len()), (0x1008, 12));
    // Block 1 starts at 0x1010, already aligned.
    let b1 = c.block_at(1).unwrap();
    assert_eq!((b1.addr(), b1.len()), (0x1010, 12));
    // Block 3 starts at 0x1028, already aligned.
    assert_eq!(c.block_at(3).unwrap().addr(), 0x1028);
    // Past the last block there is none.
    assert_eq!(c.block_at(4), None);
    assert_eq!(c.block_at(1000), None);
}

#[test]
fn block_at_refuses_gap_as_wide_as_block() {
    // Blocks of 4 bytes at 0x1001 aligned to 8: the gap of 7 bytes leaves the block.
    let c = MemoryChunk::blocks_bytes_aligned(block(0x1001, 16), 4, 4, 8);
    assert_eq!(c.block_at(0), None);
    // Block 1 starts at 0x1005; gap 3 < 4.
    assert_eq!(c.block_at(1).unwrap().addr(), 0x1008);
}

#[test]
fn small_allocations_are_limited() {
    assert_eq!(MIMALLOC_SMALL_SIZE_MAX, 128 * core::mem::size_of::<usize>());
    assert_eq!(mi::try_malloc_small(MIMALLOC_SMALL_SIZE_MAX + 1), Err(SmallAllocError::TooLarge));
    assert_eq!(mi::malloc_small(MIMALLOC_SMALL_SIZE_MAX + 1), None);
    let req = mi::try_malloc_small(MIMALLOC_SMALL_SIZE_MAX).unwrap();
    assert_eq!(req.heap, None);
    assert_eq!(req.call, MiCall::MallocSmall { size: MIMALLOC_SMALL_SIZE_MAX });
    assert_eq!(mi::malloc_small(10), Some(mi::try_malloc_small(10).unwrap()));
    assert_eq!(req.complete_or_null_error(0), Err(SmallAllocError::NullPointer));
    assert_eq!(req.complete_or_null_error(RAW).unwrap().len(), MIMALLOC_SMALL_SIZE_MAX);
}

#[test]
fn completing_a_request() {
    let req = mi::calloc(4, 16);
    assert_eq!(req.complete(0), None);
    let b = req.complete(RAW).unwrap();
    assert_eq!((b.addr(), b.len()), (RAW, 64));
    let req = mi::malloc(33);
    assert_eq!(req.complete(RAW).unwrap().len(), 33);
    let p = AnyPtr::new(RAW).unwrap();
    let req = mi::recalloc(p, 3, 10);
    assert_eq!(req.call, MiCall::Recalloc { ptr: RAW, new_count: 3, size: 10 });
    assert_eq!(req.complete(RAW + 64).unwrap().len(), 30);
    let req = mi::realloc_aligned(p, 100, 32);
    assert_eq!(req.call, MiCall::ReallocAligned { ptr: RAW, new_size: 100, align: 32 });
    let req = mi::calloc_aligned(2, 8, 16);
    assert_eq!(req.complete(RAW).unwrap().len(), 16);
    let req = mi::recalloc_aligned(p, 2, 8, 16);
    assert_eq!(req.complete(RAW).unwrap().len(), 16);
    assert_eq!(mi::malloc_aligned(5, 8).call, MiCall::MallocAligned { size: 5, align: 8 });
    assert_eq!(mi::realloc(p, 7).call, MiCall::Realloc { ptr: RAW, new_size: 7 });
}

#[test]
fn heap_calls_go_to_the_heap() {
    let h = Heap::new().finish(HEAP);
    let p = AnyPtr::new(RAW).unwrap();
    assert_eq!(h.malloc(10).heap, Some(HEAP));
    // calloc on a heap reports one element's size.
    let c = h.calloc(5, 16);
    assert_eq!(c.call, MiCall::Calloc { count: 5, size: 16 });
    assert_eq!(c.complete(RAW).unwrap().len(), 16);
    assert_eq!(h.zalloc(24), h.calloc(1, 24));
    assert_eq!(h.zalloc_aligned(24, 8), h.calloc_aligned(1, 24, 8));
    assert_eq!(h.rezalloc(p, 40), h.recalloc(p, 1, 40));
    assert_eq!(h.rezalloc_aligned(p, 40, 8), h.recalloc_aligned(p, 1, 40, 8));
    assert_eq!(h.recalloc(p, 3, 8).complete(RAW).unwrap().len(), 24);
    assert_eq!(h.realloc(p, 9).call, MiCall::Realloc { ptr: RAW, new_size: 9 });
    assert_eq!(h.realloc_aligned(p, 9, 4).call, MiCall::ReallocAligned { ptr: RAW, new_size: 9, align: 4 });
    assert_eq!(h.malloc_aligned(9, 4).call, MiCall::MallocAligned { size: 9, align: 4 });
    assert_eq!(h.try_malloc_small(2000), Err(SmallAllocError::TooLarge));
    assert_eq!(h.malloc_small(2000), None);
    assert_eq!(h.malloc_small(20).unwrap().call, MiCall::MallocSmall { size: 20 });
}

#[test]
fn handles_make_the_same_calls() {
    let h = Heap::recycle_with(HeapTag::String).finish(HEAP);
    let handle = h.as_handle();
    let p = AnyPtr::new(RAW).unwrap();
    assert_eq!(handle.malloc(10), h.malloc(10));
    assert_eq!(handle.calloc_aligned(2, 8, 8), h.calloc_aligned(2, 8, 8));
    assert_eq!(handle.recalloc_aligned(p, 2, 8, 8), h.recalloc_aligned(p, 2, 8, 8));
    assert_eq!(handle.rezalloc(p, 8), h.rezalloc(p, 8));
    assert_eq!(handle.zalloc(8), h.zalloc(8));
    assert_eq!(handle.try_malloc_small(8), h.try_malloc_small(8));
    assert_eq!(handle.inner().handle(), HEAP);
    assert_eq!(handle.inner().handle_ptr(), HEAP);
    assert_eq!(handle.inner().zalloc(8), h.zalloc(8));
    assert_eq!(handle.inner().rezalloc(p, 8), h.rezalloc(p, 8));
    let backing: HeapHandle = Heap::get_backing(HEAP);
    assert_eq!(backing, handle);
    assert_eq!(HeapHandle::from_handle(HEAP), handle);
}

#[test]
fn heap_creation_and_release() {
    let n = Heap::new();
    assert_eq!(n.call(), HeapNewCall::New);
    let h = n.finish(HEAP);
    assert!(h.is_recycle() && !h.is_destroy());
    assert_eq!(h.release_call(), HeapRelease::Delete { heap: HEAP });
    let d = Heap::destroy_with(HeapTag::Extended(42));
    assert_eq!(d.call(), HeapNewCall::NewEx { tag: 42, allow_destroy: true });
    let d = d.finish(HEAP + 16);
    assert!(d.is_destroy());
    assert_eq!(d.release_call(), HeapRelease::Destroy { heap: HEAP + 16 });
    let r = Heap::recycle_with(HeapTag::BlockC);
    assert_eq!(r.call(), HeapNewCall::NewEx { tag: 6, allow_destroy: false });
}

#[test]
fn option_numbers() {
    assert_eq!(MiOptionType::ShowErrors.as_inner(), 0);
    assert_eq!(MiOptionType::ShowStats.as_inner(), 1);
    assert_eq!(MiOptionType::EagerCommit.as_inner(), 3);
    assert_eq!(MiOptionType::LimitOsAlloc.as_inner(), 17);
    assert_eq!(MiOptionType::VisitAbandoned.as_inner(), 29);
    assert_eq!(MiOption::set(MiOptionType::Verbose, 1), MiOptionCall::SetValue { option: 2, value: 1 });
    assert_eq!(MiOption::get_clamp(MiOptionType::PurgeDelay, -1, 100), MiOptionCall::GetClamp { option: 15, min: -1, max: 100 });
    assert_eq!(MiOption::disable(MiOptionType::ShowStats), MiOptionCall::Disable { option: 1 });
    assert_eq!(MiOption::enable(MiOptionType::ShowStats), MiOptionCall::Enable { option: 1 });
    assert_eq!(MiOption::get(MiOptionType::MaxErrors), MiOptionCall::Get { option: 19 });
    assert_eq!(MiOption::get_size(MiOptionType::ArenaReserve), MiOptionCall::GetSize { option: 23 });
    assert_eq!(MiOption::is_enabled(MiOptionType::OsTag), MiOptionCall::IsEnabled { option: 18 });
    assert_eq!(MiOption::set_default(MiOptionType::RetryOnOOM, 4), MiOptionCall::SetDefault { option: 28, value: 4 });
    assert_eq!(MiOption::set_enabled(MiOptionType::DestroyOnExit, true), MiOptionCall::SetEnabled { option: 22, enable: true });
    assert_eq!(
        MiOption::set_enabled_default(MiOptionType::DisallowArenaAllow, false),
        MiOptionCall::SetEnabledDefault { option: 27, enable: false }
    );
}

#[test]
fn layouts_and_power_of_two() {
    assert!(is_power_of_two(1) && is_power_of_two(64) && is_power_of_two(1 << 63));
    assert!(!is_power_of_two(0) && !is_power_of_two(12) && !is_power_of_two(usize::MAX));
    assert!(Layout::from_size_align(8, 3).is_none());
    assert!(Layout::from_size_align(8, 0).is_none());
    assert!(Layout::from_size_align(isize::MAX as usize, 1).is_some());
    assert!(Layout::from_size_align(isize::MAX as usize, 2).is_none());
    let l = Layout::from_size_align(24, 8).unwrap();
    assert_eq!((l.size(), l.align()), (24, 8));
}

#[test]
fn general_allocator_steps() {
    let gpa = MiMallocator;
    let l = Layout::from_size_align(24, 8).unwrap();
    let expected = AllocRequest {
        heap: None,
        call: MiCall::CallocAligned { count: 1, size: 24, align: 8 },
        span_count: 1,
        span_size: 24,
    };
    assert_eq!(gpa.allocate(l), AllocStep::Call(expected));
    assert_eq!(gpa.allocate_zeroed(l), AllocStep::Call(expected));
    assert_eq!(gpa.alloc_zeroed(l), AllocStep::Call(expected));
    let empty = Layout::from_size_align(0, 8).unwrap();
    match gpa.allocate(empty) {
        AllocStep::Done(b) => {
            // Aligned for the layout: at address 8, not 1.
            assert_eq!((b.addr(), b.len()), (8, 0));
            assert_eq!(b.addr() % 8, 0);
        }
        AllocStep::Call(_) => panic!("a zero-sized allocation must not reach mimalloc"),
    }
    let empty_byte = Layout::from_size_align(0, 1).unwrap();
    assert_eq!(gpa.allocate(empty_byte), AllocStep::Done(BlockPtr::dangling()));
    let p = AnyPtr::new(RAW).unwrap();
    assert_eq!(gpa.deallocate(p, l), Some(RAW));
    assert_eq!(gpa.deallocate(p, empty), None);
    assert_eq!(gpa.dealloc(0, l), None);
    assert_eq!(gpa.dealloc(RAW, l), Some(RAW));
    let big = Layout::from_size_align(48, 16).unwrap();
    let grown = gpa.grow(p, l, big);
    assert_eq!(grown.call, MiCall::RecallocAligned { ptr: RAW, new_count: 1, size: 48, align: 16 });
    assert_eq!(gpa.grow_zeroed(p, l, big), grown);
    assert_eq!(gpa.shrink(p, big, l).call, MiCall::RecallocAligned { ptr: RAW, new_count: 1, size: 24, align: 8 });
    assert_eq!(gpa.realloc(0, l, 10), None);
}

#[test]
fn arena_reservation() {
    let opts = OsArenaOpts::default();
    assert_eq!(opts.size, 2_147_483_648);
    assert!(!opts.commit && opts.exclusive && opts.allow_large);
    assert_eq!(
        OsArena::reserve_os_memory_ex(opts),
        ReserveCall::Arena { size: 2_147_483_648, commit: false, allow_large: true, exclusive: true }
    );
    assert_eq!(
        OsArena::reserve_os_memory(4096, true, false),
        ReserveCall::Shared { size: 4096, commit: true, allow_large: false }
    );
    assert!(OsArena::reserve_succeeded(0));
    assert!(!OsArena::reserve_succeeded(12));
    assert_eq!(OsArena::from_reserve_ex(12, 3), Err(ArenaError::ReserveFailed { code: 12 }));
    assert_eq!(OsArena::from_reserve_ex(0, 0), Err(ArenaError::NullArenaId));
    let a = OsArena::from_reserve_ex(0, 3).unwrap();
    assert_eq!(a.id(), 3);
    let area = a.slice_ptr(0x10_0000, 4096);
    assert_eq!((area.addr(), area.len()), (0x10_0000, 4096));
    assert_eq!(a.size_bytes(0x10_0000, 4096), 4096);
}

#[test]
fn blocks_with_aligned_size_are_evenly_spaced() {
    // 16-byte blocks aligned to 8 from an unaligned start: every block moves
    // forward by the same 5 bytes.
    let c = MemoryChunk::blocks_bytes_aligned(block(0x1003, 64), 16, 4, 8);
    let a0 = c.block_at(0).unwrap().addr();
    let a2 = c.block_at(2).unwrap().addr();
    assert_eq!(a0, 0x1008);
    assert_eq!(a2 - a0, 2 * 16);
    assert_eq!(c.block_at(3).unwrap().addr() - c.block_at(1).unwrap().addr(), 32);
}

#[test]
fn heaps_as_allocators() {
    let h = Heap::new().finish(HEAP);
    let p = AnyPtr::new(RAW).unwrap();
    let small = Layout::from_size_align(16, 8).unwrap();
    let large = Layout::from_size_align(64, 16).unwrap();
    assert_eq!(h.allocate(small), h.malloc_aligned(16, 8));
    assert_eq!(h.allocate_zeroed(small), h.calloc_aligned(1, 16, 8));
    assert_eq!(h.grow(p, small, large), h.realloc_aligned(p, 64, 16));
    assert_eq!(h.grow_zeroed(p, small, large), h.recalloc_aligned(p, 1, 64, 16));
    assert_eq!(h.shrink(p, large, small), h.recalloc_aligned(p, 1, 16, 8));
    let handle = h.as_handle();
    assert_eq!(handle.allocate(small), h.allocate(small));
    assert_eq!(handle.shrink(p, large, small), h.shrink(p, large, small));
}

#[test]
fn block_at_hands_out_zero_sized_blocks() {
    let c = MemoryChunk::blocks_bytes(block(0x1003, 16), 0, 4);
    for i in 0..4 {
        let b = c.block_at(i).unwrap();
        assert_eq!((b.addr(), b.len()), (0x1003, 0));
    }
    assert_eq!(c.block_at(4), None);
    // Aligned zero-sized blocks move to the next multiple of the alignment.
    let c = MemoryChunk::blocks_bytes_aligned(block(0x1003, 16), 0, 2, 8);
    assert_eq!(c.block_at(1).unwrap().addr(), 0x1008);
}

/// Records the last request it was given and answers with a fixed chunk.
struct Recorder {
    last: std::cell::Cell<(bool, Option<usize>, usize, usize, Option<usize>)>,
}

impl Recorder {
    fn answer(&self, zeroed: bool, resize: Option<AnyPtr>, count: usize, size: usize, align: Option<usize>) -> Option<MemoryChunk> {
        self.last.set((zeroed, resize.map(|p| p.addr()), count, size, align));
        Some(MemoryChunk::bytes(block(RAW, count * size)))
    }
}

impl SystemAllocator for Recorder {
    /// The recorder may answer anything.
    fn chunk_answer(
        &self,
        _zeroed: bool,
        _resize: Option<usize>,
        _count: usize,
        _size: usize,
        _align: Option<usize>,
        _r: Option<MemoryChunk>,
    ) -> bool {
        true
    }

    fn allocate_chunk(&self, resize_ptr: Option<AnyPtr>, block_count: usize, size: usize) -> Option<MemoryChunk> {
        self.answer(false, resize_ptr, block_count, size, None)
    }

    fn zallocate_chunk(&self, resize_ptr: Option<AnyPtr>, block_count: usize, size: usize) -> Option<MemoryChunk> {
        self.answer(true, resize_ptr, block_count, size, None)
    }

    fn allocate_chunk_aligned(&self, resize_ptr: Option<AnyPtr>, block_count: usize, size: usize, align: usize) -> Option<MemoryChunk> {
        self.answer(false, resize_ptr, block_count, size, Some(align))
    }

    fn zallocate_chunk_aligned(&self, ptr: Option<AnyPtr>, count: usize, size: usize, align: usize) -> Option<MemoryChunk> {
        self.answer(true, ptr, count, size, Some(align))
    }
}

#[test]
fn system_allocator_routes_through_chunks() {
    let a = Recorder { last: std::cell::Cell::new((false, None, 0, 0, None)) };
    let p = AnyPtr::new(0x4000).unwrap();
    a.malloc(10);
    assert_eq!(a.last.get(), (false, None, 1, 10, None));
    a.malloc_aligned(10, 8);
    assert_eq!(a.last.get(), (false, None, 1, 10, Some(8)));
    a.calloc(3, 4);
    assert_eq!(a.last.get(), (true, None, 3, 4, None));
    a.calloc_aligned(3, 4, 16);
    assert_eq!(a.last.get(), (true, None, 3, 4, Some(16)));
    a.recalloc(p, 5, 2);
    assert_eq!(a.last.get(), (true, Some(0x4000), 5, 2, None));
    a.recalloc_aligned(p, 5, 2, 4);
    assert_eq!(a.last.get(), (true, Some(0x4000), 5, 2, Some(4)));
    a.realloc(p, 7);
    assert_eq!(a.last.get(), (false, Some(0x4000), 1, 7, None));
    a.realloc_aligned(p, 7, 2);
    assert_eq!(a.last.get(), (false, Some(0x4000), 1, 7, Some(2)));
    a.zalloc(9);
    assert_eq!(a.last.get(), (true, None, 1, 9, None));
    a.zalloc_aligned(9, 8);
    assert_eq!(a.last.get(), (true, None, 1, 9, Some(8)));
    a.rezalloc(p, 11);
    assert_eq!(a.last.get(), (true, Some(0x4000), 1, 11, None));
    let c = a.rezalloc_aligned(p, 11, 8).unwrap();
    assert_eq!(a.last.get(), (true, Some(0x4000), 1, 11, Some(8)));
    assert_eq!(a.free(p), 0x4000);
    assert_eq!(a.free_array(block(0x6000, 4)), 0x6000);
    assert_eq!(a.free_chunk(&c), RAW);
}
