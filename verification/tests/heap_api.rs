use blight_rs::arena::ArenaBlock;
use blight_rs::gpa::{AllocStep, Layout, MiMallocator};
use blight_rs::heap::owned::{Heap, HeapNewCall, HeapRelease, HeapTag};
use blight_rs::mimalloc::{AllocRequest, AnyPtr, MiCall};

/// Addresses standing in for what mimalloc would answer.
const HEAP_ADDR: usize = 0x7f00_0000_1000;
const BLOCK_ADDR: usize = 0x7f00_0010_0040;

#[allow(dead_code)]
#[derive(Debug, Default, Clone, Copy)]
struct Point3D {
    x: i32,
    y: i32,
    z: i32,
    w: i32,
}

fn layout_of<T>() -> Layout {
    Layout::from_size_align(core::mem::size_of::<T>(), core::mem::align_of::<T>()).unwrap()
}

#[test]
fn heap_alloc_then_delete() {
    const LEN: usize = 5;
    let new_heap = Heap::recycle_with(HeapTag::Object);
    assert_eq!(new_heap.call(), HeapNewCall::NewEx { tag: 2, allow_destroy: false });
    let h = new_heap.finish(HEAP_ADDR);
    assert!(h.is_recycle());
    let req = h.calloc_aligned(LEN, core::mem::size_of::<Point3D>(), core::mem::align_of::<Point3D>());
    assert_eq!(req.heap, Some(HEAP_ADDR));
    assert_eq!(
        req.call,
        MiCall::CallocAligned {
            count: LEN,
            size: core::mem::size_of::<Point3D>(),
            align: core::mem::align_of::<Point3D>()
        }
    );
    if let Some(pm) = req.complete(BLOCK_ADDR) {
        assert_eq!(pm.addr(), BLOCK_ADDR);
        // The heap's calloc reports one element's size.
        assert_eq!(pm.len(), core::mem::size_of::<Point3D>());
        assert_eq!(pm.len(), 16);
    } else {
        panic!("calloc_aligned returned None!");
    }
    assert_eq!(h.release_call(), HeapRelease::Delete { heap: HEAP_ADDR });
}

#[test]
fn allocate_dst() {
    let h = Heap::new().finish(HEAP_ADDR);
    let new_block = ArenaBlock::new(255, &h);
    let header = core::mem::size_of::<Option<Box<[u8]>>>() + core::mem::size_of::<i32>();
    assert_eq!(new_block.layout().size(), header + 255);
    assert_eq!(new_block.layout().align(), 8);
    let req = new_block.request();
    assert_eq!(req.heap, Some(HEAP_ADDR));
    assert_eq!(req.call, MiCall::MallocAligned { size: header + 255, align: 8 });
    let a = new_block.finish(BLOCK_ADDR);
    assert_eq!(a.storage().addr(), BLOCK_ADDR + header);
    assert_eq!(a.storage().len(), 255);
}

#[test]
fn global_allocator_box_and_rc() {
    let gpa = MiMallocator;
    // Box::new(65): one i32.
    let boxed = gpa.global_alloc(layout_of::<i32>());
    match boxed {
        AllocStep::Call(req) => {
            assert_eq!(req.heap, None);
            assert_eq!(req.call, MiCall::CallocAligned { count: 1, size: 4, align: 4 });
            let b = req.complete(BLOCK_ADDR).unwrap();
            assert_eq!(b.len(), 4);
        }
        AllocStep::Done(_) => panic!("a non-empty box must come from mimalloc"),
    }
    // Rc::new([0u8; 64]): two counters and 64 bytes, every byte zero because
    // the allocator only ever hands out zeroed blocks.
    let rc_layout = Layout::from_size_align(2 * core::mem::size_of::<usize>() + 64, core::mem::align_of::<usize>()).unwrap();
    match gpa.global_alloc(rc_layout) {
        AllocStep::Call(req) => match req.call {
            MiCall::CallocAligned { count, size, .. } => {
                assert_eq!(count, 1);
                assert_eq!(size, 2 * core::mem::size_of::<usize>() + 64);
            }
            _ => panic!("the global allocator must ask for zeroed memory"),
        },
        AllocStep::Done(_) => panic!("a non-empty rc must come from mimalloc"),
    }
}

#[test]
fn global_strings_and_formating() {
    let gpa = MiMallocator;
    let mut s = String::new();
    s.push_str("hello mayteee");
    let x = 59;
    let y = x.to_string();
    assert_eq!("hello mayteee", s);
    assert_eq!("59", y);

    // The string's bytes: a zeroed, byte-aligned block of its length.
    let step = gpa.global_alloc(Layout::from_size_align(s.len(), 1).unwrap());
    assert_eq!(
        step,
        AllocStep::Call(AllocRequest {
            heap: None,
            call: MiCall::CallocAligned { count: 1, size: 13, align: 1 },
            span_count: 1,
            span_size: 13,
        })
    );
    // Growing it goes through mimalloc's zeroing reallocation.
    let grown = gpa.realloc(BLOCK_ADDR, Layout::from_size_align(13, 1).unwrap(), 26).unwrap();
    assert_eq!(grown.call, MiCall::RecallocAligned { ptr: BLOCK_ADDR, new_count: 1, size: 26, align: 1 });
    assert_eq!(grown.complete(BLOCK_ADDR).unwrap().len(), 26);
    // The empty string owns no block at all.
    match gpa.global_alloc(Layout::from_size_align(y.len() - 2, 1).unwrap()) {
        AllocStep::Done(b) => {
            assert_eq!(b.addr(), 1);
            assert_eq!(b.len(), 0);
        }
        AllocStep::Call(_) => panic!("a zero-sized allocation must not reach mimalloc"),
    }
    let _ = AnyPtr::new(BLOCK_ADDR).unwrap();
}
