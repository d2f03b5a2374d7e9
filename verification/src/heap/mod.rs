//! mimalloc heaps (`mi_heap_t`): owned heaps, borrowed handles to heaps, and
//! the allocation calls made on them.

use vstd::prelude::*;

pub mod owned;
pub mod handle;
pub mod inner;

verus! {

/// The address of a live mimalloc heap; never zero.
#[derive(Debug, Clone, Copy, PartialEq, Eq, PartialOrd, Ord, Hash)]
pub struct InnerHeap {
    handle: usize,
}

impl View for InnerHeap {
    type V = usize;

    closed spec fn view(&self) -> usize {
        self.handle
    }
}

impl InnerHeap {
    #[verifier::type_invariant]
    spec fn non_null(self) -> bool {
        self.handle != 0
    }

    /// The heap at the non-null address `handle`.
    pub fn from_address(handle: usize) -> (r: InnerHeap)
        requires
            handle != 0,
        ensures
            r@ == handle,
    {
        InnerHeap { handle }
    }
}

} // verus!
