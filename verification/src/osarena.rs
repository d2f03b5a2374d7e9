//! mimalloc arenas: memory reserved from the OS up front, which mimalloc
//! allocates from before asking the OS again.

use vstd::prelude::*;
use crate::api::BlockPtr;
use crate::units::{gigabytes, kib};

verus! {

/// How to reserve an arena.
#[derive(Debug, Clone, Copy)]
pub struct OsArenaOpts {
    /// Size in bytes of the arena.
    pub size: usize,
    /// Commit the memory up front?
    pub commit: bool,
    /// Is the arena exclusive?
    pub exclusive: bool,
    /// May large OS pages (2MB) be used?
    pub allow_large: bool,
}

impl Default for OsArenaOpts {
    /// Two gigabytes, committed on demand, exclusive, large pages allowed.
    fn default() -> (r: Self)
        ensures
            r.size == kib(kib(kib(2))),
            !r.commit,
            r.exclusive,
            r.allow_large,
    {
        OsArenaOpts { size: gigabytes(2) as usize, commit: false, exclusive: true, allow_large: true }
    }
}

/// The mimalloc call that reserves OS memory.
#[derive(Debug, Clone, Copy, PartialEq, Eq)]
pub enum ReserveCall {
    /// `mi_reserve_os_memory(size, commit, allow_large)`: memory for
    /// mimalloc's general use, with no arena id handed back.
    Shared { size: usize, commit: bool, allow_large: bool },
    /// `mi_reserve_os_memory_ex(size, commit, allow_large, exclusive, &id)`:
    /// an arena whose id is written to `id`.
    Arena { size: usize, commit: bool, allow_large: bool, exclusive: bool },
}

/// Why reserving an arena failed.
#[derive(Debug, Clone, Copy, PartialEq, Eq)]
pub enum ArenaError {
    /// mimalloc answered with this non-zero error code.
    ReserveFailed { code: i32 },
    /// mimalloc reported success but handed back a null arena id.
    NullArenaId,
}

/// An arena reserved from the OS, known by its non-null mimalloc arena id.
#[derive(Debug, Clone, Copy, PartialEq, Eq, PartialOrd, Ord, Hash)]
pub struct OsArena {
    id: usize,
}

impl View for OsArena {
    /// The arena id.
    type V = usize;

    closed spec fn view(&self) -> usize {
        self.id
    }
}

impl OsArena {
    #[verifier::type_invariant]
    spec fn non_null(self) -> bool {
        self.id != 0
    }

    /// Reserves `size_bytes` of OS memory for mimalloc's general use; no arena
    /// is handed back. See [OsArena::reserve_succeeded] for the answer.
    pub fn reserve_os_memory(size_bytes: usize, commit_upfront: bool, allow_large_pages: bool) -> (r: ReserveCall)
        ensures
            r == (ReserveCall::Shared { size: size_bytes, commit: commit_upfront, allow_large: allow_large_pages }),
    {
        ReserveCall::Shared { size: size_bytes, commit: commit_upfront, allow_large: allow_large_pages }
    }

    /// Whether the reservation succeeded, given mimalloc's error code: only 0
    /// is success (ENOMEM and the like are failures).
    pub fn reserve_succeeded(err: i32) -> (r: bool)
        ensures
            r == (err == 0),
    {
        err == 0
    }

    /// Reserves an arena as `opts` says.
    pub fn reserve_os_memory_ex(opts: OsArenaOpts) -> (r: ReserveCall)
        ensures
            r == (ReserveCall::Arena {
                size: opts.size,
                commit: opts.commit,
                allow_large: opts.allow_large,
                exclusive: opts.exclusive,
            }),
    {
        let OsArenaOpts { size, commit, exclusive, allow_large } = opts;
        ReserveCall::Arena { size, commit, allow_large, exclusive }
    }

    /// The arena that `mi_reserve_os_memory_ex` reserved, given its error code
    /// and the arena id it wrote: a non-zero code is an error, and so is a
    /// null id.
    pub fn from_reserve_ex(err: i32, arena_id: usize) -> (r: Result<OsArena, ArenaError>)
        ensures
            err != 0 ==> r == Err::<OsArena, ArenaError>(ArenaError::ReserveFailed { code: err }),
            err == 0 && arena_id == 0 ==> r == Err::<OsArena, ArenaError>(ArenaError::NullArenaId),
            err == 0 && arena_id != 0 ==> (r matches Ok(a) && a@ == arena_id),
    {
        if err != 0 {
            return Err(ArenaError::ReserveFailed { code: err });
        }
        if arena_id == 0 {
            return Err(ArenaError::NullArenaId);
        }
        Ok(OsArena { id: arena_id })
    }

    /// The arena id, as handed to `mi_arena_area`.
    pub fn id(&self) -> (r: usize)
        ensures
            r == self@,
            r != 0,
    {
        proof {
            use_type_invariant(self);
        }
        self.id
    }

    /// The memory of the arena, given what `mi_arena_area(id, &size)`
    /// answered: its start address and the size it wrote. A reserved arena
    /// always has a non-null start and a non-zero size.
    pub fn slice_ptr(&self, start: usize, size: usize) -> (r: BlockPtr)
        requires
            start != 0,
            size != 0,
        ensures
            r@ == (start, size),
    {
        BlockPtr::new_non_null(start, size)
    }

    /// The size in bytes of the arena (the length of [OsArena::slice_ptr]),
    /// given what `mi_arena_area` answered.
    pub fn size_bytes(&self, start: usize, size: usize) -> (r: usize)
        requires
            start != 0,
            size != 0,
        ensures
            r == size,
    {
        self.slice_ptr(start, size).len()
    }
}

} // verus!
