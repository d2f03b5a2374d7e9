# blight-rs

Memory allocation on top of mimalloc, in two crates:

- `src/` — the verified library (Verus). It holds everything that is decided
  rather than done: size units, `MemoryChunk` descriptors and the address
  arithmetic of `block_at`, heap tags, which mimalloc routine each allocation
  method calls and with which arguments (`AllocRequest`, `HeapNewCall`,
  `HeapRelease`, `ReserveCall`, `MiOptionCall`), and what each method returns
  once mimalloc has answered (`AllocRequest::complete`, `NewHeap::finish`,
  `OsArena::from_reserve_ex`, ...). Addresses are plain integers; a null
  address never becomes a `BlockPtr`.
- `app/` — the unverified half: it performs the mimalloc calls (through
  `libmimalloc-sys`), turns the library's answers into `NonNull` pointers,
  releases heaps on drop, and implements `GlobalAlloc`.

Run the library's tests with `cargo test`; verify it with Verus on `src/lib.rs`.
