//! Byte-size units.

use vstd::prelude::*;

verus! {

/// Bytes in one kilobyte.
pub const KB1: u64 = 1024;

/// `n` kilobytes as an exact number of bytes.
pub open spec fn kib(n: int) -> int {
    n * 1024
}

/// `n` kilobytes in bytes.
pub fn kilobytes(n: u64) -> (r: u64)
    requires
        kib(n as int) <= u64::MAX,
    ensures
        r == kib(n as int),
{
    n * KB1
}

/// `n` megabytes in bytes.
pub fn megabytes(n: u64) -> (r: u64)
    requires
        kib(kib(n as int)) <= u64::MAX,
    ensures
        r == kib(kib(n as int)),
{
    kilobytes(n) * KB1
}

/// `n` gigabytes in bytes.
pub fn gigabytes(n: u64) -> (r: u64)
    requires
        kib(kib(kib(n as int))) <= u64::MAX,
    ensures
        r == kib(kib(kib(n as int))),
{
    megabytes(n) * KB1
}

/// `n` terabytes in bytes.
pub fn terabytes(n: u64) -> (r: u64)
    requires
        kib(kib(kib(kib(n as int)))) <= u64::MAX,
    ensures
        r == kib(kib(kib(kib(n as int)))),
{
    gigabytes(n) * KB1
}

/// Each unit is 1024 of the one below it, so the k-th unit of `n` is `n * 1024^k`
/// bytes, and every unit is monotone in `n`.
pub proof fn lemma_unit_scales(n: int, m: int)
    ensures
        kib(kib(n)) == n * 1048576,
        kib(kib(kib(n))) == n * 1073741824,
        kib(kib(kib(kib(n)))) == n * 1099511627776,
        n <= m ==> kib(n) <= kib(m),
        n <= m ==> kib(kib(kib(kib(n)))) <= kib(kib(kib(kib(m)))),
        0 <= n ==> n <= kib(n) <= kib(kib(n)) <= kib(kib(kib(n))) <= kib(kib(kib(kib(n)))),
{
}

} // verus!
