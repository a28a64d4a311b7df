use vstd::prelude::*;

verus! {

/// A thread count as the engine's options take it (a C `int`). Counts beyond
/// that range are clamped to its maximum.
pub fn native_thread_count(n: u32) -> (r: i32)
    ensures
        n <= i32::MAX ==> r == n,
        n > i32::MAX ==> r == i32::MAX,
{
    if n <= i32::MAX as u32 {
        n as i32
    } else {
        i32::MAX
    }
}

/// A thread count read back from the engine's options. The engine never
/// stores a negative count; should one appear it reads as zero.
pub fn thread_count_from_native(n: i32) -> (r: u32)
    ensures
        n >= 0 ==> r == n,
        n < 0 ==> r == 0,
{
    if n >= 0 {
        n as u32
    } else {
        0
    }
}

} // verus!
