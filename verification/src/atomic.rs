//! A signed 32-bit cell whose every read-modify-write is one indivisible step.
//!
//! Mutation takes an exclusive borrow, so no two operations on one cell can
//! overlap; callers that share a cell between threads keep it behind a lock.

use vstd::prelude::*;

verus! {

/// A signed 32-bit integer cell. The same cell serves as a flag: zero is
/// `false`, anything else is `true`.
#[derive(Debug)]
pub struct AtomicInt {
    value: i32,
}

impl View for AtomicInt {
    type V = int;

    closed spec fn view(&self) -> int {
        self.value as int
    }
}

impl AtomicInt {
    /// A cell holding `n`.
    pub fn new(n: i32) -> (a: AtomicInt)
        ensures
            a@ == n,
    {
        AtomicInt { value: n }
    }

    /// The cell read as a flag.
    pub open spec fn flag(&self) -> bool {
        self@ != 0
    }

    /// What a cell holds lies in the range of `i32`.
    pub proof fn lemma_in_range(&self)
        ensures
            i32::MIN <= self@ <= i32::MAX,
    {
    }
}

/// The integer that stands for a flag value.
pub open spec fn flag_value(b: bool) -> int {
    if b {
        1
    } else {
        0
    }
}

/// Reads the cell.
pub fn atomic_get(a: &AtomicInt) -> (x: i32)
    ensures
        x == a@,
{
    a.value
}

/// Stores `n` and returns it.
pub fn atomic_set(a: &mut AtomicInt, n: i32) -> (r: i32)
    ensures
        final(a)@ == n,
        r == n,
{
    a.value = n;
    n
}

/// Adds `n` to the cell and returns the sum, which is what the cell then holds.
pub fn atomic_add(a: &mut AtomicInt, n: i32) -> (r: i32)
    requires
        i32::MIN <= old(a)@ + n <= i32::MAX,
    ensures
        final(a)@ == old(a)@ + n,
        r == old(a)@ + n,
{
    let x: i32 = a.value;
    a.value = x + n;
    x + n
}

/// Reads the cell as a flag.
pub fn atomic_bool_get(a: &AtomicInt) -> (b: bool)
    ensures
        b == a.flag(),
{
    a.value != 0
}

/// Stores a flag and returns it.
pub fn atomic_bool_set(a: &mut AtomicInt, b: bool) -> (r: bool)
    ensures
        final(a)@ == flag_value(b),
        final(a).flag() == b,
        r == b,
{
    let x: i32 = if b { 1 } else { 0 };
    a.value = x;
    b
}

/// Stores a flag and returns the flag that the cell held before.
pub fn atomic_bool_get_set(a: &mut AtomicInt, b: bool) -> (r: bool)
    ensures
        r == old(a).flag(),
        final(a)@ == flag_value(b),
        final(a).flag() == b,
{
    let r: i32 = a.value;
    let x: i32 = if b { 1 } else { 0 };
    a.value = x;
    r != 0
}

} // verus!
