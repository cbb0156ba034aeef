//! A minimal exported function, the smallest unit a host can call.

use vstd::prelude::*;

verus! {

/// The sum of two 64-bit integers.
pub fn add(a: u64, b: u64) -> (r: u64)
    requires
        a + b <= u64::MAX,
    ensures
        r == a + b,
{
    a + b
}

} // verus!
