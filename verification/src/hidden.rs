//! Support items that the companion assertion and conversion macros
//! expand into; not meant to be called directly.

use vstd::prelude::*;

verus! {

/// Wrapper around a simple function call: runs `f` and hands back its
/// result, under `f`'s own contract.
#[inline(always)]
pub fn call<F, R>(f: F) -> (r: R) where F: FnOnce() -> R
    requires
        call_requires(f, ()),
    ensures
        call_ensures(f, (), r),
{
    f()
}

} // verus!
