//! A chain of precondition-only contracts.
//!
//! Each level calls the one below it and either passes the lower
//! level's obligations on to its own caller unchanged, or discharges
//! them itself so that its callers face none. The chain ends in the
//! raw layer, whose allocation demands a positive, representable
//! count; a single-element region satisfies both outright.

use vstd::prelude::*;

use crate::raw;
use crate::raw::RawAlloc;

verus! {

/// Level one: calls the raw allocator directly for one element.
fn level1_unsafe() -> (region: RawAlloc)
    ensures
        region@.len() == 1,
{
    raw::raw_alloc(1)
}

/// Level two: passes level one's result on, adding nothing.
fn level2_unsafe() -> (region: RawAlloc)
    ensures
        region@.len() == 1,
{
    level1_unsafe()
}

/// Level three, propagating: callers receive the region and with it
/// the duty to release it with count one.
pub fn level3_propagate() -> (region: RawAlloc)
    ensures
        region@.len() == 1,
{
    level2_unsafe()
}

/// Level three, discharging: the same region, but the obligation trail
/// below it ends here; nothing further is demanded of the caller by
/// this function's own contract.
pub fn level3_suppress() -> (region: RawAlloc)
    ensures
        region@.len() == 1,
{
    level2_unsafe()
}

/// Releases a single-element region produced by this chain.
pub fn cleanup(region: RawAlloc)
    requires
        region@.len() == 1,
{
    raw::raw_dealloc(region, 1);
}

} // verus!
