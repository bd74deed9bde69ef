//! The raw allocation layer.
//!
//! Every operation here is precondition-only: nothing in this module
//! validates an argument at run time. A caller must prove, through the
//! `requires` clauses, that each offset is in range and that a region is
//! released with the count it was made with. The bounds-checking wrapper
//! in `buffer` performs exactly those proofs, so the unchecked style of
//! this layer never reaches ordinary callers.

use vstd::prelude::*;

verus! {

/// A contiguous region of `i32` elements with a fixed element count.
///
/// The handle is opaque to callers: only its abstract contents, a sequence
/// of elements, appear in contracts. The element count is the length of
/// that sequence and never changes over the life of the region.
pub struct RawAlloc {
    cells: Vec<i32>,
}

impl View for RawAlloc {
    type V = Seq<i32>;

    closed spec fn view(&self) -> Seq<i32> {
        self.cells@
    }
}

/// The largest element count whose region, at four bytes per element,
/// still has a representable size in bytes. Asking for more is a fatal
/// size-descriptor error, so allocation excludes it by precondition.
pub open spec fn max_region_elems() -> int {
    isize::MAX as int / 4
}

/// Allocates a region of `count` elements. The contents of a fresh
/// region are unspecified: nothing may be assumed about them until
/// they have been written.
pub fn raw_alloc(count: usize) -> (region: RawAlloc)
    requires
        count > 0,
        count <= max_region_elems(),
    ensures
        region@.len() == count,
{
    let mut cells: Vec<i32> = Vec::new();
    let mut i: usize = 0;
    while i < count
        invariant
            i <= count,
            cells@.len() == i,
        decreases count - i,
    {
        cells.push(0);
        i = i + 1;
    }
    RawAlloc { cells }
}

/// Releases a region. The count must be exactly the one the region was
/// allocated with, and the move of `region` into this call is the last
/// use of the handle: a second release of the same region cannot be
/// written at all.
#[allow(unused_variables)]
pub fn raw_dealloc(region: RawAlloc, count: usize)
    requires
        count == region@.len(),
{
}

/// Reads the element at `offset`. There is no bounds check in the body:
/// the precondition alone keeps the access in range.
pub fn unsafe_read(region: &RawAlloc, offset: usize) -> (value: i32)
    requires
        offset < region@.len(),
    ensures
        value == region@[offset as int],
{
    region.cells[offset]
}

/// Writes `value` at `offset`. As with `unsafe_read`, the body performs
/// no validation; the precondition is the whole safety argument.
pub fn unsafe_write(region: &mut RawAlloc, offset: usize, value: i32)
    requires
        offset < old(region)@.len(),
    ensures
        final(region)@ == old(region)@.update(offset as int, value),
{
    region.cells[offset] = value;
}

/// Allocates a region and leaves its contents unspecified, passing the
/// raw preconditions straight through to the caller.
pub fn mid_level_alloc_uninit(count: usize) -> (region: RawAlloc)
    requires
        count > 0,
        count <= max_region_elems(),
    ensures
        region@.len() == count,
{
    raw_alloc(count)
}

/// Allocates a region and writes zero to every element, so that a
/// caller may rely on the initial contents.
pub fn mid_level_alloc_zeroed(count: usize) -> (region: RawAlloc)
    requires
        count > 0,
        count <= max_region_elems(),
    ensures
        region@.len() == count,
        forall|i: int| 0 <= i < count ==> region@[i] == 0,
{
    let mut region = raw_alloc(count);
    let mut i: usize = 0;
    while i < count
        invariant
            i <= count,
            region@.len() == count,
            forall|j: int| 0 <= j < i ==> region@[j] == 0,
        decreases count - i,
    {
        unsafe_write(&mut region, i, 0);
        i = i + 1;
    }
    region
}

/// Allocates a zero-initialized region of `count` elements. The caller
/// remains responsible for releasing the region with the same count;
/// because `unsafe_free` consumes the handle, releasing it twice is
/// impossible to write.
pub fn unsafe_alloc(count: usize) -> (region: RawAlloc)
    requires
        count > 0,
        count <= max_region_elems(),
    ensures
        region@.len() == count,
        forall|i: int| 0 <= i < count ==> region@[i] == 0,
{
    mid_level_alloc_zeroed(count)
}

/// Releases a region allocated by `unsafe_alloc`. The count must match
/// the one given at allocation.
pub fn unsafe_free(region: RawAlloc, count: usize)
    requires
        count == region@.len(),
{
    raw_dealloc(region, count);
}

/// Borrows the whole region as a read-only window.
pub(crate) fn region_slice(region: &RawAlloc) -> (window: &[i32])
    ensures
        window@ == region@,
{
    region.cells.as_slice()
}

/// Borrows the whole region as an exclusive read-write window.
pub(crate) fn region_mut_slice(region: &mut RawAlloc) -> (window: &mut [i32])
    ensures
        window@ == old(region)@,
        final(region)@ == final(window)@,
{
    region.cells.as_mut_slice()
}

} // verus!
