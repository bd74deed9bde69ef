//! The safety-discharging wrapper.
//!
//! A `SafeBuffer` owns exactly one raw region and records its element
//! count. Every operation validates its index before delegating to the
//! raw layer, so each raw precondition is proved here, once, and callers
//! of this module never see one. An out-of-range index is answered with
//! `None` or `BufferError::IndexOutOfRange`, never with a panic.

use vstd::prelude::*;

use crate::raw;
use crate::raw::RawAlloc;

verus! {

/// The recoverable failure of an operation on a `SafeBuffer`.
#[derive(Clone, Copy, Debug, PartialEq, Eq, Structural)]
pub enum BufferError {
    /// The given index or range does not lie within the buffer.
    IndexOutOfRange,
}

/// A fixed-length, zero-initialized buffer of `i32` elements that owns
/// its allocation. The allocation is released exactly once, when the
/// buffer is dropped; ownership makes any second release unwritable.
pub struct SafeBuffer {
    region: RawAlloc,
    len: usize,
}

impl View for SafeBuffer {
    type V = Seq<i32>;

    closed spec fn view(&self) -> Seq<i32> {
        self.region@
    }
}

impl SafeBuffer {
    /// The buffer is well formed: the recorded length matches the
    /// owned region, is positive, and fits a representable region size.
    pub closed spec fn wf(&self) -> bool {
        &&& self.len == self.region@.len()
        &&& self.len > 0
        &&& self.len <= raw::max_region_elems()
    }

    /// Creates a buffer of `len` elements, every one of them zero.
    /// A zero `len` is a programming error and is excluded here, as is
    /// a length whose region size would be unrepresentable; within
    /// those bounds construction always succeeds.
    pub fn new(len: usize) -> (buf: SafeBuffer)
        requires
            len > 0,
            len <= raw::max_region_elems(),
        ensures
            buf.wf(),
            buf@.len() == len,
            forall|i: int| 0 <= i < len ==> buf@[i] == 0,
    {
        let region = raw::mid_level_alloc_zeroed(len);
        SafeBuffer { region, len }
    }

    /// Returns the element count fixed at construction.
    pub fn len(&self) -> (n: usize)
        requires
            self.wf(),
        ensures
            n == self@.len(),
    {
        self.len
    }

    /// Returns whether the buffer holds no elements; under `wf` this is
    /// always false, since empty buffers are rejected at construction.
    pub fn is_empty(&self) -> (empty: bool)
        requires
            self.wf(),
        ensures
            empty == (self@.len() == 0),
            !empty,
    {
        self.len == 0
    }

    /// Reads the element at `index`, or returns `None` when the index
    /// is out of range. The bounds check here discharges the raw
    /// layer's read precondition.
    pub fn get(&self, index: usize) -> (result: Option<i32>)
        requires
            self.wf(),
        ensures
            index < self@.len() ==> result == Some(self@[index as int]),
            index >= self@.len() ==> result is None,
    {
        if index >= self.len {
            return None;
        }
        Some(raw::unsafe_read(&self.region, index))
    }

    /// Writes `value` at `index`, or returns an out-of-range error and
    /// leaves the buffer unchanged. The bounds check here discharges
    /// the raw layer's write precondition.
    pub fn set(&mut self, index: usize, value: i32) -> (result: Result<(), BufferError>)
        requires
            old(self).wf(),
        ensures
            final(self).wf(),
            index < old(self)@.len() ==> result == Ok::<(), BufferError>(())
                && final(self)@ == old(self)@.update(index as int, value),
            index >= old(self)@.len() ==> result == Err::<(), BufferError>(
                BufferError::IndexOutOfRange,
            ) && final(self)@ == old(self)@,
    {
        if index >= self.len {
            return Err(BufferError::IndexOutOfRange);
        }
        raw::unsafe_write(&mut self.region, index, value);
        Ok(())
    }

    /// Borrows the whole buffer as a read-only window. The window
    /// cannot outlive the buffer, and no write can happen while it is
    /// alive.
    pub fn as_slice(&self) -> (window: &[i32])
        requires
            self.wf(),
        ensures
            window@ == self@,
    {
        raw::region_slice(&self.region)
    }

    /// Borrows the whole buffer as an exclusive read-write window. No
    /// other window over this buffer can coexist with it; the buffer
    /// afterwards holds exactly what the window was left holding.
    pub fn as_mut_slice(&mut self) -> (window: &mut [i32])
        requires
            old(self).wf(),
        ensures
            window@ == old(self)@,
            final(self)@ == final(window)@,
            final(window)@.len() == old(self)@.len() ==> final(self).wf(),
    {
        raw::region_mut_slice(&mut self.region)
    }

    /// Borrows the window over `[start, start + len)`, or returns
    /// `None` when that range does not lie fully inside the buffer.
    /// The range check saturates, so an index pair whose sum exceeds
    /// the machine word can never pass as valid.
    pub fn get_slice(&self, start: usize, len: usize) -> (window: Option<&[i32]>)
        requires
            self.wf(),
        ensures
            start + len > self@.len() ==> window is None,
            start + len <= self@.len() ==> (window matches Some(w) && w@ == self@.subrange(
                start as int,
                start + len,
            )),
    {
        if start.saturating_add(len) > self.len {
            return None;
        }
        let whole = raw::region_slice(&self.region);
        Some(vstd::slice::slice_subrange(whole, start, start + len))
    }

    /// Borrows the first half of the buffer: the smaller half when the
    /// length is odd, split at `len / 2`.
    pub fn first_half(&self) -> (window: &[i32])
        requires
            self.wf(),
        ensures
            window@ == self@.subrange(0, self@.len() as int / 2),
    {
        let mid = self.len / 2;
        let whole = raw::region_slice(&self.region);
        vstd::slice::slice_subrange(whole, 0, mid)
    }

    /// Borrows the last half of the buffer, from `len / 2` to the end.
    pub fn last_half(&self) -> (window: &[i32])
        requires
            self.wf(),
        ensures
            window@ == self@.subrange(self@.len() as int / 2, self@.len() as int),
    {
        let mid = self.len / 2;
        let whole = raw::region_slice(&self.region);
        vstd::slice::slice_subrange(whole, mid, self.len)
    }

    /// Reading from a fresh buffer always yields zero: `new` ensures
    /// that every element of the contents is zero, and `get` returns
    /// exactly the element at the index asked for, so the two
    /// contracts together leave `Some(0)` as the only possible answer
    /// for every in-range index.
    pub proof fn lemma_fresh_read_is_zero(contents: Seq<i32>, index: int)
        requires
            forall|i: int| 0 <= i < contents.len() ==> contents[i] == 0,
            0 <= index < contents.len(),
        ensures
            contents[index] == 0,
    {
    }

    /// Writing then reading: after `set(index, value)` the contents
    /// are the old contents updated at `index` — so `get(index)`
    /// returns `value`, and a read at any other in-range index returns
    /// what it returned before the write.
    pub proof fn lemma_set_then_get(contents: Seq<i32>, index: int, value: i32)
        requires
            0 <= index < contents.len(),
        ensures
            contents.update(index, value)[index] == value,
            forall|j: int|
                0 <= j < contents.len() && j != index ==> contents.update(index, value)[j]
                    == contents[j],
    {
    }
}

} // verus!
