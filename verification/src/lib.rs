//! A manually managed buffer of `i32` elements, built in two layers.
//!
//! The `raw` layer allocates, releases, reads and writes a region with
//! no run-time validation at all: its operations are correct only when
//! their preconditions hold, and those preconditions are contracts
//! that every caller must discharge by proof. The `buffer` layer owns
//! one such region and closes that boundary: it checks every index
//! before delegating, so the raw obligations are proved once, here,
//! and never reach ordinary callers.
//!
//! `span_example` applies the same discipline to borrowed windows over
//! contiguous data, and `propagation_chain` follows a precondition
//! obligation from level to level until one level discharges it.

pub mod buffer;
pub mod propagation_chain;
pub mod raw;
pub mod span_example;

pub use buffer::BufferError;
pub use buffer::SafeBuffer;
pub use raw::RawAlloc;
pub use raw::unsafe_alloc;
pub use raw::unsafe_free;
pub use raw::unsafe_read;
pub use raw::unsafe_write;
