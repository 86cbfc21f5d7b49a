//! Bounds-checked access to a sandboxed guest's linear memory.
//!
//! A guest module hands the host raw `(offset, length)` pairs that must never
//! be trusted: an out-of-range pair would let guest code reach host memory.
//! This crate is the validation boundary. It turns such a pair, together with
//! the memory's current extent, into either a rejected request or a span that
//! is proved to lie entirely inside the extent. The caller then builds its
//! actual view of memory from that validated span.

pub mod bounds;
pub mod deref;

pub use bounds::span_fits;
pub use bounds::span_in_bounds;
pub use deref::ArraySpan;
pub use deref::ByteSpan;
pub use deref::DerefError;
pub use deref::array_span;
pub use deref::buffer_span;
pub use deref::deref_array;
pub use deref::deref_buffer;
