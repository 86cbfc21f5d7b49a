//! The bounds-check primitive: does a requested byte span lie inside the
//! guest memory's current extent?

use vstd::prelude::*;

verus! {

/// A requested byte range `[offset, offset + span_bytes)` is safe to expose
/// exactly when it lies inside `[0, extent)`. Stated over mathematical
/// integers, so no overflow can make an out-of-range request look small.
pub open spec fn span_fits(extent: int, offset: int, span_bytes: int) -> bool {
    offset + span_bytes <= extent
}

/// Decides whether the byte range `[offset, offset + span_bytes)` lies within
/// a memory of `memory_size` bytes. The comparison is arranged so that no
/// intermediate sum can wrap: an overflowing request is reported as out of
/// bounds, never as a small in-range one.
pub fn span_in_bounds(memory_size: usize, offset: u32, span_bytes: usize) -> (r: bool)
    ensures
        r == span_fits(memory_size as int, offset as int, span_bytes as int),
{
    let offset_bytes: usize = offset as usize;
    offset_bytes <= memory_size && span_bytes <= memory_size - offset_bytes
}

/// Overflow safety: a request whose mathematically exact byte span runs past
/// what the machine's word can represent can never fit in a memory extent,
/// since the extent itself is a machine word. Such a request is always
/// rejected; wraparound cannot make it succeed.
pub proof fn lemma_overflowing_request_rejected(
    memory_size: usize,
    offset: int,
    span_bytes: int,
)
    requires
        0 <= offset,
        0 <= span_bytes,
        offset + span_bytes > usize::MAX,
    ensures
        !span_fits(memory_size as int, offset, span_bytes),
{
}

/// Zero-length requests: an empty span fits at every offset up to and
/// including the extent itself (one past the end), and at no offset beyond.
pub proof fn lemma_zero_length_span(extent: int, offset: int)
    ensures
        span_fits(extent, offset, 0) <==> offset <= extent,
{
}

} // verus!
