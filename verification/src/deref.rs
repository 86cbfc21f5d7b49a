//! Validated views into guest linear memory.
//!
//! The guest supplies an untrusted `(offset, count_or_len)` pair; the host
//! reads the memory's current extent and either rejects the request or
//! returns a span that provably lies inside that extent. The span carries the
//! extent it was validated against, so the containment invariant travels with
//! the value.

use vstd::prelude::*;
use crate::bounds::span_fits;
use crate::bounds::span_in_bounds;

verus! {

/// The single fault this boundary can signal: the requested range does not
/// lie within guest memory, including when the arithmetic for its byte span
/// would overflow.
#[derive(Clone, Copy, Debug, PartialEq, Eq, Structural)]
pub enum DerefError {
    OutOfBounds,
}

/// Makes `wasmer::Memory` usable in signatures here. The handle is opaque:
/// everything this crate learns about it comes through the wrappers below.
#[verifier::external_type_specification]
#[verifier::external_body]
pub struct ExMemory(wasmer::Memory);

/// Relies on `wasmer::Memory::size` and `Pages::bytes`: the memory's current
/// extent in bytes. Wasm linear memory is sized in 64 KiB pages, and the
/// conversion multiplies the page count by that page size, so the extent is a
/// whole number of pages. The memory can be grown externally between calls,
/// so nothing relates two reads of it.
#[verifier::external_body]
fn memory_size_bytes(memory: &wasmer::Memory) -> (r: usize)
    ensures
        r % 0x10000 == 0,
{
    memory.size().bytes().0
}

/// Relies on `wasmer_wasi_types::__WASI_EFAULT`: the WASI "bad address"
/// errno, defined as the constant 21.
#[verifier::external_body]
fn wasi_efault() -> (r: u16)
    ensures
        r == 21,
{
    wasmer_wasi_types::__WASI_EFAULT
}

impl DerefError {
    /// The WASI errno under which this fault crosses the boundary back to the
    /// guest: EFAULT, the standard "bad address" code.
    pub fn errno(&self) -> (r: u16)
        ensures
            r == 21,
    {
        wasi_efault()
    }
}

/// A validated raw-byte request: `len` bytes starting at `offset`, checked
/// against a memory extent of `extent` bytes at the moment of validation.
#[derive(Clone, Copy, Debug, PartialEq, Eq, Structural)]
pub struct ByteSpan {
    pub offset: usize,
    pub len: usize,
    pub extent: usize,
}

impl ByteSpan {
    /// The span lies entirely within the extent it was validated against.
    pub open spec fn wf(self) -> bool {
        span_fits(self.extent as int, self.offset as int, self.len as int)
    }
}

/// A validated typed request: `item_count` items of `item_size` bytes each,
/// starting at byte `offset`, checked against a memory extent of `extent`
/// bytes at the moment of validation.
#[derive(Clone, Copy, Debug, PartialEq, Eq, Structural)]
pub struct ArraySpan {
    pub offset: usize,
    pub item_count: usize,
    pub item_size: usize,
    pub extent: usize,
}

impl ArraySpan {
    /// The exact number of bytes the items cover, as a mathematical integer.
    pub open spec fn byte_len(self) -> int {
        self.item_count * self.item_size
    }

    /// The span lies entirely within the extent it was validated against.
    pub open spec fn wf(self) -> bool {
        span_fits(self.extent as int, self.offset as int, self.byte_len())
    }
}

/// Validates a raw-byte request against a memory extent. Succeeds exactly
/// when `offset + len` fits in the extent, counted over mathematical
/// integers, and then returns the span unchanged; everything else, overflow
/// included, is rejected as out of bounds.
pub fn buffer_span(memory_size: usize, offset: u32, len: u32) -> (r: Result<
    ByteSpan,
    DerefError,
>)
    ensures
        r is Ok <==> span_fits(memory_size as int, offset as int, len as int),
        r matches Ok(span) ==> span == (ByteSpan {
            offset: offset as usize,
            len: len as usize,
            extent: memory_size,
        }) && span.wf(),
        r matches Err(fault) ==> fault == DerefError::OutOfBounds,
{
    if span_in_bounds(memory_size, offset, len as usize) {
        Ok(ByteSpan { offset: offset as usize, len: len as usize, extent: memory_size })
    } else {
        Err(DerefError::OutOfBounds)
    }
}

/// Validates a typed request against a memory extent. Succeeds exactly when
/// `offset + item_count * size_of::<T>()` fits in the extent, counted over
/// mathematical integers; a byte span too large for the machine word is
/// rejected, never wrapped around.
pub fn array_span<T>(memory_size: usize, offset: u32, item_count: u32) -> (r: Result<
    ArraySpan,
    DerefError,
>)
    ensures
        r is Ok <==> span_fits(
            memory_size as int,
            offset as int,
            item_count * size_of::<T>(),
        ),
        r matches Ok(span) ==> span == (ArraySpan {
            offset: offset as usize,
            item_count: item_count as usize,
            item_size: size_of::<T>() as usize,
            extent: memory_size,
        }) && span.wf(),
        r matches Err(fault) ==> fault == DerefError::OutOfBounds,
{
    let item_size: usize = core::mem::size_of::<T>();
    match (item_count as usize).checked_mul(item_size) {
        Some(span_bytes) => {
            proof {
                assert(span_bytes == item_count * size_of::<T>());
            }
            if span_in_bounds(memory_size, offset, span_bytes) {
                Ok(
                    ArraySpan {
                        offset: offset as usize,
                        item_count: item_count as usize,
                        item_size,
                        extent: memory_size,
                    },
                )
            } else {
                Err(DerefError::OutOfBounds)
            }
        },
        None => Err(DerefError::OutOfBounds),
    }
}

/// Validates a raw-byte request against the memory's current extent, read
/// fresh from the handle (the guest memory can be grown externally, so the
/// extent is a same-call snapshot). Whatever that extent turns out to be, a
/// returned span has exactly the requested offset and length and lies within
/// it; the empty request at offset 0 fits every extent, and a request whose
/// byte span exceeds the machine word fits none.
pub fn deref_buffer(memory: &wasmer::Memory, offset: u32, len: u32) -> (r: Result<
    ByteSpan,
    DerefError,
>)
    ensures
        r matches Ok(span) ==> span.offset == offset && span.len == len && span.wf()
            && span.extent % 0x10000 == 0,
        r matches Err(fault) ==> fault == DerefError::OutOfBounds,
        offset == 0 && len == 0 ==> r is Ok,
        offset as int + len as int > usize::MAX as int ==> r is Err,
{
    let memory_size = memory_size_bytes(memory);
    buffer_span(memory_size, offset, len)
}

/// Validates a typed request against the memory's current extent, read fresh
/// from the handle. Whatever that extent turns out to be, a returned span
/// covers exactly `item_count` items of `T` at the requested offset and lies
/// within it; an empty byte span at offset 0 fits every extent, and a byte
/// span that exceeds the machine word fits none.
pub fn deref_array<T>(memory: &wasmer::Memory, offset: u32, item_count: u32) -> (r: Result<
    ArraySpan,
    DerefError,
>)
    ensures
        r matches Ok(span) ==> span.offset == offset && span.item_count == item_count
            && span.item_size == size_of::<T>() && span.wf() && span.extent % 0x10000 == 0,
        r matches Err(fault) ==> fault == DerefError::OutOfBounds,
        offset == 0 && item_count as int * size_of::<T>() == 0 ==> r is Ok,
        offset as int + item_count as int * size_of::<T>() > usize::MAX as int ==> r is Err,
{
    let memory_size = memory_size_bytes(memory);
    array_span::<T>(memory_size, offset, item_count)
}

} // verus!
