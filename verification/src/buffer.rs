//! The typed buffer a decompression call hands back.

use vstd::prelude::*;

use crate::element::ElementKind;

verus! {

/// A decompressed buffer, tagged with its element kind.
///
/// The tag is fixed when the buffer is constructed from the engine's
/// reported output kind and is never changed afterwards. The two
/// floating-point variants carry their elements as IEEE-754 bit patterns
/// (`u32` and `u64` respectively); the unverified rim around the engine call
/// converts them to and from the machine's floating-point types.
#[derive(Clone, Debug, PartialEq)]
pub enum Buffer {
    /// Unsigned 8-bit samples.
    U8(Vec<u8>),
    /// Unsigned 16-bit samples.
    U16(Vec<u16>),
    /// Signed 32-bit samples.
    I32(Vec<i32>),
    /// 32-bit floating-point samples, as bit patterns.
    F32(Vec<u32>),
    /// 64-bit floating-point samples, as bit patterns.
    F64(Vec<u64>),
}

impl Buffer {
    /// The element kind this buffer is tagged with.
    pub open spec fn spec_element_kind(self) -> ElementKind {
        match self {
            Buffer::U8(_) => ElementKind::U8,
            Buffer::U16(_) => ElementKind::U16,
            Buffer::I32(_) => ElementKind::I32,
            Buffer::F32(_) => ElementKind::F32,
            Buffer::F64(_) => ElementKind::F64,
        }
    }

    /// The element kind this buffer is tagged with.
    pub fn element_kind(&self) -> (kind: ElementKind)
        ensures
            kind == self.spec_element_kind(),
    {
        match self {
            Buffer::U8(_) => ElementKind::U8,
            Buffer::U16(_) => ElementKind::U16,
            Buffer::I32(_) => ElementKind::I32,
            Buffer::F32(_) => ElementKind::F32,
            Buffer::F64(_) => ElementKind::F64,
        }
    }

    /// The number of elements in the buffer.
    pub open spec fn spec_len(self) -> nat {
        match self {
            Buffer::U8(elements) => elements@.len(),
            Buffer::U16(elements) => elements@.len(),
            Buffer::I32(elements) => elements@.len(),
            Buffer::F32(elements) => elements@.len(),
            Buffer::F64(elements) => elements@.len(),
        }
    }

    /// The number of elements in the buffer.
    pub fn len(&self) -> (length: usize)
        ensures
            length == self.spec_len(),
    {
        match self {
            Buffer::U8(elements) => elements.len(),
            Buffer::U16(elements) => elements.len(),
            Buffer::I32(elements) => elements.len(),
            Buffer::F32(elements) => elements.len(),
            Buffer::F64(elements) => elements.len(),
        }
    }
}

} // verus!
