//! The closed registry of element kinds the codec operates on.
//!
//! Each kind carries a fixed native tag (the discriminant the engine's C
//! interface uses for it) and a fixed byte width. The set is closed: a tag
//! reported by the engine that falls outside it is a contract violation
//! between binding and engine, which [`ElementKind::from_native_tag`] signals
//! by returning `None`.

use vstd::prelude::*;

verus! {

/// One of the five element kinds the codec can compress and decompress.
#[derive(Clone, Copy, Debug, PartialEq, Eq, Structural)]
pub enum ElementKind {
    /// Unsigned 8-bit samples.
    U8,
    /// Unsigned 16-bit samples.
    U16,
    /// Signed 32-bit samples.
    I32,
    /// 32-bit floating-point samples (held host-side as their bit patterns).
    F32,
    /// 64-bit floating-point samples (held host-side as their bit patterns).
    F64,
}

impl ElementKind {
    /// The tag the native engine uses for this kind.
    pub open spec fn spec_native_tag(self) -> u32 {
        match self {
            ElementKind::U8 => 0,
            ElementKind::U16 => 1,
            ElementKind::I32 => 2,
            ElementKind::F32 => 3,
            ElementKind::F64 => 4,
        }
    }

    /// The tag the native engine uses for this kind.
    pub fn native_tag(self) -> (tag: u32)
        ensures
            tag == self.spec_native_tag(),
    {
        match self {
            ElementKind::U8 => 0,
            ElementKind::U16 => 1,
            ElementKind::I32 => 2,
            ElementKind::F32 => 3,
            ElementKind::F64 => 4,
        }
    }

    /// The width in bytes of one element of this kind.
    pub open spec fn spec_byte_width(self) -> usize {
        match self {
            ElementKind::U8 => 1,
            ElementKind::U16 => 2,
            ElementKind::I32 => 4,
            ElementKind::F32 => 4,
            ElementKind::F64 => 8,
        }
    }

    /// The width in bytes of one element of this kind.
    pub fn byte_width(self) -> (width: usize)
        ensures
            width == self.spec_byte_width(),
    {
        match self {
            ElementKind::U8 => 1,
            ElementKind::U16 => 2,
            ElementKind::I32 => 4,
            ElementKind::F32 => 4,
            ElementKind::F64 => 8,
        }
    }

    /// The kind a native tag stands for, or `None` for a tag outside the
    /// closed set.
    pub open spec fn spec_from_native_tag(tag: u32) -> Option<ElementKind> {
        if tag == 0 {
            Some(ElementKind::U8)
        } else if tag == 1 {
            Some(ElementKind::U16)
        } else if tag == 2 {
            Some(ElementKind::I32)
        } else if tag == 3 {
            Some(ElementKind::F32)
        } else if tag == 4 {
            Some(ElementKind::F64)
        } else {
            None
        }
    }

    /// Looks a native tag up in the closed registry. Returns `None` exactly
    /// when the tag belongs to no registered kind, which callers must treat
    /// as a violated engine contract rather than a recoverable error.
    pub fn from_native_tag(tag: u32) -> (kind: Option<ElementKind>)
        ensures
            kind == ElementKind::spec_from_native_tag(tag),
    {
        if tag == 0 {
            Some(ElementKind::U8)
        } else if tag == 1 {
            Some(ElementKind::U16)
        } else if tag == 2 {
            Some(ElementKind::I32)
        } else if tag == 3 {
            Some(ElementKind::F32)
        } else if tag == 4 {
            Some(ElementKind::F64)
        } else {
            None
        }
    }
}

/// Tagging is idempotent: looking up the native tag of any kind recovers
/// exactly that kind, so a round trip through the engine's tag encoding can
/// never change which kind a buffer is tagged with host-side.
pub proof fn lemma_native_tag_round_trip(kind: ElementKind)
    ensures
        ElementKind::spec_from_native_tag(kind.spec_native_tag()) == Some(kind),
{
}

/// Marker trait tying a host element type to its entry in the registry.
///
/// Only the element types the codec accepts implement it, so which kind a
/// call operates on is fixed by the caller's concrete type and the lookup can
/// never fail. The two floating-point kinds are reachable through
/// [`ElementKind`] directly; their host types live outside the verified core.
pub trait Element {
    /// The registry entry for this element type.
    spec fn spec_element_kind() -> ElementKind;

    /// The registry entry for this element type.
    fn element_kind() -> (kind: ElementKind)
        ensures
            kind == Self::spec_element_kind(),
    ;
}

impl Element for u8 {
    open spec fn spec_element_kind() -> ElementKind {
        ElementKind::U8
    }

    fn element_kind() -> (kind: ElementKind) {
        ElementKind::U8
    }
}

impl Element for u16 {
    open spec fn spec_element_kind() -> ElementKind {
        ElementKind::U16
    }

    fn element_kind() -> (kind: ElementKind) {
        ElementKind::U16
    }
}

impl Element for i32 {
    open spec fn spec_element_kind() -> ElementKind {
        ElementKind::I32
    }

    fn element_kind() -> (kind: ElementKind) {
        ElementKind::I32
    }
}

} // verus!
