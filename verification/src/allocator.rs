//! Planning of the allocation callback the native engine calls.
//!
//! The engine produces its output buffers through a host-supplied callback,
//! so that the host owns every returned buffer without a copy. The callback
//! must honor the requested alignment exactly, and must special-case a
//! zero-size request: most allocators forbid it, so the callback answers it
//! with a well-aligned sentinel address that is never dereferenced and never
//! freed, instead of a real allocation. Which of the two answers a request
//! gets, and with what address or layout, is decided here; performing the
//! heap allocation itself is left to the unverified callback around the
//! engine call.

use vstd::prelude::*;

verus! {

/// How the allocation callback must answer one request.
#[derive(Clone, Copy, Debug, PartialEq, Eq, Structural)]
pub enum AllocPlan {
    /// Allocate a zeroed heap block of this size and alignment.
    Heap {
        /// The requested size in bytes; never zero.
        size: usize,
        /// The requested alignment in bytes.
        align: usize,
    },
    /// Hand back this address without touching the heap. It is aligned to
    /// the requested alignment and is never null.
    Sentinel {
        /// The address to hand back.
        addr: usize,
    },
}

/// Decides how the allocation callback answers a request for `size` bytes at
/// alignment `align`.
///
/// A zero-size request is answered with the alignment value itself used as
/// the sentinel address: it is trivially aligned, and since every valid
/// alignment is at least 1 it is never null. Every other request is answered
/// from the heap with the size and alignment unchanged.
pub fn plan_alloc(size: usize, align: usize) -> (plan: AllocPlan)
    requires
        align >= 1,
    ensures
        size == 0 ==> plan == (AllocPlan::Sentinel { addr: align }),
        size != 0 ==> plan == (AllocPlan::Heap { size, align }),
        plan matches AllocPlan::Sentinel { addr } ==> addr != 0,
{
    if size == 0 {
        AllocPlan::Sentinel { addr: align }
    } else {
        AllocPlan::Heap { size, align }
    }
}

} // verus!
