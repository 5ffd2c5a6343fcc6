//! Verified host-side core of a binding to a native lossy tensor compressor.
//!
//! The native engine itself is an opaque collaborator reached over a C call
//! boundary; everything the host decides before and after that call is
//! implemented and verified here: validation of tensor shapes and error
//! bounds, the closed registry of element kinds and their native tags and
//! widths, planning of the allocation callback that lets the engine fill
//! host-owned buffers, and the interpretation of the engine's results.

mod allocator;
mod bound;
mod buffer;
mod codec;
mod element;
mod error;
mod shape;

pub use allocator::AllocPlan;
pub use allocator::plan_alloc;
pub use bound::ErrorBound;
pub use bound::f64_bits_is_nan;
pub use bound::f64_bits_is_negative;
pub use bound::f64_bits_magnitude;
pub use buffer::Buffer;
pub use codec::CompressRequest;
pub use codec::interpret_decompress;
pub use codec::prepare_compress;
pub use element::Element;
pub use element::ElementKind;
pub use element::lemma_native_tag_round_trip;
pub use error::Error;
pub use shape::converts_to_native;
pub use shape::lemma_shape_round_trip;
pub use shape::recover_shape;
pub use shape::recovers_to_host;
pub use shape::shape_fits_native;
pub use shape::shape_product;
pub use shape::validate_for_compress;
