//! The host side of the two engine calls.
//!
//! A compression call runs in three steps: everything the host must decide
//! before the call ([`prepare_compress`]: validation and conversion into the
//! values the engine takes), the engine call itself, and the reconstruction
//! of the returned buffer. A decompression call mirrors it: the engine call,
//! then everything the host decides about what came back
//! ([`interpret_decompress`]: mapping the failure flag onto the error
//! taxonomy, checking the reported element tag against the closed registry,
//! and recovering the shape in the host width). The engine call and the
//! buffer reconstruction are raw-pointer work and live in the unverified rim
//! around this crate; every decision on either side of them is verified
//! here, and no validation failure ever reaches the engine.

use vstd::prelude::*;

use crate::bound::ErrorBound;
use crate::element::ElementKind;
use crate::error::Error;
use crate::shape::converts_to_native;
use crate::shape::recover_shape;
use crate::shape::recovers_to_host;
use crate::shape::shape_fits_native;
use crate::shape::shape_product;
use crate::shape::validate_for_compress;
use vstd::pervasive::unreached;

verus! {

/// Everything a validated compression call hands to the native engine:
/// the element tag, the shape in the native width, and the error-bound tag
/// and value bits. Constructed only by [`prepare_compress`], so a value of
/// this type is always fully validated.
#[derive(Clone, Debug, PartialEq)]
pub struct CompressRequest {
    /// The native tag of the element kind being compressed.
    pub element_tag: u32,
    /// The shape in the engine's 32-bit width.
    pub native_shape: Vec<u32>,
    /// The native tag of the error-bound kind.
    pub bound_tag: u32,
    /// The error-bound value, as its IEEE-754 bit pattern.
    pub bound_bits: u64,
    /// Whether the engine prints diagnostic output.
    pub verbose: bool,
    /// Whether the engine prints debugging output.
    pub debug: bool,
}

/// Validates one compression call and assembles the values the native
/// engine takes.
///
/// `element_count` is the length of the input buffer; `element` is the kind
/// its elements have, fixed by the caller's concrete element type. The
/// failures come in a fixed order, all before any engine resource could be
/// allocated: [`Error::InsufficientDimensionality`] for a shape of fewer
/// than three dimensions, then [`Error::InvalidShape`] when the dimensions
/// do not multiply out to `element_count`, then [`Error::ExcessiveSize`]
/// when a dimension does not fit the native width, then
/// [`Error::NegativeErrorBound`] when the bound value is below zero. On
/// success the request carries the element tag, the shape converted
/// dimension for dimension, the bound kind and value unchanged, and the two
/// diagnostic flags forwarded unchanged.
pub fn prepare_compress(
    element: ElementKind,
    element_count: usize,
    shape: &Vec<usize>,
    bound: ErrorBound,
    verbose: bool,
    debug: bool,
) -> (result: Result<CompressRequest, Error>)
    ensures
        shape@.len() < 3 ==> result == Err::<CompressRequest, Error>(
            Error::InsufficientDimensionality,
        ),
        shape@.len() >= 3 && shape_product(shape@) != element_count ==> result == Err::<
            CompressRequest,
            Error,
        >(Error::InvalidShape),
        shape@.len() >= 3 && shape_product(shape@) == element_count && !shape_fits_native(shape@)
            ==> result == Err::<CompressRequest, Error>(Error::ExcessiveSize),
        shape@.len() >= 3 && shape_product(shape@) == element_count && shape_fits_native(shape@)
            && bound.spec_is_negative() ==> result == Err::<CompressRequest, Error>(
            Error::NegativeErrorBound,
        ),
        shape@.len() >= 3 && shape_product(shape@) == element_count && shape_fits_native(shape@)
            && !bound.spec_is_negative() ==> (result matches Ok(request)
            && request.element_tag == element.spec_native_tag()
            && converts_to_native(shape@, request.native_shape@)
            && request.bound_tag == bound.spec_native_tag()
            && request.bound_bits == bound.spec_value_bits()
            && request.verbose == verbose
            && request.debug == debug),
{
    let native_shape = match validate_for_compress(shape, element_count) {
        Ok(native_shape) => native_shape,
        Err(error) => {
            return Err(error);
        },
    };
    match bound.validate() {
        Ok(_) => {},
        Err(error) => {
            return Err(error);
        },
    }
    Ok(
        CompressRequest {
            element_tag: element.native_tag(),
            native_shape,
            bound_tag: bound.native_tag(),
            bound_bits: bound.value_bits(),
            verbose,
            debug,
        },
    )
}

/// Interprets what a decompression call came back with.
///
/// `succeeded` is the engine's success flag; when it is false the engine's
/// output slots were never filled, the caller must not have read them, and
/// the call fails with [`Error::CorruptedCompressedBytes`] — the arguments
/// for the tag and the shape are ignored. On success, `reported_tag` is the
/// element tag the engine reported and `native_shape` the shape it produced:
/// the tag is resolved against the closed registry and the shape is
/// recovered in the host width, dimension for dimension. A reported tag
/// outside the closed registry is a violated engine contract, not a
/// recoverable error; the caller must rule it out (by
/// [`ElementKind::from_native_tag`]) before calling, and abort instead.
pub fn interpret_decompress(succeeded: bool, reported_tag: u32, native_shape: &Vec<u32>) -> (result:
    Result<(ElementKind, Vec<usize>), Error>)
    requires
        succeeded ==> ElementKind::spec_from_native_tag(reported_tag) is Some,
    ensures
        !succeeded ==> result == Err::<(ElementKind, Vec<usize>), Error>(
            Error::CorruptedCompressedBytes,
        ),
        succeeded ==> (result matches Ok((kind, host_shape))
            && ElementKind::spec_from_native_tag(reported_tag) == Some(kind)
            && recovers_to_host(native_shape@, host_shape@)),
{
    if !succeeded {
        return Err(Error::CorruptedCompressedBytes);
    }
    let kind = match ElementKind::from_native_tag(reported_tag) {
        Some(kind) => kind,
        None => unreached(),
    };
    let host_shape = match recover_shape(native_shape) {
        Ok(host_shape) => host_shape,
        Err(_) => unreached(),
    };
    Ok((kind, host_shape))
}

} // verus!
