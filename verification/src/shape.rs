//! Validation and recovery of tensor shapes.
//!
//! A shape is the ordered sequence of a tensor's dimension sizes. Before a
//! compression call it must be at least three-dimensional, its dimensions
//! must multiply out to exactly the element count of the input buffer, and
//! every dimension must fit the native engine's unsigned 32-bit width. After
//! a decompression call the engine reports the shape back in that native
//! width and it is converted to the host width again.

use vstd::prelude::*;

use crate::error::Error;

verus! {

/// The mathematical product of all dimensions of a shape (1 for the empty
/// shape).
pub open spec fn shape_product(shape: Seq<usize>) -> int
    decreases shape.len(),
{
    if shape.len() == 0 {
        1
    } else {
        shape_product(shape.drop_last()) * shape.last()
    }
}

/// Whether every dimension of a shape fits the native 32-bit width.
pub open spec fn shape_fits_native(shape: Seq<usize>) -> bool {
    forall|i: int| 0 <= i < shape.len() ==> shape[i] <= u32::MAX
}

/// Whether `native` is the dimension-for-dimension image of `shape` in the
/// engine's 32-bit width.
pub open spec fn converts_to_native(shape: Seq<usize>, native: Seq<u32>) -> bool {
    &&& native.len() == shape.len()
    &&& forall|i: int| 0 <= i < shape.len() ==> native[i] as int == shape[i] as int
}

/// Whether `host` is the dimension-for-dimension image of `native` in the
/// host width.
pub open spec fn recovers_to_host(native: Seq<u32>, host: Seq<usize>) -> bool {
    &&& host.len() == native.len()
    &&& forall|i: int| 0 <= i < native.len() ==> host[i] as int == native[i] as int
}

/// A shape with a zero dimension has product zero.
proof fn lemma_product_with_zero(shape: Seq<usize>, i: int)
    requires
        0 <= i < shape.len(),
        shape[i] == 0,
    ensures
        shape_product(shape) == 0,
    decreases shape.len(),
{
    if i == shape.len() - 1 {
        assert(shape.last() == 0);
        assert(shape_product(shape) == shape_product(shape.drop_last()) * 0);
    } else {
        lemma_product_with_zero(shape.drop_last(), i);
        assert(shape_product(shape) == 0 * shape.last());
    }
}

/// The product of all dimensions, or `None` if it exceeds `usize::MAX`.
fn checked_product(shape: &Vec<usize>) -> (result: Option<usize>)
    ensures
        match result {
            Some(product) => product == shape_product(shape@),
            None => shape_product(shape@) > usize::MAX,
        },
{
    let mut acc: usize = 1;
    let mut exceeded = false;
    let mut i: usize = 0;
    while i < shape.len()
        invariant
            0 <= i <= shape@.len(),
            forall|j: int| 0 <= j < i ==> shape@[j] >= 1,
            !exceeded ==> acc == shape_product(shape@.subrange(0, i as int)),
            exceeded ==> shape_product(shape@.subrange(0, i as int)) > usize::MAX,
        decreases shape@.len() - i,
    {
        let dim: usize = shape[i];
        proof {
            assert(shape@.subrange(0, i + 1 as int).drop_last() =~= shape@.subrange(0, i as int));
        }
        if dim == 0 {
            proof {
                lemma_product_with_zero(shape@, i as int);
            }
            return Some(0);
        }
        if !exceeded {
            match acc.checked_mul(dim) {
                Some(next) => {
                    acc = next;
                },
                None => {
                    exceeded = true;
                },
            }
        } else {
            proof {
                assert(shape_product(shape@.subrange(0, i as int)) * dim > usize::MAX)
                    by (nonlinear_arith)
                    requires
                        shape_product(shape@.subrange(0, i as int)) > usize::MAX,
                        dim >= 1,
                ;
            }
        }
        i = i + 1;
    }
    proof {
        assert(shape@.subrange(0, shape@.len() as int) =~= shape@);
    }
    if exceeded {
        None
    } else {
        Some(acc)
    }
}

/// Validates a shape for a compression call over a buffer of
/// `element_count` elements, and converts it to the native width.
///
/// Fails with [`Error::InsufficientDimensionality`] if the shape has fewer
/// than three dimensions; otherwise with [`Error::InvalidShape`] if the
/// product of the dimensions is not exactly `element_count`; otherwise with
/// [`Error::ExcessiveSize`] if some dimension does not fit the native 32-bit
/// width. Otherwise it succeeds and returns the shape in the native width,
/// dimension for dimension.
pub fn validate_for_compress(shape: &Vec<usize>, element_count: usize) -> (result: Result<
    Vec<u32>,
    Error,
>)
    ensures
        shape@.len() < 3 ==> result == Err::<Vec<u32>, Error>(Error::InsufficientDimensionality),
        shape@.len() >= 3 && shape_product(shape@) != element_count ==> result == Err::<
            Vec<u32>,
            Error,
        >(Error::InvalidShape),
        shape@.len() >= 3 && shape_product(shape@) == element_count && !shape_fits_native(shape@)
            ==> result == Err::<Vec<u32>, Error>(Error::ExcessiveSize),
        shape@.len() >= 3 && shape_product(shape@) == element_count && shape_fits_native(shape@)
            ==> (result matches Ok(native) && converts_to_native(shape@, native@)),
{
    if shape.len() < 3 {
        return Err(Error::InsufficientDimensionality);
    }
    let matches_count = match checked_product(shape) {
        Some(product) => product == element_count,
        None => false,
    };
    if !matches_count {
        return Err(Error::InvalidShape);
    }
    let mut native: Vec<u32> = Vec::new();
    let mut i: usize = 0;
    while i < shape.len()
        invariant
            0 <= i <= shape@.len(),
            shape@.len() >= 3,
            shape_product(shape@) == element_count,
            native@.len() == i,
            forall|j: int| 0 <= j < i ==> shape@[j] <= u32::MAX,
            forall|j: int| 0 <= j < i ==> native@[j] as int == shape@[j] as int,
        decreases shape@.len() - i,
    {
        let dim: usize = shape[i];
        if dim > u32::MAX as usize {
            return Err(Error::ExcessiveSize);
        }
        native.push(dim as u32);
        i = i + 1;
    }
    Ok(native)
}

/// Converts a shape reported by the native engine back to the host width,
/// dimension for dimension.
///
/// The native width is no wider than the host width, so this conversion
/// always succeeds; the [`Result`] mirrors the call surface of
/// [`validate_for_compress`].
pub fn recover_shape(native: &Vec<u32>) -> (result: Result<Vec<usize>, Error>)
    ensures
        result matches Ok(host) && recovers_to_host(native@, host@),
{
    let mut host: Vec<usize> = Vec::new();
    let mut i: usize = 0;
    while i < native.len()
        invariant
            0 <= i <= native@.len(),
            host@.len() == i,
            forall|j: int| 0 <= j < i ==> host@[j] as int == native@[j] as int,
        decreases native@.len() - i,
    {
        host.push(native[i] as usize);
        i = i + 1;
    }
    Ok(host)
}

/// Shapes round-trip across the native boundary: a shape converted to the
/// native width and recovered back to the host width is unchanged, for every
/// shape that validation accepts.
pub proof fn lemma_shape_round_trip(shape: Seq<usize>, native: Seq<u32>, recovered: Seq<usize>)
    requires
        converts_to_native(shape, native),
        recovers_to_host(native, recovered),
    ensures
        recovered == shape,
{
    assert(recovered =~= shape);
}

} // verus!
