//! The integer side of placing a transform on a pixel grid: the centre of a
//! raster, the shift of that centre when the raster is cropped, and the
//! shape a coordinate array must have.
//!
//! Centres fall on whole or half pixels, so they are given here in half-pixel
//! units: a value `h` stands for the coordinate `h / 2`.
use vstd::prelude::*;

use crate::error::TransformError;

verus! {

/// The centre of a raster of shape `[height, width]`, in half-pixel units:
/// `(height - 1, width - 1)`, that is `((height - 1) / 2, (width - 1) / 2)`
/// in pixels. A registration anchors its linear part there.
pub fn centre_half_units(shape: [usize; 2]) -> (r: [i128; 2])
    ensures
        r[0] == shape[0] - 1,
        r[1] == shape[1] - 1,
{
    [shape[0] as i128 - 1, shape[1] as i128 - 1]
}

/// How far, in half-pixel units, the origin of a transform moves per axis
/// when the shape it describes changes from `old_shape` to `new_shape` about
/// the same centre: `old_shape - new_shape`, negative where the shape grows.
pub fn adapt_shift_half_units(old_shape: [usize; 2], new_shape: [usize; 2]) -> (r: [i128; 2])
    ensures
        r[0] == old_shape[0] - new_shape[0],
        r[1] == old_shape[1] - new_shape[1],
{
    [old_shape[0] as i128 - new_shape[0] as i128, old_shape[1] as i128 - new_shape[1] as i128]
}

/// Checks that an array of shape `[rows, columns]` holds one point per row:
/// exactly two columns, any number of rows.
pub fn check_coordinate_shape(shape: [usize; 2]) -> (r: Result<(), TransformError>)
    ensures
        r.is_ok() <==> shape[1] == 2,
        r.is_err() ==> r == Err::<(), TransformError>(TransformError::ShapeMismatch),
{
    if shape[1] == 2 {
        Ok(())
    } else {
        Err(TransformError::ShapeMismatch)
    }
}

} // verus!
