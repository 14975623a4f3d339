//! What the library hands the registration and resampling engine, and the
//! checks made before it is called.
//!
//! The engine works on contiguous row-major buffers whose extents it takes
//! as unsigned 32-bit counts, and it may write into the buffers it is given.
//! Every job built here therefore owns fresh copies of the caller's rasters.
use vstd::prelude::*;

use crate::error::TransformError;
use crate::pixel::PixelKind;

verus! {

/// How a resampled raster is interpolated.
#[derive(Clone, Copy, Debug, PartialEq, Eq, Structural)]
pub enum Interpolation {
    BSpline,
    NearestNeighbor,
}

impl Interpolation {
    /// The engine's flag: set for B-spline interpolation, clear for nearest
    /// neighbour.
    pub open spec fn spec_flag(self) -> bool {
        self == Interpolation::BSpline
    }

    pub fn flag(&self) -> (f: bool)
        ensures
            f == self.spec_flag(),
    {
        match self {
            Interpolation::BSpline => true,
            Interpolation::NearestNeighbor => false,
        }
    }
}

/// One call of an engine entry point: the entry point is the one of `kind`,
/// the raster is `height` rows of `width` elements, and `flag` asks for a
/// full affine fit (registration) or for B-spline interpolation (resampling).
#[derive(Clone, Copy, Debug, PartialEq, Eq, Structural)]
pub struct EngineCall {
    pub kind: PixelKind,
    pub width: u32,
    pub height: u32,
    pub flag: bool,
}

/// Number of elements of a raster of shape `[height, width]`.
pub open spec fn element_count(shape: [usize; 2]) -> int {
    shape[0] * shape[1]
}

/// Whether the engine can take a raster of this shape.
pub open spec fn fits_engine(shape: [usize; 2]) -> bool {
    shape[0] <= u32::MAX && shape[1] <= u32::MAX
}

/// The call for a raster of `shape` whose extents fit the engine.
pub open spec fn call_for(kind: PixelKind, shape: [usize; 2], flag: bool) -> EngineCall {
    EngineCall { kind, width: shape[1] as u32, height: shape[0] as u32, flag }
}

/// A registration ready to be run: the call, private copies of both
/// rasters, and the shape they share.
pub struct RegisterJob<T> {
    pub call: EngineCall,
    pub fixed: Vec<T>,
    pub moving: Vec<T>,
    pub shape: [usize; 2],
}

/// A resampling ready to be run: the call, a private copy of the raster
/// that the engine overwrites with the result, and the raster's shape.
pub struct ResampleJob<T> {
    pub call: EngineCall,
    pub buffer: Vec<T>,
    pub shape: [usize; 2],
}

/// Whether `len` elements make up a raster of shape `shape`.
pub fn holds_shape(len: usize, shape: [usize; 2]) -> (r: bool)
    ensures
        r == (len as int == element_count(shape)),
{
    match shape[0].checked_mul(shape[1]) {
        Some(n) => n == len,
        None => {
            assert(element_count(shape) > usize::MAX) by (nonlinear_arith)
                requires
                    shape[0] as int * shape[1] as int > usize::MAX,
            ;
            false
        },
    }
}

/// A fresh vector with the same elements as `src`.
pub fn copy_buffer<T: Copy>(src: &[T]) -> (r: Vec<T>)
    ensures
        r@ == src@,
{
    let mut out: Vec<T> = Vec::with_capacity(src.len());
    let mut i: usize = 0;
    while i < src.len()
        invariant
            i <= src@.len(),
            out@ == src@.subrange(0, i as int),
        decreases src@.len() - i,
    {
        out.push(src[i]);
        i = i + 1;
    }
    assert(out@ =~= src@);
    out
}

fn engine_call(kind: PixelKind, shape: [usize; 2], flag: bool) -> (r: EngineCall)
    requires
        fits_engine(shape),
    ensures
        r == call_for(kind, shape, flag),
{
    EngineCall { kind, width: shape[1] as u32, height: shape[0] as u32, flag }
}

/// Prepares the registration of `moving` against `fixed`, both row-major
/// rasters of elements of `kind` in the shapes given; `affine` asks for a
/// full affine fit rather than a translation.
///
/// Rasters of different shapes, or a buffer that does not hold its shape,
/// give `ShapeMismatch`; extents beyond the engine's 32-bit counts give
/// `EngineFailure`. The caller's buffers are only read.
pub fn prepare_register<T: Copy>(
    kind: PixelKind,
    fixed: &[T],
    fixed_shape: [usize; 2],
    moving: &[T],
    moving_shape: [usize; 2],
    affine: bool,
) -> (r: Result<RegisterJob<T>, TransformError>)
    ensures
        fixed_shape != moving_shape ==> r == Err::<RegisterJob<T>, TransformError>(
            TransformError::ShapeMismatch,
        ),
        fixed_shape == moving_shape && (fixed@.len() != element_count(fixed_shape)
            || moving@.len() != element_count(moving_shape)) ==> r == Err::<
            RegisterJob<T>,
            TransformError,
        >(TransformError::ShapeMismatch),
        fixed_shape == moving_shape && fixed@.len() == element_count(fixed_shape)
            && moving@.len() == element_count(moving_shape) && !fits_engine(fixed_shape) ==> r
            == Err::<RegisterJob<T>, TransformError>(TransformError::EngineFailure),
        r.is_ok() <==> fixed_shape == moving_shape && fixed@.len() == element_count(fixed_shape)
            && moving@.len() == element_count(moving_shape) && fits_engine(fixed_shape),
        r matches Ok(job) ==> {
            &&& job.call == call_for(kind, fixed_shape, affine)
            &&& job.fixed@ == fixed@
            &&& job.moving@ == moving@
            &&& job.shape == fixed_shape
        },
{
    if fixed_shape[0] != moving_shape[0] || fixed_shape[1] != moving_shape[1] {
        assert(fixed_shape != moving_shape);
        return Err(TransformError::ShapeMismatch);
    }
    assert(fixed_shape =~= moving_shape);
    if !holds_shape(fixed.len(), fixed_shape) || !holds_shape(moving.len(), moving_shape) {
        return Err(TransformError::ShapeMismatch);
    }
    if fixed_shape[0] > u32::MAX as usize || fixed_shape[1] > u32::MAX as usize {
        return Err(TransformError::EngineFailure);
    }
    let call = engine_call(kind, fixed_shape, affine);
    Ok(RegisterJob { call, fixed: copy_buffer(fixed), moving: copy_buffer(moving), shape: fixed_shape })
}

/// Prepares the resampling of `image`, a row-major raster of elements of
/// `kind` in the shape `shape`, with the interpolation `method`.
///
/// A buffer that does not hold its shape gives `ShapeMismatch`; extents
/// beyond the engine's 32-bit counts give `EngineFailure`. The engine works
/// on a copy: the caller's buffer is only read.
pub fn prepare_resample<T: Copy>(
    kind: PixelKind,
    image: &[T],
    shape: [usize; 2],
    method: Interpolation,
) -> (r: Result<ResampleJob<T>, TransformError>)
    ensures
        image@.len() != element_count(shape) ==> r == Err::<ResampleJob<T>, TransformError>(
            TransformError::ShapeMismatch,
        ),
        image@.len() == element_count(shape) && !fits_engine(shape) ==> r == Err::<
            ResampleJob<T>,
            TransformError,
        >(TransformError::EngineFailure),
        r.is_ok() <==> image@.len() == element_count(shape) && fits_engine(shape),
        r matches Ok(job) ==> {
            &&& job.call == call_for(kind, shape, method.spec_flag())
            &&& job.buffer@ == image@
            &&& job.shape == shape
        },
{
    if !holds_shape(image.len(), shape) {
        return Err(TransformError::ShapeMismatch);
    }
    if shape[0] > u32::MAX as usize || shape[1] > u32::MAX as usize {
        return Err(TransformError::EngineFailure);
    }
    let call = engine_call(kind, shape, method.flag());
    Ok(ResampleJob { call, buffer: copy_buffer(image), shape })
}

/// Checks that the buffer the engine handed back still holds a raster of
/// the job's shape; anything else is the engine's failure.
pub fn check_output(len: usize, shape: [usize; 2]) -> (r: Result<(), TransformError>)
    ensures
        r.is_ok() <==> len as int == element_count(shape),
        r.is_err() ==> r == Err::<(), TransformError>(TransformError::EngineFailure),
{
    if holds_shape(len, shape) {
        Ok(())
    } else {
        Err(TransformError::EngineFailure)
    }
}

} // verus!
