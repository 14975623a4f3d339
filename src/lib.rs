//! Verified core of a two-dimensional affine image-registration toolkit.
//!
//! The library decides everything about an engine call that can be decided
//! on integers: which element type a raster holds and which engine entry
//! point serves it, whether two rasters may be registered against each
//! other, how the six affine parameters sit in the homogeneous matrix, how an
//! inverse is assembled from that matrix, how a transform is re-centred on a
//! cropped region, and when parameters are exactly those of the identity.
use vstd::prelude::*;

pub mod engine;
pub mod error;
pub mod geometry;
pub mod matrix;
pub mod pixel;
pub mod unity;

verus! {

} // verus!
